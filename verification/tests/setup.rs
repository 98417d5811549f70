use fieldbus_drive::error::ConfigError;
use fieldbus_drive::setup::{
    drive_setup_plan, next_write, ParameterWrite, SetupAction, ValueWidth, PARAMETER_TIMEOUT_US,
};

fn write(index: u16, subindex: u8, value: u32, width: ValueWidth) -> ParameterWrite {
    ParameterWrite { index, subindex, value, width }
}

#[test]
fn parameter_timeout() {
    assert_eq!(PARAMETER_TIMEOUT_US, 70_000);
}

#[test]
fn widths_in_bytes() {
    assert_eq!(ValueWidth::U8.bytes(), 1);
    assert_eq!(ValueWidth::U16.bytes(), 2);
    assert_eq!(ValueWidth::U32.bytes(), 4);
}

#[test]
fn writes_by_width() {
    assert_eq!(ParameterWrite::byte(0x6060, 0, 9), write(0x6060, 0, 9, ValueWidth::U8));
    assert_eq!(
        ParameterWrite::word(0x1C12, 1, 0x1702),
        write(0x1C12, 1, 0x1702, ValueWidth::U16)
    );
    assert_eq!(
        ParameterWrite::double(0x36E9, 0, 0xDEAD_BEEF),
        write(0x36E9, 0, 0xDEAD_BEEF, ValueWidth::U32)
    );
}

#[test]
fn plan_of_the_drive_in_order() {
    let plan = drive_setup_plan();
    let expected = vec![
        write(0x1C12, 0, 0x00, ValueWidth::U8),
        write(0x1C13, 0, 0x00, ValueWidth::U8),
        write(0x1C12, 1, 0x1702, ValueWidth::U16),
        write(0x1C12, 0, 0x01, ValueWidth::U8),
        write(0x1C13, 1, 0x1B01, ValueWidth::U16),
        write(0x1C13, 0, 0x01, ValueWidth::U8),
        write(0x6060, 0, 0x09, ValueWidth::U8),
        write(0x60C2, 1, 0x02, ValueWidth::U8),
        write(0x60C2, 2, 0xFD, ValueWidth::U8),
        write(0x36E9, 0, 0x00, ValueWidth::U32),
    ];
    assert_eq!(plan, expected);
}

#[test]
fn writes_follow_the_plan_while_accepted() {
    let plan = drive_setup_plan();
    for issued in 0..plan.len() {
        assert_eq!(next_write(&plan, issued, true), SetupAction::Write(plan[issued]));
    }
    assert_eq!(next_write(&plan, plan.len(), true), SetupAction::Finished);
}

#[test]
fn first_write_does_not_depend_on_an_answer() {
    let plan = drive_setup_plan();
    assert_eq!(next_write(&plan, 0, false), SetupAction::Write(plan[0]));
    assert_eq!(next_write(&plan, 0, true), SetupAction::Write(plan[0]));
}

#[test]
fn first_refusal_ends_the_configuration() {
    let plan = drive_setup_plan();
    assert_eq!(
        next_write(&plan, 1, false),
        SetupAction::Abort(ConfigError::ParameterRefused { index: 0x1C12, subindex: 0 })
    );
    assert_eq!(
        next_write(&plan, 3, false),
        SetupAction::Abort(ConfigError::ParameterRefused { index: 0x1C12, subindex: 1 })
    );
    assert_eq!(
        next_write(&plan, 9, false),
        SetupAction::Abort(ConfigError::ParameterRefused { index: 0x60C2, subindex: 2 })
    );
    assert_eq!(
        next_write(&plan, 10, false),
        SetupAction::Abort(ConfigError::ParameterRefused { index: 0x36E9, subindex: 0 })
    );
}

#[test]
fn more_writes_than_the_plan_has_are_out_of_turn() {
    let plan = drive_setup_plan();
    assert_eq!(next_write(&plan, 11, true), SetupAction::Abort(ConfigError::OutOfTurn));
    assert_eq!(next_write(&plan, 11, false), SetupAction::Abort(ConfigError::OutOfTurn));
    assert_eq!(next_write(&[], 0, false), SetupAction::Finished);
    assert_eq!(next_write(&[], 1, true), SetupAction::Abort(ConfigError::OutOfTurn));
}

#[test]
fn a_device_that_refuses_the_nth_write_sees_n_writes() {
    let plan = drive_setup_plan();
    for refused in 0..plan.len() {
        let mut issued = 0;
        let mut accepted = true;
        let end = loop {
            match next_write(&plan, issued, accepted) {
                SetupAction::Write(write) => {
                    assert_eq!(write, plan[issued]);
                    accepted = issued != refused;
                    issued += 1;
                }
                end => break end,
            }
        };
        assert_eq!(issued, refused + 1);
        assert_eq!(
            end,
            SetupAction::Abort(ConfigError::ParameterRefused {
                index: plan[refused].index,
                subindex: plan[refused].subindex
            })
        );
    }
}
