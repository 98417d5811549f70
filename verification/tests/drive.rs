use fieldbus_drive::drive::{
    command, transition, DriveController, DriveState, Ramp, DEFAULT_RAMP_MAX, DEFAULT_RAMP_STEP,
};
use fieldbus_drive::error::{ConfigError, StateTransitionError};
use fieldbus_drive::image::OutputsRecord;
use fieldbus_drive::words::{
    has_fault, test_bit, CONTROL_ENABLE_OPERATION, CONTROL_FAULT_RESET, CONTROL_SHUTDOWN,
    CONTROL_SWITCH_ON, STATUS_FAULT, STATUS_OPERATION_ENABLED, STATUS_READY_TO_SWITCH_ON,
    STATUS_SWITCHED_ON,
};

fn default_ramp() -> Ramp {
    Ramp::new(DEFAULT_RAMP_STEP, DEFAULT_RAMP_MAX).unwrap()
}

fn outputs(target_velocity: i32, control_word: u16) -> OutputsRecord {
    OutputsRecord { target_velocity, control_word }
}

#[test]
fn control_words_have_their_profile_values() {
    assert_eq!(CONTROL_FAULT_RESET, 0x80);
    assert_eq!(CONTROL_SHUTDOWN, 0x06);
    assert_eq!(CONTROL_SWITCH_ON, 0x07);
    assert_eq!(CONTROL_ENABLE_OPERATION, 0x0F);
}

#[test]
fn status_bits_have_their_profile_positions() {
    assert_eq!(STATUS_READY_TO_SWITCH_ON, 1 << 0);
    assert_eq!(STATUS_SWITCHED_ON, 1 << 1);
    assert_eq!(STATUS_OPERATION_ENABLED, 1 << 2);
    assert_eq!(STATUS_FAULT, 1 << 3);
}

#[test]
fn fault_bit_is_read_from_bit_three_only() {
    assert!(has_fault(0x0008));
    assert!(has_fault(0xFFFF));
    assert!(!has_fault(0x0007));
    assert!(!has_fault(0xFFF7));
    assert!(test_bit(0x0237, STATUS_READY_TO_SWITCH_ON));
    assert!(!test_bit(0x0236, STATUS_READY_TO_SWITCH_ON));
}

#[test]
fn each_stage_has_its_word_its_bit_and_its_successor() {
    assert_eq!(DriveState::FaultReset.control_word(), 0x80);
    assert_eq!(DriveState::ReadyToSwitchOn.control_word(), 0x06);
    assert_eq!(DriveState::SwitchedOn.control_word(), 0x07);
    assert_eq!(DriveState::EnablePending.control_word(), 0x0F);
    assert_eq!(DriveState::OperationEnabled.control_word(), 0x0F);
    assert_eq!(DriveState::FaultReset.wait_mask(), 0x0008);
    assert_eq!(DriveState::ReadyToSwitchOn.wait_mask(), 0x0001);
    assert_eq!(DriveState::SwitchedOn.wait_mask(), 0x0002);
    assert_eq!(DriveState::EnablePending.wait_mask(), 0x0004);
    assert_eq!(DriveState::OperationEnabled.wait_mask(), 0);
    assert_eq!(DriveState::FaultReset.next(), DriveState::ReadyToSwitchOn);
    assert_eq!(DriveState::ReadyToSwitchOn.next(), DriveState::SwitchedOn);
    assert_eq!(DriveState::SwitchedOn.next(), DriveState::EnablePending);
    assert_eq!(DriveState::EnablePending.next(), DriveState::OperationEnabled);
    assert_eq!(DriveState::OperationEnabled.next(), DriveState::OperationEnabled);
}

#[test]
fn transition_advances_on_a_cleared_bit_only() {
    assert_eq!(
        transition(DriveState::FaultReset, 0x0008),
        (DriveState::FaultReset, 0x80)
    );
    assert_eq!(
        transition(DriveState::FaultReset, 0x0007),
        (DriveState::ReadyToSwitchOn, 0x06)
    );
    assert_eq!(
        transition(DriveState::ReadyToSwitchOn, 0x0001),
        (DriveState::ReadyToSwitchOn, 0x06)
    );
    assert_eq!(
        transition(DriveState::ReadyToSwitchOn, 0x000E),
        (DriveState::SwitchedOn, 0x07)
    );
    assert_eq!(
        transition(DriveState::SwitchedOn, 0x0002),
        (DriveState::SwitchedOn, 0x07)
    );
    assert_eq!(
        transition(DriveState::SwitchedOn, 0x000D),
        (DriveState::EnablePending, 0x0F)
    );
    assert_eq!(
        transition(DriveState::EnablePending, 0x0004),
        (DriveState::EnablePending, 0x0F)
    );
    assert_eq!(
        transition(DriveState::EnablePending, 0x000B),
        (DriveState::OperationEnabled, 0x0F)
    );
    assert_eq!(
        transition(DriveState::OperationEnabled, 0x0000),
        (DriveState::OperationEnabled, 0x0F)
    );
    assert_eq!(
        transition(DriveState::OperationEnabled, 0xFFFF),
        (DriveState::OperationEnabled, 0x0F)
    );
}

#[test]
fn acknowledgment_is_the_cleared_bit_of_the_stage() {
    assert!(DriveState::SwitchedOn.is_acknowledged_by(0xFFFD));
    assert!(!DriveState::SwitchedOn.is_acknowledged_by(0x0002));
    assert!(!DriveState::OperationEnabled.is_acknowledged_by(0x0000));
}

#[test]
fn command_forces_zero_velocity_while_enabling() {
    assert_eq!(
        command(DriveState::EnablePending, outputs(777, 0x07)),
        outputs(0, 0x0F)
    );
    assert_eq!(
        command(DriveState::SwitchedOn, outputs(777, 0x06)),
        outputs(777, 0x07)
    );
}

#[test]
fn new_controller_has_written_nothing() {
    let controller = DriveController::new(default_ramp(), 10);
    assert_eq!(controller.state, DriveState::FaultReset);
    assert_eq!(controller.outputs, outputs(0, 0));
    assert_eq!(controller.waited, 0);
    assert_eq!(controller.max_wait, 10);
    assert_eq!(controller.ramp, Ramp { step: 1000, max: 1_000_000 });
}

#[test]
fn scenario_no_fault_then_ready_bit_clears() {
    let mut controller = DriveController::new(default_ramp(), 10);
    // No fault is reported: the reset word is never written.
    assert_eq!(controller.tick(0x0000, true), Ok(outputs(0, 0x06)));
    assert_eq!(controller.state, DriveState::ReadyToSwitchOn);
    // One tick with the ready bit still set: the stage holds.
    assert_eq!(controller.tick(0x0001, true), Ok(outputs(0, 0x06)));
    assert_eq!(controller.state, DriveState::ReadyToSwitchOn);
    assert_eq!(controller.waited, 1);
    // The ready bit goes to 0: the controller advances.
    assert_eq!(controller.tick(0x0000, true), Ok(outputs(0, 0x07)));
    assert_eq!(controller.state, DriveState::SwitchedOn);
    assert_eq!(controller.waited, 0);
}

#[test]
fn scenario_fault_is_reset_then_sequence_continues() {
    let mut controller = DriveController::new(default_ramp(), 10);
    assert_eq!(controller.tick(0x0008, true), Ok(outputs(0, 0x80)));
    assert_eq!(controller.state, DriveState::FaultReset);
    assert_eq!(controller.tick(0x0008, true), Ok(outputs(0, 0x80)));
    assert_eq!(controller.state, DriveState::FaultReset);
    assert_eq!(controller.waited, 2);
    // The fault bit clears.
    assert_eq!(controller.tick(0x0007, true), Ok(outputs(0, 0x06)));
    assert_eq!(controller.state, DriveState::ReadyToSwitchOn);
    assert_eq!(controller.tick(0x0006, true), Ok(outputs(0, 0x07)));
    assert_eq!(controller.state, DriveState::SwitchedOn);
    assert_eq!(controller.tick(0x0004, true), Ok(outputs(0, 0x0F)));
    assert_eq!(controller.state, DriveState::EnablePending);
    assert_eq!(controller.tick(0x0004, true), Ok(outputs(0, 0x0F)));
    assert_eq!(controller.state, DriveState::EnablePending);
    assert_eq!(controller.tick(0x0000, true), Ok(outputs(0, 0x0F)));
    assert_eq!(controller.state, DriveState::OperationEnabled);
    assert_eq!(controller.tick(0x0000, true), Ok(outputs(1000, 0x0F)));
    assert_eq!(controller.state, DriveState::OperationEnabled);
}

#[test]
fn fault_reset_with_clear_bit_changes_nothing() {
    let mut controller = DriveController::new(default_ramp(), 10);
    controller.tick(0x0000, true).unwrap();
    controller.tick(0x0001, true).unwrap();
    let before = controller;
    controller.fault_reset(0x0007);
    assert_eq!(controller, before);
    assert_eq!(controller.outputs.control_word, 0x06);
}

#[test]
fn fault_reset_is_idempotent() {
    let mut controller = DriveController::new(default_ramp(), 10);
    controller.tick(0x0000, true).unwrap();
    controller.tick(0x0000, true).unwrap();
    controller.fault_reset(0x0008);
    assert_eq!(controller.state, DriveState::FaultReset);
    assert_eq!(controller.outputs, outputs(0, 0x80));
    assert_eq!(controller.waited, 0);
    let once = controller;
    controller.fault_reset(0x0008);
    assert_eq!(controller, once);
}

#[test]
fn wait_for_acknowledgment_is_bounded() {
    let mut controller = DriveController::new(default_ramp(), 3);
    assert_eq!(controller.tick(0x0008, true), Ok(outputs(0, 0x80)));
    assert_eq!(controller.tick(0x0008, true), Ok(outputs(0, 0x80)));
    assert_eq!(controller.tick(0x0008, true), Ok(outputs(0, 0x80)));
    assert_eq!(controller.waited, 3);
    let at_the_limit = controller;
    assert_eq!(
        controller.tick(0x0008, true),
        Err(StateTransitionError::Drive {
            state: DriveState::FaultReset,
            status_word: 0x0008,
            waited: 3
        })
    );
    assert_eq!(controller, at_the_limit);
}

#[test]
fn stuck_status_word_exhausts_the_wait_of_every_stage() {
    // A fake clock: the loop is bounded by the tick counter, not by the drive.
    let stuck: [(u16, u16, DriveState); 3] = [
        (0x0000, 0x0001, DriveState::ReadyToSwitchOn),
        (0x0000, 0x0002, DriveState::SwitchedOn),
        (0x0000, 0x0004, DriveState::EnablePending),
    ];
    let mut reached = 1;
    for (free, held, stage) in stuck {
        let mut controller = DriveController::new(default_ramp(), 50);
        for _ in 0..reached {
            controller.tick(free, true).unwrap();
        }
        assert_eq!(controller.state, stage);
        let mut ticks = 0;
        let failure = loop {
            ticks += 1;
            assert!(ticks <= 51, "the wait must end");
            if let Err(failure) = controller.tick(held, true) {
                break failure;
            }
        };
        assert_eq!(ticks, 51);
        assert_eq!(
            failure,
            StateTransitionError::Drive { state: stage, status_word: held, waited: 50 }
        );
        assert_eq!(controller.state, stage);
        reached += 1;
    }
}

#[test]
fn zero_wait_fails_on_the_first_unacknowledged_tick() {
    let mut controller = DriveController::new(default_ramp(), 0);
    assert_eq!(
        controller.tick(0x0008, true),
        Err(StateTransitionError::Drive {
            state: DriveState::FaultReset,
            status_word: 0x0008,
            waited: 0
        })
    );
    assert_eq!(controller.tick(0x0000, true), Ok(outputs(0, 0x06)));
}

#[test]
fn run_stops_at_the_first_failure() {
    let mut controller = DriveController::new(default_ramp(), 2);
    let report = controller.run(&[0x0000, 0x0001, 0x0001, 0x0001, 0x0000]);
    assert_eq!(
        report,
        Err(StateTransitionError::Drive {
            state: DriveState::ReadyToSwitchOn,
            status_word: 0x0001,
            waited: 2
        })
    );
    assert_eq!(controller.state, DriveState::ReadyToSwitchOn);
    assert_eq!(controller.waited, 2);
}

#[test]
fn run_of_no_ticks_reports_the_outputs_as_they_stand() {
    let mut controller = DriveController::new(default_ramp(), 2);
    let before = controller;
    assert_eq!(controller.run(&[]), Ok(outputs(0, 0)));
    assert_eq!(controller, before);
}

#[test]
fn run_walks_the_drive_to_operation_enabled() {
    let mut controller = DriveController::new(default_ramp(), 5);
    assert_eq!(controller.run(&[0, 0, 0, 0]), Ok(outputs(0, 0x0F)));
    assert_eq!(controller.state, DriveState::OperationEnabled);
}

#[test]
fn untrusted_tick_changes_nothing() {
    let mut controller = DriveController::new(default_ramp(), 5);
    controller.run(&[0, 0, 0, 0, 0, 0]).unwrap();
    assert_eq!(controller.outputs, outputs(2000, 0x0F));
    let before = controller;
    assert_eq!(controller.tick(0x0008, false), Ok(outputs(2000, 0x0F)));
    assert_eq!(controller, before);
    let mut waiting = DriveController::new(default_ramp(), 5);
    waiting.tick(0x0008, true).unwrap();
    let before = waiting;
    assert_eq!(waiting.tick(0x0000, false), Ok(outputs(0, 0x80)));
    assert_eq!(waiting, before);
}

#[test]
fn setpoint_after_k_ticks_is_min_of_k_steps_and_max() {
    let ramp = Ramp::new(1000, 2500).unwrap();
    let mut controller = DriveController::new(ramp, 5);
    controller.run(&[0, 0, 0, 0]).unwrap();
    let expected: [i32; 6] = [1000, 2000, 2500, 2500, 2500, 2500];
    for (k, setpoint) in expected.iter().enumerate() {
        let decided = controller.tick(0xFFFF, true).unwrap();
        assert_eq!(decided.target_velocity, *setpoint, "tick {}", k + 1);
        assert_eq!(decided.target_velocity as i64, ((k as i64 + 1) * 1000).min(2500));
        assert_eq!(decided.control_word, 0x0F);
    }
}

#[test]
fn default_ramp_reaches_its_maximum_after_a_thousand_ticks() {
    let mut controller = DriveController::new(default_ramp(), 5);
    controller.run(&[0, 0, 0, 0]).unwrap();
    let mut previous = 0;
    for k in 1..=1200i64 {
        let decided = controller.tick(0, true).unwrap();
        assert_eq!(decided.target_velocity as i64, (k * 1000).min(1_000_000));
        assert!(decided.target_velocity >= previous);
        previous = decided.target_velocity;
    }
    assert_eq!(controller.outputs.target_velocity, 1_000_000);
}

#[test]
fn ramp_advance_clamps_at_the_maximum() {
    let ramp = Ramp::new(7, 20).unwrap();
    assert_eq!(ramp.advance(0), 7);
    assert_eq!(ramp.advance(7), 14);
    assert_eq!(ramp.advance(14), 20);
    assert_eq!(ramp.advance(20), 20);
    let steep = Ramp::new(i32::MAX, i32::MAX).unwrap();
    assert_eq!(steep.advance(i32::MAX), i32::MAX);
    let flat = Ramp::new(0, 10).unwrap();
    assert_eq!(flat.advance(0), 0);
}

#[test]
fn ramp_refuses_negative_step_or_maximum() {
    assert_eq!(Ramp::new(5, 10), Ok(Ramp { step: 5, max: 10 }));
    assert_eq!(Ramp::new(0, 0), Ok(Ramp { step: 0, max: 0 }));
    assert_eq!(Ramp::new(-1, 10), Err(ConfigError::InvalidRamp { step: -1, max: 10 }));
    assert_eq!(Ramp::new(1, -10), Err(ConfigError::InvalidRamp { step: 1, max: -10 }));
}
