use fieldbus_drive::context::{DeviceIdentity, MasterContext, RegionWidths};
use fieldbus_drive::cycle::react;
use fieldbus_drive::drive::{DriveController, DriveState, Ramp};
use fieldbus_drive::error::{ConfigError, ExchangeTimeout, RunError, StateTransitionError};
use fieldbus_drive::exchange::{ExchangeMonitor, TickOutcome};
use fieldbus_drive::image::{InputsRecord, LayoutMismatch, OutputsRecord};

fn served_context() -> MasterContext {
    let mut context = MasterContext::create("eth0", 4).unwrap();
    context.discover(&[DeviceIdentity { vendor: 0x6a, product: 0x414b44 }]).unwrap();
    context.finalize_mapping(&[RegionWidths { outputs: 6, inputs: 6 }]).unwrap();
    context
}

fn inputs(position: i32, status_word: u16) -> Vec<u8> {
    InputsRecord { position_actual_value: position, status_word }.encode()
}

fn parts(max_wait: u32, tolerated: u32) -> (MasterContext, DriveController, ExchangeMonitor) {
    (
        served_context(),
        DriveController::new(Ramp::new(1000, 1_000_000).unwrap(), max_wait),
        ExchangeMonitor::new(3, tolerated),
    )
}

#[test]
fn trusted_tick_writes_the_controller_s_decision() {
    let (mut context, mut controller, mut monitor) = parts(10, 2);
    let report = react(&mut context, &mut controller, &mut monitor, 1, 3, &inputs(42, 0x0008));
    assert_eq!(report, Ok(TickOutcome::Trusted));
    assert_eq!(controller.state, DriveState::FaultReset);
    assert_eq!(
        context.outputs_of(1),
        Some(OutputsRecord { target_velocity: 0, control_word: 0x80 })
    );
    assert_eq!(
        context.inputs_of(1),
        Some(InputsRecord { position_actual_value: 42, status_word: 0x0008 })
    );
    assert_eq!(&context.image()[..6], &[0, 0, 0, 0, 0x80, 0]);
    assert_eq!(&context.image()[6..12], &[42, 0, 0, 0, 0x08, 0]);
}

#[test]
fn short_tick_leaves_outputs_and_controller_alone() {
    let (mut context, mut controller, mut monitor) = parts(10, 2);
    react(&mut context, &mut controller, &mut monitor, 1, 3, &inputs(0, 0)).unwrap();
    react(&mut context, &mut controller, &mut monitor, 1, 3, &inputs(0, 0)).unwrap();
    assert_eq!(controller.state, DriveState::SwitchedOn);
    let image_before = context.image().to_vec();
    let controller_before = controller;
    // A short tick brings bytes that would advance the drive and set a fault.
    let report = react(&mut context, &mut controller, &mut monitor, 1, 2, &inputs(7, 0x0008));
    assert_eq!(report, Ok(TickOutcome::Short));
    assert_eq!(context.image(), image_before.as_slice());
    assert_eq!(controller, controller_before);
    assert_eq!(monitor.short_run, 1);
    assert_eq!(
        context.outputs_of(1),
        Some(OutputsRecord { target_velocity: 0, control_word: 0x07 })
    );
    // The next trusted tick goes on from where the last trusted tick stood.
    let report = react(&mut context, &mut controller, &mut monitor, 1, 3, &inputs(0, 0));
    assert_eq!(report, Ok(TickOutcome::Trusted));
    assert_eq!(controller.state, DriveState::EnablePending);
    assert_eq!(monitor.short_run, 0);
}

#[test]
fn sustained_short_ticks_fail_the_cycle() {
    let (mut context, mut controller, mut monitor) = parts(10, 1);
    react(&mut context, &mut controller, &mut monitor, 1, 3, &inputs(0, 0)).unwrap();
    let image_before = context.image().to_vec();
    let controller_before = controller;
    assert_eq!(
        react(&mut context, &mut controller, &mut monitor, 1, 0, &inputs(0, 0)),
        Ok(TickOutcome::Short)
    );
    assert_eq!(
        react(&mut context, &mut controller, &mut monitor, 1, -1, &inputs(0, 0)),
        Err(RunError::Exchange(ExchangeTimeout { count: -1, expected: 3, consecutive: 2 }))
    );
    assert_eq!(context.image(), image_before.as_slice());
    assert_eq!(controller, controller_before);
}

#[test]
fn received_bytes_of_another_length_fail_the_tick() {
    let (mut context, mut controller, mut monitor) = parts(10, 1);
    let report = react(&mut context, &mut controller, &mut monitor, 1, 3, &[1, 2, 3]);
    assert_eq!(
        report,
        Err(RunError::Config(ConfigError::InputsSegment {
            mismatch: LayoutMismatch { expected: 6, actual: 3 }
        }))
    );
    assert!(context.image().iter().all(|byte| *byte == 0));
    assert_eq!(controller.state, DriveState::FaultReset);
    assert_eq!(controller.outputs, OutputsRecord::default());
}

#[test]
fn exhausted_wait_fails_the_tick_and_keeps_the_outputs() {
    let (mut context, mut controller, mut monitor) = parts(1, 1);
    react(&mut context, &mut controller, &mut monitor, 1, 3, &inputs(0, 0x0008)).unwrap();
    let outputs_before = context.outputs_of(1);
    let report = react(&mut context, &mut controller, &mut monitor, 1, 3, &inputs(5, 0x0008));
    assert_eq!(
        report,
        Err(RunError::StateTransition(StateTransitionError::Drive {
            state: DriveState::FaultReset,
            status_word: 0x0008,
            waited: 1
        }))
    );
    assert_eq!(context.outputs_of(1), outputs_before);
    assert_eq!(
        context.outputs_of(1),
        Some(OutputsRecord { target_velocity: 0, control_word: 0x80 })
    );
}

#[test]
fn outputs_in_the_image_follow_the_ramp() {
    let (mut context, mut controller, mut monitor) = parts(10, 1);
    for _ in 0..4 {
        react(&mut context, &mut controller, &mut monitor, 1, 3, &inputs(0, 0)).unwrap();
    }
    assert_eq!(controller.state, DriveState::OperationEnabled);
    for k in 1..=5 {
        react(&mut context, &mut controller, &mut monitor, 1, 3, &inputs(k, 0x0237)).unwrap();
        assert_eq!(
            context.outputs_of(1),
            Some(OutputsRecord { target_velocity: 1000 * k, control_word: 0x0F })
        );
    }
    // A short tick in between does not move the setpoint.
    react(&mut context, &mut controller, &mut monitor, 1, 0, &inputs(0, 0)).unwrap();
    assert_eq!(
        context.outputs_of(1),
        Some(OutputsRecord { target_velocity: 5000, control_word: 0x0F })
    );
    assert_eq!(&context.image()[..6], &[0x88, 0x13, 0, 0, 0x0F, 0]);
}
