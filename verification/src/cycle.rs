//! One tick of the cycle, seen from the control side: take what the exchange
//! brought, let the drive controller react, and lay its decision into the
//! outputs of the next exchange.
//!
//! Data flows one way per tick. The controller's outputs are sent, the inputs
//! come back, the typed view exposes them, and the controller reads and
//! reacts. Inputs of a tick that fell short of its liveness count are never
//! looked at, and nothing is written on their account.

use vstd::prelude::*;

use crate::context::{
    lemma_inputs_leave_outputs, lemma_outputs_read_back, ContextModel, MasterContext,
};
use crate::drive::DriveController;
use crate::error::{ConfigError, RunError};
use crate::exchange::{ExchangeMonitor, TickOutcome};
use crate::image::{InputsRecord, LayoutMismatch};

verus! {

/// What a tick leaves behind.
pub struct Reaction {
    pub context: ContextModel,
    pub controller: DriveController,
    pub monitor: ExchangeMonitor,
    pub report: Result<TickOutcome, RunError>,
}

/// The reaction to a tick that brought liveness count `liveness` and the
/// bytes `received` for the inputs segment.
///
/// - Where short ticks have gone on for too long, the tick fails, and context
///   and controller stay as they were.
/// - Where the tick is short but borne, context and controller stay as they
///   were.
/// - Where the tick is trusted but the bytes received are not as many as the
///   inputs segment is long, the tick fails, and context and controller stay
///   as they were.
/// - Else the bytes are taken for the inputs segment and the controller ticks
///   on the status word of `device`. Where that fails, the tick fails, and the
///   outputs stay as they were. Where it succeeds, the outputs that the
///   controller decided are written to the outputs of `device`.
pub open spec fn spec_react(
    context: ContextModel,
    controller: DriveController,
    monitor: ExchangeMonitor,
    device: int,
    liveness: i32,
    received: Seq<u8>,
) -> Reaction {
    let (watched, outcome) = monitor.spec_record(liveness);
    match outcome {
        Err(timeout) => Reaction {
            context,
            controller,
            monitor: watched,
            report: Err(RunError::Exchange(timeout)),
        },
        Ok(TickOutcome::Short) => Reaction {
            context,
            controller,
            monitor: watched,
            report: Ok(TickOutcome::Short),
        },
        Ok(TickOutcome::Trusted) => if !context.accepts_inputs(received) {
            Reaction {
                context,
                controller,
                monitor: watched,
                report: Err(
                    RunError::Config(
                        ConfigError::InputsSegment {
                            mismatch: LayoutMismatch {
                                expected: context.inputs_len() as usize,
                                actual: received.len() as usize,
                            },
                        },
                    ),
                ),
            }
        } else {
            let loaded = context.with_inputs(received);
            let inputs = loaded.inputs_of(device).unwrap();
            let (ticked, decision) = controller.spec_tick(inputs.status_word, true);
            match decision {
                Err(failure) => Reaction {
                    context: loaded,
                    controller: ticked,
                    monitor: watched,
                    report: Err(RunError::StateTransition(failure)),
                },
                Ok(outputs) => Reaction {
                    context: loaded.with_outputs(device, outputs),
                    controller: ticked,
                    monitor: watched,
                    report: Ok(TickOutcome::Trusted),
                },
            }
        },
    }
}

/// Reacts to one tick of the exchange for the drive at address `device`.
pub fn react(
    context: &mut MasterContext,
    controller: &mut DriveController,
    monitor: &mut ExchangeMonitor,
    device: usize,
    liveness: i32,
    received: &[u8],
) -> (r: Result<TickOutcome, RunError>)
    requires
        old(context).wf(),
        old(controller).wf(),
        old(context)@.serves(device as int),
    ensures
        final(context).wf(),
        final(controller).wf(),
        final(context)@.serves(device as int),
        (Reaction {
            context: final(context)@,
            controller: *final(controller),
            monitor: *final(monitor),
            report: r,
        }) == spec_react(
            old(context)@,
            *old(controller),
            *old(monitor),
            device as int,
            liveness,
            received@,
        ),
{
    let outcome = match monitor.record(liveness) {
        Ok(outcome) => outcome,
        Err(timeout) => {
            return Err(RunError::Exchange(timeout));
        },
    };
    match outcome {
        TickOutcome::Short => {
            return Ok(TickOutcome::Short);
        },
        TickOutcome::Trusted => {},
    }
    let expected: usize = context.inputs_len();
    if !context.load_inputs(received) {
        return Err(
            RunError::Config(
                ConfigError::InputsSegment {
                    mismatch: LayoutMismatch { expected, actual: received.len() },
                },
            ),
        );
    }
    let inputs: InputsRecord = context.inputs_of(device).unwrap();
    match controller.tick(inputs.status_word, true) {
        Err(failure) => Err(RunError::StateTransition(failure)),
        Ok(outputs) => {
            context.set_outputs(device, outputs);
            Ok(TickOutcome::Trusted)
        },
    }
}

/// A tick that falls short of its liveness count does not touch the outputs:
/// it changes neither the process image nor the controller, whatever was
/// received, so that the outputs of the next exchange are those that the
/// controller last decided.
pub proof fn lemma_short_tick_keeps_outputs(
    context: ContextModel,
    controller: DriveController,
    monitor: ExchangeMonitor,
    device: int,
    liveness: i32,
    received: Seq<u8>,
)
    requires
        liveness < monitor.expected,
    ensures
        spec_react(context, controller, monitor, device, liveness, received).context == context,
        spec_react(context, controller, monitor, device, liveness, received).controller
            == controller,
        spec_react(context, controller, monitor, device, liveness, received).context.outputs_of(
            device,
        ) == context.outputs_of(device),
{
}

/// The outputs of the device hold what the controller last decided: after a
/// tick that went through, they are the controller's outputs record; after
/// any other tick they are what they were.
pub proof fn lemma_outputs_follow_controller(
    context: ContextModel,
    controller: DriveController,
    monitor: ExchangeMonitor,
    device: int,
    liveness: i32,
    received: Seq<u8>,
)
    requires
        context.wf(),
        context.serves(device),
    ensures
        ({
            let after = spec_react(context, controller, monitor, device, liveness, received);
            if after.report == Ok::<TickOutcome, RunError>(TickOutcome::Trusted) {
                after.context.outputs_of(device) == Some(after.controller.outputs)
            } else {
                after.context.outputs_of(device) == context.outputs_of(device)
            }
        }),
{
    let after = spec_react(context, controller, monitor, device, liveness, received);
    let (watched, outcome) = monitor.spec_record(liveness);
    if outcome == Ok::<TickOutcome, crate::error::ExchangeTimeout>(TickOutcome::Trusted)
        && context.accepts_inputs(received) {
        let loaded = context.with_inputs(received);
        lemma_inputs_leave_outputs(context, received, device);
        let inputs = loaded.inputs_of(device).unwrap();
        let (ticked, decision) = controller.spec_tick(inputs.status_word, true);
        match decision {
            Ok(outputs) => {
                lemma_outputs_read_back(loaded, device, outputs, device);
            },
            Err(_) => {},
        }
    }
}

} // verus!
