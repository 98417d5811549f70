//! The drive's power-state machine, walked by control words and acknowledged
//! by status bits, and the setpoint ramp that follows it.
//!
//! Once per tick the controller looks at the freshly exchanged status word and
//! decides the outputs record of the next exchange. The drive acknowledges a
//! stage by clearing the status bit that belongs to it: a cleared bit is the
//! acknowledgment edge of this device profile.

use vstd::prelude::*;

use crate::error::{ConfigError, StateTransitionError};
use crate::image::OutputsRecord;
use crate::words::{
    bit_set, fault_reported, has_fault, test_bit, CONTROL_ENABLE_OPERATION, CONTROL_FAULT_RESET,
    CONTROL_SHUTDOWN, CONTROL_SWITCH_ON, STATUS_FAULT, STATUS_OPERATION_ENABLED,
    STATUS_READY_TO_SWITCH_ON, STATUS_SWITCHED_ON,
};

verus! {

/// Stage of the drive's bring-up. Each stage but the last asserts one control
/// word and waits for one status bit to clear.
#[derive(Clone, Copy, Debug, PartialEq, Eq, Structural)]
pub enum DriveState {
    /// A fault is being acknowledged.
    FaultReset,
    /// The drive is asked to become ready to switch on.
    ReadyToSwitchOn,
    /// The power stage is being switched on.
    SwitchedOn,
    /// Operation is being enabled, with the target velocity held at zero.
    EnablePending,
    /// The drive follows setpoints.
    OperationEnabled,
}

impl DriveState {
    /// The control word that this stage asserts.
    pub open spec fn spec_control_word(self) -> u16 {
        match self {
            DriveState::FaultReset => CONTROL_FAULT_RESET,
            DriveState::ReadyToSwitchOn => CONTROL_SHUTDOWN,
            DriveState::SwitchedOn => CONTROL_SWITCH_ON,
            DriveState::EnablePending => CONTROL_ENABLE_OPERATION,
            DriveState::OperationEnabled => CONTROL_ENABLE_OPERATION,
        }
    }

    /// The status bit whose clearing acknowledges this stage; no bit for the
    /// last stage, which waits for nothing.
    pub open spec fn spec_wait_mask(self) -> u16 {
        match self {
            DriveState::FaultReset => STATUS_FAULT,
            DriveState::ReadyToSwitchOn => STATUS_READY_TO_SWITCH_ON,
            DriveState::SwitchedOn => STATUS_SWITCHED_ON,
            DriveState::EnablePending => STATUS_OPERATION_ENABLED,
            DriveState::OperationEnabled => 0,
        }
    }

    /// The stage that follows this one.
    pub open spec fn spec_next(self) -> DriveState {
        match self {
            DriveState::FaultReset => DriveState::ReadyToSwitchOn,
            DriveState::ReadyToSwitchOn => DriveState::SwitchedOn,
            DriveState::SwitchedOn => DriveState::EnablePending,
            DriveState::EnablePending => DriveState::OperationEnabled,
            DriveState::OperationEnabled => DriveState::OperationEnabled,
        }
    }

    /// Whether this stage waits for an acknowledgment.
    pub open spec fn is_waiting(self) -> bool {
        self != DriveState::OperationEnabled
    }

    /// Whether `status_word` acknowledges this stage: the stage waits, and
    /// its status bit is clear.
    pub open spec fn acknowledged_by(self, status_word: u16) -> bool {
        self.is_waiting() && !bit_set(status_word, self.spec_wait_mask())
    }

    /// The control word that this stage asserts.
    pub fn control_word(self) -> (r: u16)
        ensures
            r == self.spec_control_word(),
    {
        match self {
            DriveState::FaultReset => CONTROL_FAULT_RESET,
            DriveState::ReadyToSwitchOn => CONTROL_SHUTDOWN,
            DriveState::SwitchedOn => CONTROL_SWITCH_ON,
            DriveState::EnablePending => CONTROL_ENABLE_OPERATION,
            DriveState::OperationEnabled => CONTROL_ENABLE_OPERATION,
        }
    }

    /// The status bit whose clearing acknowledges this stage, 0 for the last.
    pub fn wait_mask(self) -> (r: u16)
        ensures
            r == self.spec_wait_mask(),
    {
        match self {
            DriveState::FaultReset => STATUS_FAULT,
            DriveState::ReadyToSwitchOn => STATUS_READY_TO_SWITCH_ON,
            DriveState::SwitchedOn => STATUS_SWITCHED_ON,
            DriveState::EnablePending => STATUS_OPERATION_ENABLED,
            DriveState::OperationEnabled => 0,
        }
    }

    /// The stage that follows this one; the last stage follows itself.
    pub fn next(self) -> (r: DriveState)
        ensures
            r == self.spec_next(),
    {
        match self {
            DriveState::FaultReset => DriveState::ReadyToSwitchOn,
            DriveState::ReadyToSwitchOn => DriveState::SwitchedOn,
            DriveState::SwitchedOn => DriveState::EnablePending,
            DriveState::EnablePending => DriveState::OperationEnabled,
            DriveState::OperationEnabled => DriveState::OperationEnabled,
        }
    }

    /// Whether `status_word` acknowledges this stage.
    pub fn is_acknowledged_by(self, status_word: u16) -> (r: bool)
        ensures
            r == self.acknowledged_by(status_word),
    {
        match self {
            DriveState::OperationEnabled => false,
            _ => !test_bit(status_word, self.wait_mask()),
        }
    }
}

/// The stage and the control word that follow from a stage and a fresh status
/// word: the next stage and its word once the status bit has cleared, the same
/// stage and its word until then.
pub open spec fn spec_transition(state: DriveState, status_word: u16) -> (DriveState, u16) {
    if state.acknowledged_by(status_word) {
        (state.spec_next(), state.spec_next().spec_control_word())
    } else {
        (state, state.spec_control_word())
    }
}

/// The transition function of the drive's state machine. It depends on
/// nothing but its arguments: no network, no clock.
pub fn transition(state: DriveState, status_word: u16) -> (r: (DriveState, u16))
    ensures
        r == spec_transition(state, status_word),
{
    if state.is_acknowledged_by(status_word) {
        let next: DriveState = state.next();
        (next, next.control_word())
    } else {
        (state, state.control_word())
    }
}

/// Ramp step of the AKD drive as commissioned, in velocity units per tick.
pub const DEFAULT_RAMP_STEP: i32 = 1000;

/// Largest setpoint of the AKD drive as commissioned.
pub const DEFAULT_RAMP_MAX: i32 = 1_000_000;

/// A setpoint ramp: the setpoint grows by `step` each tick until it stands at
/// `max`.
#[derive(Clone, Copy, Debug, PartialEq, Eq, Structural)]
pub struct Ramp {
    pub step: i32,
    pub max: i32,
}

impl Ramp {
    /// A ramp is well formed when neither its step nor its maximum is
    /// negative.
    pub open spec fn wf(self) -> bool {
        0 <= self.step && 0 <= self.max
    }

    /// The setpoint that follows `current`: one step further, clamped at the
    /// maximum.
    pub open spec fn spec_advance(self, current: i32) -> i32 {
        if current + self.step >= self.max {
            self.max
        } else {
            (current + self.step) as i32
        }
    }

    /// The setpoint after `ticks` ticks of a ramp that starts at zero.
    pub open spec fn setpoint_after(self, ticks: nat) -> i32
        decreases ticks,
    {
        if ticks == 0 {
            0
        } else {
            self.spec_advance(self.setpoint_after((ticks - 1) as nat))
        }
    }

    /// Makes a ramp, refusing a negative step or a negative maximum.
    pub fn new(step: i32, max: i32) -> (r: Result<Ramp, ConfigError>)
        ensures
            step >= 0 && max >= 0 ==> r == Ok::<Ramp, ConfigError>(Ramp { step, max }),
            !(step >= 0 && max >= 0) ==> r == Err::<Ramp, ConfigError>(
                ConfigError::InvalidRamp { step, max },
            ),
            r matches Ok(ramp) ==> ramp.wf(),
    {
        if step >= 0 && max >= 0 {
            Ok(Ramp { step, max })
        } else {
            Err(ConfigError::InvalidRamp { step, max })
        }
    }

    /// The setpoint that follows `current`.
    pub fn advance(&self, current: i32) -> (r: i32)
        requires
            self.wf(),
        ensures
            r == self.spec_advance(current),
    {
        let sum: i64 = current as i64 + self.step as i64;
        if sum >= self.max as i64 {
            self.max
        } else {
            sum as i32
        }
    }
}

/// The smaller of two integers.
pub open spec fn least(a: int, b: int) -> int {
    if a <= b {
        a
    } else {
        b
    }
}

/// The ramp in closed form: after `ticks` ticks from zero the setpoint is the
/// smaller of `ticks * step` and `max`.
pub proof fn lemma_ramp_closed_form(ramp: Ramp, ticks: nat)
    requires
        ramp.wf(),
    ensures
        ramp.setpoint_after(ticks) == least(ticks * ramp.step, ramp.max as int),
    decreases ticks,
{
    if ticks > 0 {
        let before = (ticks - 1) as nat;
        lemma_ramp_closed_form(ramp, before);
        assert(ticks * ramp.step == before * ramp.step + ramp.step) by (nonlinear_arith)
            requires
                before == ticks - 1,
        ;
        assert(0 <= before * ramp.step) by (nonlinear_arith)
            requires
                0 <= ramp.step,
        ;
    } else {
        assert(ticks * ramp.step == 0) by (nonlinear_arith)
            requires
                ticks == 0,
        ;
    }
}

/// The ramp never falls and never passes its maximum.
pub proof fn lemma_ramp_monotonic(ramp: Ramp, earlier: nat, later: nat)
    requires
        ramp.wf(),
        earlier <= later,
    ensures
        0 <= ramp.setpoint_after(earlier) <= ramp.setpoint_after(later) <= ramp.max,
{
    lemma_ramp_closed_form(ramp, earlier);
    lemma_ramp_closed_form(ramp, later);
    assert(0 <= earlier * ramp.step <= later * ramp.step) by (nonlinear_arith)
        requires
            0 <= ramp.step,
            earlier <= later,
    ;
}

/// The outputs record that asserts a stage: the stage's control word, and a
/// target velocity of zero while operation is being enabled, so that the motor
/// does not jump when it starts.
pub open spec fn spec_command(state: DriveState, outputs: OutputsRecord) -> OutputsRecord {
    OutputsRecord {
        target_velocity: if state == DriveState::EnablePending {
            0
        } else {
            outputs.target_velocity
        },
        control_word: state.spec_control_word(),
    }
}

/// The outputs record that asserts `state`, made from the record last written.
pub fn command(state: DriveState, outputs: OutputsRecord) -> (r: OutputsRecord)
    ensures
        r == spec_command(state, outputs),
{
    let target_velocity: i32 = match state {
        DriveState::EnablePending => 0,
        _ => outputs.target_velocity,
    };
    OutputsRecord { target_velocity, control_word: state.control_word() }
}

/// Walks one drive through its bring-up and then streams setpoints to it.
///
/// `outputs` is the record last decided, `waited` the number of ticks that the
/// current stage has waited for its acknowledgment, `max_wait` the most that a
/// stage may wait.
#[derive(Clone, Copy, Debug, PartialEq, Eq, Structural)]
pub struct DriveController {
    pub state: DriveState,
    pub outputs: OutputsRecord,
    pub waited: u32,
    pub max_wait: u32,
    pub ramp: Ramp,
}

impl DriveController {
    /// A controller is well formed when its ramp is.
    pub open spec fn wf(self) -> bool {
        self.ramp.wf()
    }

    /// The controller after the fault-reset sequence: where the status word
    /// reports a fault, the reset word is asserted and the bring-up starts
    /// over; where it reports none, nothing changes.
    pub open spec fn spec_fault_reset(self, status_word: u16) -> DriveController {
        if fault_reported(status_word) {
            DriveController {
                state: DriveState::FaultReset,
                outputs: spec_command(DriveState::FaultReset, self.outputs),
                waited: 0,
                ..self
            }
        } else {
            self
        }
    }

    /// The controller after one tick, and what the tick reports.
    ///
    /// - A tick whose inputs are not trusted changes nothing and repeats the
    ///   outputs last decided.
    /// - In `OperationEnabled` the setpoint moves one step along the ramp.
    /// - A stage whose status bit has cleared gives way to the next stage,
    ///   whose outputs are asserted, and the wait starts anew.
    /// - A stage that has already waited `max_wait` ticks fails, and the
    ///   controller stays as it is.
    /// - Otherwise the stage is asserted again and has waited one tick more.
    pub open spec fn spec_tick(self, status_word: u16, trusted: bool) -> (
        DriveController,
        Result<OutputsRecord, StateTransitionError>,
    ) {
        if !trusted {
            (self, Ok(self.outputs))
        } else if self.state == DriveState::OperationEnabled {
            let outputs = OutputsRecord {
                target_velocity: self.ramp.spec_advance(self.outputs.target_velocity),
                control_word: CONTROL_ENABLE_OPERATION,
            };
            (DriveController { outputs, ..self }, Ok(outputs))
        } else if self.state.acknowledged_by(status_word) {
            let next = self.state.spec_next();
            let outputs = spec_command(next, self.outputs);
            (DriveController { state: next, outputs, waited: 0, ..self }, Ok(outputs))
        } else if self.waited >= self.max_wait {
            (
                self,
                Err(
                    StateTransitionError::Drive {
                        state: self.state,
                        status_word,
                        waited: self.waited,
                    },
                ),
            )
        } else {
            let outputs = spec_command(self.state, self.outputs);
            (DriveController { outputs, waited: (self.waited + 1) as u32, ..self }, Ok(outputs))
        }
    }

    /// The controller after a run of trusted ticks, one for each status word,
    /// which ends at the first tick that fails, and what the last tick
    /// reported.
    pub open spec fn spec_run(self, status_words: Seq<u16>) -> (
        DriveController,
        Result<OutputsRecord, StateTransitionError>,
    )
        decreases status_words.len(),
    {
        if status_words.len() == 0 {
            (self, Ok(self.outputs))
        } else {
            let (after, report) = self.spec_tick(status_words[0], true);
            if report is Err {
                (after, report)
            } else {
                after.spec_run(status_words.skip(1))
            }
        }
    }

    /// A controller at the start of the bring-up: nothing written, nothing
    /// waited for.
    pub open spec fn spec_new(ramp: Ramp, max_wait: u32) -> DriveController {
        DriveController {
            state: DriveState::FaultReset,
            outputs: OutputsRecord { target_velocity: 0, control_word: 0 },
            waited: 0,
            max_wait,
            ramp,
        }
    }

    /// A controller at the start of the bring-up: nothing written, nothing
    /// waited for.
    pub fn new(ramp: Ramp, max_wait: u32) -> (r: DriveController)
        ensures
            r == DriveController::spec_new(ramp, max_wait),
    {
        DriveController {
            state: DriveState::FaultReset,
            outputs: OutputsRecord { target_velocity: 0, control_word: 0 },
            waited: 0,
            max_wait,
            ramp,
        }
    }

    /// The fault-reset sequence. Where `status_word` reports a fault, the
    /// reset word is asserted and the bring-up starts over from `FaultReset`.
    /// Where the fault bit is clear, the call changes nothing: no state, no
    /// control word, no count.
    pub fn fault_reset(&mut self, status_word: u16)
        ensures
            *final(self) == old(self).spec_fault_reset(status_word),
            !fault_reported(status_word) ==> *final(self) == *old(self),
            fault_reported(status_word) ==> final(self).outputs.control_word
                == CONTROL_FAULT_RESET,
    {
        if has_fault(status_word) {
            self.outputs = command(DriveState::FaultReset, self.outputs);
            self.state = DriveState::FaultReset;
            self.waited = 0;
        }
    }

    /// One tick: looks at the freshly exchanged status word and decides the
    /// outputs record of the next exchange.
    ///
    /// `trusted` says whether the exchange that delivered `status_word`
    /// reached its expected liveness count. Where it did not, the controller
    /// and the outputs stay exactly as they were.
    pub fn tick(&mut self, status_word: u16, trusted: bool) -> (r: Result<
        OutputsRecord,
        StateTransitionError,
    >)
        requires
            old(self).wf(),
        ensures
            (*final(self), r) == old(self).spec_tick(status_word, trusted),
            final(self).wf(),
            !trusted ==> *final(self) == *old(self) && r == Ok::<
                OutputsRecord,
                StateTransitionError,
            >(old(self).outputs),
            r matches Ok(outputs) ==> outputs == final(self).outputs,
            r is Err ==> *final(self) == *old(self),
    {
        if !trusted {
            return Ok(self.outputs);
        }
        match self.state {
            DriveState::OperationEnabled => {
                let outputs = OutputsRecord {
                    target_velocity: self.ramp.advance(self.outputs.target_velocity),
                    control_word: CONTROL_ENABLE_OPERATION,
                };
                self.outputs = outputs;
                Ok(outputs)
            },
            _ => {
                if self.state.is_acknowledged_by(status_word) {
                    let next: DriveState = self.state.next();
                    let outputs = command(next, self.outputs);
                    self.state = next;
                    self.outputs = outputs;
                    self.waited = 0;
                    Ok(outputs)
                } else if self.waited >= self.max_wait {
                    Err(
                        StateTransitionError::Drive {
                            state: self.state,
                            status_word,
                            waited: self.waited,
                        },
                    )
                } else {
                    let outputs = command(self.state, self.outputs);
                    self.outputs = outputs;
                    self.waited = self.waited + 1;
                    Ok(outputs)
                }
            },
        }
    }

    /// A run of trusted ticks, one for each status word in turn, which ends at
    /// the first tick that fails.
    pub fn run(&mut self, status_words: &[u16]) -> (r: Result<
        OutputsRecord,
        StateTransitionError,
    >)
        requires
            old(self).wf(),
        ensures
            (*final(self), r) == old(self).spec_run(status_words@),
            final(self).wf(),
    {
        let mut i: usize = 0;
        assert(status_words@.skip(0) =~= status_words@);
        while i < status_words.len()
            invariant
                i <= status_words.len(),
                self.wf(),
                old(self).spec_run(status_words@) == self.spec_run(status_words@.skip(i as int)),
            decreases status_words.len() - i,
        {
            let ghost rest = status_words@.skip(i as int);
            assert(rest.len() > 0 && rest[0] == status_words@[i as int]);
            assert(rest.skip(1) =~= status_words@.skip(i + 1));
            let report = self.tick(status_words[i], true);
            if report.is_err() {
                return report;
            }
            i = i + 1;
        }
        Ok(self.outputs)
    }
}

/// The fault-reset sequence is idempotent: a second call on the same status
/// word changes nothing that the first has left, and with the fault bit clear
/// not even the first changes anything.
pub proof fn lemma_fault_reset_idempotent(controller: DriveController, status_word: u16)
    ensures
        controller.spec_fault_reset(status_word).spec_fault_reset(status_word)
            == controller.spec_fault_reset(status_word),
        !fault_reported(status_word) ==> controller.spec_fault_reset(status_word) == controller,
{
}

/// A tick leaves the stage for no other reason than the acknowledgment: where
/// the stage after a tick differs from the stage before, the inputs were
/// trusted, the status bit of the old stage was clear, the new stage is the
/// one that follows, and the tick did not fail.
pub proof fn lemma_advance_only_on_acknowledgment(
    controller: DriveController,
    status_word: u16,
    trusted: bool,
)
    ensures
        controller.spec_tick(status_word, trusted).0.state != controller.state ==> {
            &&& trusted
            &&& controller.state.acknowledged_by(status_word)
            &&& controller.spec_tick(status_word, trusted).0.state == controller.state.spec_next()
            &&& controller.spec_tick(status_word, trusted).1 is Ok
        },
        trusted && controller.state.acknowledged_by(status_word) ==> controller.spec_tick(
            status_word,
            trusted,
        ).0.state == controller.state.spec_next(),
{
}

/// A trusted tick of a waiting stage that does not fail moves the stage and
/// the control word as the transition function says.
pub proof fn lemma_tick_follows_transition(controller: DriveController, status_word: u16)
    requires
        controller.state.is_waiting(),
        controller.spec_tick(status_word, true).1 is Ok,
    ensures
        (
            controller.spec_tick(status_word, true).0.state,
            controller.spec_tick(status_word, true).0.outputs.control_word,
        ) == spec_transition(controller.state, status_word),
{
}

/// A tick whose inputs are not trusted decides nothing: the controller and
/// the outputs record are those of the last trusted tick, whatever the status
/// word holds.
pub proof fn lemma_untrusted_tick_changes_nothing(controller: DriveController, status_word: u16)
    ensures
        controller.spec_tick(status_word, false) == (
            controller,
            Ok::<OutputsRecord, StateTransitionError>(controller.outputs),
        ),
{
}

/// Every wait is bounded. Status words that never clear the bit of a waiting
/// stage keep the controller in that stage; the run is served for as long as
/// the wait stays within `max_wait` ticks, and fails with the tick that would
/// pass it.
pub proof fn lemma_wait_is_bounded(controller: DriveController, status_words: Seq<u16>)
    requires
        controller.state.is_waiting(),
        controller.waited <= controller.max_wait,
        forall|i: int|
            0 <= i < status_words.len() ==> !controller.state.acknowledged_by(
                #[trigger] status_words[i],
            ),
    ensures
        controller.spec_run(status_words).0.state == controller.state,
        controller.waited + status_words.len() <= controller.max_wait ==> {
            &&& controller.spec_run(status_words).1 is Ok
            &&& controller.spec_run(status_words).0.waited == controller.waited
                + status_words.len()
        },
        controller.waited + status_words.len() > controller.max_wait ==> {
            &&& controller.spec_run(status_words).1 is Err
            &&& controller.spec_run(status_words).0.waited == controller.max_wait
        },
    decreases status_words.len(),
{
    if status_words.len() > 0 {
        let (after, report) = controller.spec_tick(status_words[0], true);
        assert(!controller.state.acknowledged_by(status_words[0]));
        if report is Ok {
            let rest = status_words.skip(1);
            assert forall|i: int| 0 <= i < rest.len() implies !after.state.acknowledged_by(
                #[trigger] rest[i],
            ) by {
                assert(rest[i] == status_words[i + 1]);
            }
            lemma_wait_is_bounded(after, rest);
        }
    }
}

/// In `OperationEnabled` the setpoint follows the ramp, whatever the status
/// words hold: a controller whose setpoint stands where the ramp stands after
/// `done` ticks has, after a run of further ticks, the setpoint of the ramp
/// after `done` ticks and those of the run, and no tick of the run fails.
pub proof fn lemma_streaming_follows_ramp(
    controller: DriveController,
    done: nat,
    status_words: Seq<u16>,
)
    requires
        controller.wf(),
        controller.state == DriveState::OperationEnabled,
        controller.outputs.target_velocity == controller.ramp.setpoint_after(done),
    ensures
        controller.spec_run(status_words).1 is Ok,
        controller.spec_run(status_words).0.state == DriveState::OperationEnabled,
        controller.spec_run(status_words).0.outputs.target_velocity
            == controller.ramp.setpoint_after(done + status_words.len()),
        controller.spec_run(status_words).0.outputs.target_velocity == least(
            (done + status_words.len()) * controller.ramp.step,
            controller.ramp.max as int,
        ),
    decreases status_words.len(),
{
    lemma_ramp_closed_form(controller.ramp, done + status_words.len());
    if status_words.len() > 0 {
        let (after, report) = controller.spec_tick(status_words[0], true);
        assert(after.outputs.target_velocity == controller.ramp.setpoint_after(done + 1));
        lemma_streaming_follows_ramp(after, done + 1, status_words.skip(1));
    }
}

} // verus!
