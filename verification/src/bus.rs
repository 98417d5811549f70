//! Network states of the bus and the bounded bring-up that reaches `Op`.

use vstd::prelude::*;

use crate::error::{ConfigError, RunError, StateTransitionError};

verus! {

/// Network state of the master or of one device.
///
/// `Error` stands for every outcome that is none of the four states a
/// bring-up passes through.
#[derive(Clone, Copy, Debug, PartialEq, Eq, Structural)]
pub enum BusState {
    Init,
    PreOp,
    SafeOp,
    Op,
    Error,
}

/// State code of `Init` on the wire.
pub const CODE_INIT: u16 = 0x01;

/// State code of `PreOp` on the wire.
pub const CODE_PRE_OP: u16 = 0x02;

/// State code of `SafeOp` on the wire.
pub const CODE_SAFE_OP: u16 = 0x04;

/// State code of `Op` on the wire.
pub const CODE_OP: u16 = 0x08;

/// State code that reports an error.
pub const CODE_ERROR: u16 = 0x10;

impl BusState {
    /// The state that a code read from the wire stands for.
    pub open spec fn spec_from_code(code: u16) -> BusState {
        if code == CODE_INIT {
            BusState::Init
        } else if code == CODE_PRE_OP {
            BusState::PreOp
        } else if code == CODE_SAFE_OP {
            BusState::SafeOp
        } else if code == CODE_OP {
            BusState::Op
        } else {
            BusState::Error
        }
    }

    /// The code that requests or reports this state on the wire.
    pub open spec fn spec_code(self) -> u16 {
        match self {
            BusState::Init => CODE_INIT,
            BusState::PreOp => CODE_PRE_OP,
            BusState::SafeOp => CODE_SAFE_OP,
            BusState::Op => CODE_OP,
            BusState::Error => CODE_ERROR,
        }
    }

    /// Reads a state code. A code that names none of the four bring-up
    /// states, a combined code with the error flag among them, is `Error`.
    pub fn from_code(code: u16) -> (r: BusState)
        ensures
            r == BusState::spec_from_code(code),
    {
        if code == CODE_INIT {
            BusState::Init
        } else if code == CODE_PRE_OP {
            BusState::PreOp
        } else if code == CODE_SAFE_OP {
            BusState::SafeOp
        } else if code == CODE_OP {
            BusState::Op
        } else {
            BusState::Error
        }
    }

    /// The code of this state.
    pub fn code(self) -> (r: u16)
        ensures
            r == self.spec_code(),
    {
        match self {
            BusState::Init => CODE_INIT,
            BusState::PreOp => CODE_PRE_OP,
            BusState::SafeOp => CODE_SAFE_OP,
            BusState::Op => CODE_OP,
            BusState::Error => CODE_ERROR,
        }
    }
}

/// Every state is read back from its own code.
pub proof fn lemma_code_round_trip(state: BusState)
    ensures
        BusState::spec_from_code(state.spec_code()) == state,
{
}

/// Number of warm-up ticks of the usual bring-up.
pub const DEFAULT_WARMUP_TICKS: u32 = 15000;

/// Number of polls for `Op` of the usual bring-up.
pub const DEFAULT_OP_ATTEMPTS: u32 = 200;

/// Timeout of one poll for `Op` of the usual bring-up, in microseconds.
pub const DEFAULT_POLL_TIMEOUT_US: i32 = 50000;

/// The budget of a bring-up.
#[derive(Clone, Copy, Debug, PartialEq, Eq, Structural)]
pub struct BringUpConfig {
    /// Exchange ticks run after the clock is set up and before any state is
    /// requested, so that the clocks settle.
    pub warmup_ticks: u32,
    /// Most polls for `Op`.
    pub op_attempts: u32,
    /// Timeout of each poll, in microseconds.
    pub poll_timeout_us: i32,
}

/// Why a bring-up failed.
#[derive(Clone, Copy, Debug, PartialEq, Eq, Structural)]
pub enum BringUpFailure {
    /// The process image could not be mapped.
    Mapping,
    /// The distributed clock could not be set up.
    Clock,
    /// A state request was refused, or `Op` was not observed within the
    /// budget of polls.
    OpNotReached,
    /// An event arrived that answers no action that was asked for.
    OutOfTurn,
}

/// How far a bring-up has come.
#[derive(Clone, Copy, Debug, PartialEq, Eq, Structural)]
pub enum BringUpPhase {
    /// Nothing has been asked for yet.
    Idle,
    /// The mapping of the process image is awaited.
    Mapping,
    /// The setup of the distributed clock is awaited.
    Clock,
    /// A warm-up exchange tick is awaited.
    WarmUp,
    /// The request for `SafeOp` is awaited.
    RequestSafeOp,
    /// The request for `Op` is awaited.
    RequestOp,
    /// The answer to a poll for `Op` is awaited.
    Polling,
    /// The exchange tick between two polls is awaited.
    Exchanging,
    /// The bus is in `Op`.
    Operational,
    /// The bring-up has failed.
    Failed(BringUpFailure),
}

/// What the bring-up asks the transport to do next.
#[derive(Clone, Copy, Debug, PartialEq, Eq, Structural)]
pub enum BusAction {
    /// Map the process image.
    ConfigureMapping,
    /// Set up the distributed clock.
    ConfigureClock,
    /// Run one exchange tick.
    Exchange,
    /// Request a state of all devices.
    Request(BusState),
    /// Wait up to `timeout_us` microseconds for all devices to report
    /// `target`, and report the state observed.
    Poll { target: BusState, timeout_us: i32 },
    /// Nothing more: the bus is in `Op`.
    Ready,
    /// Nothing more: the bring-up has failed.
    Abort(RunError),
}

/// What the transport reports back.
#[derive(Clone, Copy, Debug, PartialEq, Eq, Structural)]
pub enum BusEvent {
    /// The bring-up is to begin.
    Start,
    /// The action asked for was carried out.
    Completed,
    /// The action asked for failed.
    Refused,
    /// The state that a poll observed.
    Observed(BusState),
}

/// The bring-up of the bus as a state machine: each event that the transport
/// reports is answered with the next action to take.
#[derive(Clone, Copy, Debug, PartialEq, Eq, Structural)]
pub struct BringUp {
    pub phase: BringUpPhase,
    pub config: BringUpConfig,
    /// Warm-up ticks run so far.
    pub warmed: u32,
    /// Polls for `Op` answered so far.
    pub attempts: u32,
    /// State that the last poll observed; `Init` until a poll has answered.
    pub last_observed: BusState,
}

impl BringUp {
    /// The error that a failed bring-up ends with.
    pub open spec fn spec_failure_error(self, failure: BringUpFailure) -> RunError {
        match failure {
            BringUpFailure::Mapping => RunError::Config(ConfigError::MappingFailed),
            BringUpFailure::Clock => RunError::Config(ConfigError::ClockFailed),
            BringUpFailure::OutOfTurn => RunError::Config(ConfigError::OutOfTurn),
            BringUpFailure::OpNotReached => RunError::StateTransition(
                StateTransitionError::Bus {
                    last_observed: self.last_observed,
                    attempts: self.attempts,
                },
            ),
        }
    }

    /// The bring-up after failing, and the action that says so.
    pub open spec fn spec_fail(self, failure: BringUpFailure) -> (BringUp, BusAction) {
        (
            BringUp { phase: BringUpPhase::Failed(failure), ..self },
            BusAction::Abort(self.spec_failure_error(failure)),
        )
    }

    /// The bring-up once the warm-up is over: `SafeOp` is requested.
    pub open spec fn spec_request_safe_op(self) -> (BringUp, BusAction) {
        (
            BringUp { phase: BringUpPhase::RequestSafeOp, ..self },
            BusAction::Request(BusState::SafeOp),
        )
    }

    /// The poll for `Op` under this budget.
    pub open spec fn spec_poll(self) -> BusAction {
        BusAction::Poll { target: BusState::Op, timeout_us: self.config.poll_timeout_us }
    }

    /// The bring-up after an event, and the action it asks for next.
    ///
    /// The order is: map the process image, set up the distributed clock, run
    /// the warm-up ticks, request `SafeOp`, request `Op`, then poll for `Op`
    /// with one exchange tick between two polls. A refusal ends the bring-up,
    /// and so does the poll that uses up the budget without observing `Op`.
    /// An event that answers nothing asked for ends it too. Once ended, the
    /// bring-up stays as it is and repeats its last word.
    pub open spec fn spec_step(self, event: BusEvent) -> (BringUp, BusAction) {
        match self.phase {
            BringUpPhase::Operational => (self, BusAction::Ready),
            BringUpPhase::Failed(failure) => (
                self,
                BusAction::Abort(self.spec_failure_error(failure)),
            ),
            BringUpPhase::Idle => match event {
                BusEvent::Start => (
                    BringUp {
                        phase: BringUpPhase::Mapping,
                        warmed: 0,
                        attempts: 0,
                        last_observed: BusState::Init,
                        ..self
                    },
                    BusAction::ConfigureMapping,
                ),
                _ => self.spec_fail(BringUpFailure::OutOfTurn),
            },
            BringUpPhase::Mapping => match event {
                BusEvent::Completed => (
                    BringUp { phase: BringUpPhase::Clock, ..self },
                    BusAction::ConfigureClock,
                ),
                BusEvent::Refused => self.spec_fail(BringUpFailure::Mapping),
                _ => self.spec_fail(BringUpFailure::OutOfTurn),
            },
            BringUpPhase::Clock => match event {
                BusEvent::Completed => if self.config.warmup_ticks == 0 {
                    self.spec_request_safe_op()
                } else {
                    (BringUp { phase: BringUpPhase::WarmUp, warmed: 0, ..self }, BusAction::Exchange)
                },
                BusEvent::Refused => self.spec_fail(BringUpFailure::Clock),
                _ => self.spec_fail(BringUpFailure::OutOfTurn),
            },
            BringUpPhase::WarmUp => match event {
                BusEvent::Completed => if self.warmed >= self.config.warmup_ticks - 1 {
                    self.spec_request_safe_op()
                } else {
                    (BringUp { warmed: (self.warmed + 1) as u32, ..self }, BusAction::Exchange)
                },
                _ => self.spec_fail(BringUpFailure::OutOfTurn),
            },
            BringUpPhase::RequestSafeOp => match event {
                BusEvent::Completed => (
                    BringUp { phase: BringUpPhase::RequestOp, ..self },
                    BusAction::Request(BusState::Op),
                ),
                BusEvent::Refused => self.spec_fail(BringUpFailure::OpNotReached),
                _ => self.spec_fail(BringUpFailure::OutOfTurn),
            },
            BringUpPhase::RequestOp => match event {
                BusEvent::Completed => if self.config.op_attempts == 0 {
                    BringUp { attempts: 0, ..self }.spec_fail(BringUpFailure::OpNotReached)
                } else {
                    (
                        BringUp { phase: BringUpPhase::Polling, attempts: 0, ..self },
                        self.spec_poll(),
                    )
                },
                BusEvent::Refused => self.spec_fail(BringUpFailure::OpNotReached),
                _ => self.spec_fail(BringUpFailure::OutOfTurn),
            },
            BringUpPhase::Polling => match event {
                BusEvent::Observed(state) => {
                    let polled = BringUp {
                        last_observed: state,
                        attempts: if self.attempts < u32::MAX {
                            (self.attempts + 1) as u32
                        } else {
                            u32::MAX
                        },
                        ..self
                    };
                    if state == BusState::Op {
                        (BringUp { phase: BringUpPhase::Operational, ..polled }, BusAction::Ready)
                    } else if polled.attempts >= self.config.op_attempts {
                        polled.spec_fail(BringUpFailure::OpNotReached)
                    } else {
                        (BringUp { phase: BringUpPhase::Exchanging, ..polled }, BusAction::Exchange)
                    }
                },
                _ => self.spec_fail(BringUpFailure::OutOfTurn),
            },
            BringUpPhase::Exchanging => match event {
                BusEvent::Completed => (
                    BringUp { phase: BringUpPhase::Polling, ..self },
                    self.spec_poll(),
                ),
                _ => self.spec_fail(BringUpFailure::OutOfTurn),
            },
        }
    }

    /// The bring-up after a run of events.
    pub open spec fn spec_run(self, events: Seq<BusEvent>) -> BringUp
        decreases events.len(),
    {
        if events.len() == 0 {
            self
        } else {
            self.spec_step(events[0]).0.spec_run(events.skip(1))
        }
    }

    /// Whether the bring-up has ended, in `Op` or in failure.
    pub open spec fn is_over(self) -> bool {
        self.phase is Operational || self.phase is Failed
    }

    /// An upper bound on the number of events that the bring-up can still
    /// take before it has ended.
    pub open spec fn events_left(self) -> nat {
        let polls: nat = if self.config.op_attempts > self.attempts {
            (self.config.op_attempts - self.attempts) as nat
        } else {
            0
        };
        let warmups: nat = if self.config.warmup_ticks > self.warmed {
            (self.config.warmup_ticks - self.warmed) as nat
        } else {
            0
        };
        match self.phase {
            BringUpPhase::Operational => 0,
            BringUpPhase::Failed(_) => 0,
            BringUpPhase::Polling => 2 * polls + 1,
            BringUpPhase::Exchanging => 2 * polls + 2,
            BringUpPhase::RequestOp => 2 * self.config.op_attempts as nat + 2,
            BringUpPhase::RequestSafeOp => 2 * self.config.op_attempts as nat + 3,
            BringUpPhase::WarmUp => 2 * self.config.op_attempts as nat + 4 + warmups,
            BringUpPhase::Clock => 2 * self.config.op_attempts as nat + 5
                + self.config.warmup_ticks as nat,
            BringUpPhase::Mapping => 2 * self.config.op_attempts as nat + 6
                + self.config.warmup_ticks as nat,
            BringUpPhase::Idle => 2 * self.config.op_attempts as nat + 7
                + self.config.warmup_ticks as nat,
        }
    }

    /// A bring-up that has not begun.
    pub open spec fn spec_new(config: BringUpConfig) -> BringUp {
        BringUp {
            phase: BringUpPhase::Idle,
            config,
            warmed: 0,
            attempts: 0,
            last_observed: BusState::Init,
        }
    }

    /// A bring-up that has not begun.
    pub fn new(config: BringUpConfig) -> (r: BringUp)
        ensures
            r == BringUp::spec_new(config),
    {
        BringUp {
            phase: BringUpPhase::Idle,
            config,
            warmed: 0,
            attempts: 0,
            last_observed: BusState::Init,
        }
    }

    /// The error that a failed bring-up ends with.
    pub fn failure_error(&self, failure: BringUpFailure) -> (r: RunError)
        ensures
            r == self.spec_failure_error(failure),
    {
        match failure {
            BringUpFailure::Mapping => RunError::Config(ConfigError::MappingFailed),
            BringUpFailure::Clock => RunError::Config(ConfigError::ClockFailed),
            BringUpFailure::OutOfTurn => RunError::Config(ConfigError::OutOfTurn),
            BringUpFailure::OpNotReached => RunError::StateTransition(
                StateTransitionError::Bus {
                    last_observed: self.last_observed,
                    attempts: self.attempts,
                },
            ),
        }
    }

    fn fail(&mut self, failure: BringUpFailure) -> (action: BusAction)
        ensures
            (*final(self), action) == old(self).spec_fail(failure),
    {
        let error = self.failure_error(failure);
        self.phase = BringUpPhase::Failed(failure);
        BusAction::Abort(error)
    }

    fn request_safe_op(&mut self) -> (action: BusAction)
        ensures
            (*final(self), action) == old(self).spec_request_safe_op(),
    {
        self.phase = BringUpPhase::RequestSafeOp;
        BusAction::Request(BusState::SafeOp)
    }

    /// Takes the transport's report and answers with the next action.
    pub fn step(&mut self, event: BusEvent) -> (action: BusAction)
        ensures
            (*final(self), action) == old(self).spec_step(event),
            final(self).config == old(self).config,
            !old(self).is_over() ==> final(self).events_left() < old(self).events_left(),
            old(self).is_over() ==> *final(self) == *old(self),
            action is Ready <==> final(self).phase is Operational,
            action is Abort <==> final(self).phase is Failed,
    {
        let poll = BusAction::Poll { target: BusState::Op, timeout_us: self.config.poll_timeout_us };
        match self.phase {
            BringUpPhase::Operational => BusAction::Ready,
            BringUpPhase::Failed(failure) => BusAction::Abort(self.failure_error(failure)),
            BringUpPhase::Idle => match event {
                BusEvent::Start => {
                    self.phase = BringUpPhase::Mapping;
                    self.warmed = 0;
                    self.attempts = 0;
                    self.last_observed = BusState::Init;
                    BusAction::ConfigureMapping
                },
                _ => self.fail(BringUpFailure::OutOfTurn),
            },
            BringUpPhase::Mapping => match event {
                BusEvent::Completed => {
                    self.phase = BringUpPhase::Clock;
                    BusAction::ConfigureClock
                },
                BusEvent::Refused => self.fail(BringUpFailure::Mapping),
                _ => self.fail(BringUpFailure::OutOfTurn),
            },
            BringUpPhase::Clock => match event {
                BusEvent::Completed => {
                    if self.config.warmup_ticks == 0 {
                        self.request_safe_op()
                    } else {
                        self.phase = BringUpPhase::WarmUp;
                        self.warmed = 0;
                        BusAction::Exchange
                    }
                },
                BusEvent::Refused => self.fail(BringUpFailure::Clock),
                _ => self.fail(BringUpFailure::OutOfTurn),
            },
            BringUpPhase::WarmUp => match event {
                BusEvent::Completed => {
                    if self.config.warmup_ticks == 0 || self.warmed >= self.config.warmup_ticks
                        - 1 {
                        self.request_safe_op()
                    } else {
                        self.warmed = self.warmed + 1;
                        BusAction::Exchange
                    }
                },
                _ => self.fail(BringUpFailure::OutOfTurn),
            },
            BringUpPhase::RequestSafeOp => match event {
                BusEvent::Completed => {
                    self.phase = BringUpPhase::RequestOp;
                    BusAction::Request(BusState::Op)
                },
                BusEvent::Refused => self.fail(BringUpFailure::OpNotReached),
                _ => self.fail(BringUpFailure::OutOfTurn),
            },
            BringUpPhase::RequestOp => match event {
                BusEvent::Completed => {
                    self.attempts = 0;
                    if self.config.op_attempts == 0 {
                        self.fail(BringUpFailure::OpNotReached)
                    } else {
                        self.phase = BringUpPhase::Polling;
                        poll
                    }
                },
                BusEvent::Refused => self.fail(BringUpFailure::OpNotReached),
                _ => self.fail(BringUpFailure::OutOfTurn),
            },
            BringUpPhase::Polling => match event {
                BusEvent::Observed(state) => {
                    self.last_observed = state;
                    if self.attempts < u32::MAX {
                        self.attempts = self.attempts + 1;
                    }
                    match state {
                        BusState::Op => {
                            self.phase = BringUpPhase::Operational;
                            BusAction::Ready
                        },
                        _ => {
                            if self.attempts >= self.config.op_attempts {
                                self.fail(BringUpFailure::OpNotReached)
                            } else {
                                self.phase = BringUpPhase::Exchanging;
                                BusAction::Exchange
                            }
                        },
                    }
                },
                _ => self.fail(BringUpFailure::OutOfTurn),
            },
            BringUpPhase::Exchanging => match event {
                BusEvent::Completed => {
                    self.phase = BringUpPhase::Polling;
                    poll
                },
                _ => self.fail(BringUpFailure::OutOfTurn),
            },
        }
    }
}

/// Whether an event reports that `Op` was observed.
pub open spec fn observes_op(event: BusEvent) -> bool {
    event == BusEvent::Observed(BusState::Op)
}

/// Every step that does not end the bring-up brings its end nearer, whatever
/// the event: no sequence of events keeps a bring-up going without end.
pub proof fn lemma_step_makes_progress(bring_up: BringUp, event: BusEvent)
    requires
        !bring_up.is_over(),
    ensures
        bring_up.spec_step(event).0.events_left() < bring_up.events_left(),
{
}

/// A bring-up is over after as many events as its bound says, at the latest.
pub proof fn lemma_bring_up_terminates(bring_up: BringUp, events: Seq<BusEvent>)
    requires
        events.len() >= bring_up.events_left(),
    ensures
        bring_up.spec_run(events).is_over(),
    decreases events.len(),
{
    if events.len() > 0 {
        if !bring_up.is_over() {
            lemma_step_makes_progress(bring_up, events[0]);
        }
        lemma_bring_up_terminates(bring_up.spec_step(events[0]).0, events.skip(1));
    }
}

/// The bus is never taken to be in `Op` on anything but an observation of
/// `Op`: a run of events among which no poll observed `Op` leaves a bring-up
/// that was not in `Op` out of `Op`.
pub proof fn lemma_no_op_without_observation(bring_up: BringUp, events: Seq<BusEvent>)
    requires
        !(bring_up.phase is Operational),
        forall|i: int| 0 <= i < events.len() ==> !observes_op(#[trigger] events[i]),
    ensures
        !(bring_up.spec_run(events).phase is Operational),
    decreases events.len(),
{
    if events.len() > 0 {
        let rest = events.skip(1);
        assert(!observes_op(events[0]));
        assert forall|i: int| 0 <= i < rest.len() implies !observes_op(#[trigger] rest[i]) by {
            assert(rest[i] == events[i + 1]);
        }
        lemma_no_op_without_observation(bring_up.spec_step(events[0]).0, rest);
    }
}

/// A bus that never reaches `Op` fails the bring-up within the budget: once
/// the bound on events is used up without an observation of `Op`, the
/// bring-up has failed.
pub proof fn lemma_budget_without_op_fails(bring_up: BringUp, events: Seq<BusEvent>)
    requires
        !(bring_up.phase is Operational),
        events.len() >= bring_up.events_left(),
        forall|i: int| 0 <= i < events.len() ==> !observes_op(#[trigger] events[i]),
    ensures
        bring_up.spec_run(events).phase is Failed,
{
    lemma_bring_up_terminates(bring_up, events);
    lemma_no_op_without_observation(bring_up, events);
}

} // verus!
