//! A whole run, from discovery to shutdown, as a state machine.
//!
//! The run asks for one action at a time and is told how the action went.
//! The caller performs the actions on the network and owns the clock; the run
//! decides. A run discovers the drive, writes its configuration, brings the
//! bus to `Op`, walks the drive to `OperationEnabled`, streams setpoints until
//! it is asked to stop, takes the bus back to `Init` and ends. Any fatal
//! condition ends it in failure; only a stop that was asked for ends it in
//! success.

use vstd::prelude::*;

use crate::bus::{BringUp, BringUpConfig, BringUpPhase, BusAction, BusEvent, BusState};
use crate::context::{
    check_identity, creation_fault, ContextModel, DeviceIdentity, MasterContext,
    RegionWidths, DRIVE_PRODUCT, DRIVE_VENDOR,
};
use crate::cycle::{react, spec_react};
use crate::drive::{DriveController, Ramp};
use crate::error::{ConfigError, RunError};
use crate::exchange::{expected_count, ExchangeMonitor};
use crate::setup::{
    drive_setup_plan, next_write, spec_drive_setup_plan, spec_next_write, ParameterWrite,
    SetupAction, PARAMETER_TIMEOUT_US,
};

verus! {

/// Address of the drive on the bus.
pub const DRIVE_ADDRESS: usize = 1;

/// What a run is made with.
#[derive(Clone, Copy, Debug, PartialEq, Eq, Structural)]
pub struct RunConfig {
    /// Number of devices that the table has room for.
    pub device_capacity: usize,
    /// The setpoint ramp.
    pub ramp: Ramp,
    /// Most ticks that a stage of the drive may wait for its acknowledgment.
    pub max_wait: u32,
    /// The budget of the bus bring-up.
    pub bring_up: BringUpConfig,
    /// Number of short ticks in a row that are borne.
    pub tolerated_short_ticks: u32,
}

/// How far a run has come.
#[derive(Clone, Copy, Debug, PartialEq, Eq, Structural)]
pub enum RunPhase {
    /// Nothing has been asked for yet.
    Idle,
    /// The probe of the network is awaited.
    Discovery,
    /// The answer to a parameter write is awaited.
    Setup,
    /// The bus is being brought to `Op`.
    BringUp,
    /// Ticks of the cyclic exchange are awaited.
    Cyclic,
    /// The return of the bus to `Init` is awaited.
    ShuttingDown,
    /// The run has ended.
    Finished,
}

/// What the run asks its caller to do next.
#[derive(Clone, Copy, Debug, PartialEq, Eq, Structural)]
pub enum RunAction {
    /// Probe the network and report the devices found.
    Discover,
    /// Write a parameter to a device and report whether it was accepted.
    WriteParameter { device: usize, write: ParameterWrite, timeout_us: i32 },
    /// Do what the bus bring-up asks for and report how it went.
    Bus(BusAction),
    /// Run one tick of the cyclic exchange and report what it brought.
    Cycle,
    /// Request `Init` of all devices and report whether it was reached.
    Shutdown,
    /// Nothing more: the run has ended in success.
    Succeed,
    /// Nothing more: the run has ended in failure.
    Fail(RunError),
}

/// What a run holds, as mathematics.
pub struct RunModel {
    pub phase: RunPhase,
    pub context: ContextModel,
    pub plan: Seq<ParameterWrite>,
    pub issued: nat,
    pub bring_up: BringUp,
    pub controller: DriveController,
    pub monitor: ExchangeMonitor,
    pub failure: Option<RunError>,
}

impl RunModel {
    /// The invariant of a run: context and controller are well formed, no
    /// more writes were issued than the plan has, and while ticks are awaited
    /// the bus is in `Op` and the context serves the drive.
    pub open spec fn wf(self) -> bool {
        &&& self.context.wf()
        &&& self.controller.wf()
        &&& self.issued <= self.plan.len()
        &&& self.phase is Cyclic ==> self.bring_up.phase is Operational && self.context.serves(
            DRIVE_ADDRESS as int,
        )
    }

    /// The last word of a run that has ended.
    pub open spec fn verdict(self) -> RunAction {
        match self.failure {
            None => RunAction::Succeed,
            Some(error) => RunAction::Fail(error),
        }
    }

    /// The run ended in failure.
    pub open spec fn fail(self, error: RunError) -> (RunModel, RunAction) {
        (
            RunModel { phase: RunPhase::Finished, failure: Some(error), ..self },
            RunAction::Fail(error),
        )
    }

    /// The run ended because it was told something that answers no action it
    /// asked for.
    pub open spec fn out_of_turn(self) -> (RunModel, RunAction) {
        self.fail(RunError::Config(ConfigError::OutOfTurn))
    }

    /// The monitor that watches the cyclic exchange of this run: every device
    /// acknowledges its outputs twice and its inputs once.
    pub open spec fn cyclic_monitor(self) -> ExchangeMonitor {
        ExchangeMonitor::spec_new((3 * self.context.count) as u32, self.monitor.tolerated)
    }

    /// The run after the bus bring-up took a step. Where the bring-up says
    /// that the bus is in `Op`, the cyclic exchange begins, if the bring-up
    /// is indeed over and the context serves the drive; where it has failed,
    /// the run fails with it; else its action is passed on.
    pub open spec fn relay(self, stepped: (BringUp, BusAction)) -> (RunModel, RunAction) {
        let run = RunModel { bring_up: stepped.0, ..self };
        match stepped.1 {
            BusAction::Ready => if run.context.serves(DRIVE_ADDRESS as int)
                && run.bring_up.phase is Operational {
                (
                    RunModel { phase: RunPhase::Cyclic, monitor: run.cyclic_monitor(), ..run },
                    RunAction::Cycle,
                )
            } else {
                run.out_of_turn()
            },
            BusAction::Abort(error) => run.fail(error),
            action => (run, RunAction::Bus(action)),
        }
    }

    /// The run after it was started.
    pub open spec fn after_start(self) -> (RunModel, RunAction) {
        match self.phase {
            RunPhase::Finished => (self, self.verdict()),
            RunPhase::Idle => (
                RunModel { phase: RunPhase::Discovery, ..self },
                RunAction::Discover,
            ),
            _ => self.out_of_turn(),
        }
    }

    /// The run after the next step of the drive's configuration was decided.
    pub open spec fn setup_step(self, accepted: bool) -> (RunModel, RunAction) {
        match spec_next_write(self.plan, self.issued, accepted) {
            SetupAction::Write(write) => (
                RunModel { issued: self.issued + 1, ..self },
                RunAction::WriteParameter {
                    device: DRIVE_ADDRESS,
                    write,
                    timeout_us: PARAMETER_TIMEOUT_US,
                },
            ),
            SetupAction::Finished => RunModel { phase: RunPhase::BringUp, ..self }.relay(
                self.bring_up.spec_step(BusEvent::Start),
            ),
            SetupAction::Abort(error) => self.fail(RunError::Config(error)),
        }
    }

    /// The run after the probe found the devices `found`.
    ///
    /// The devices are entered in the table. There must be one at least, and
    /// the first must be the drive. Its configuration hook is registered and
    /// taken, and the first parameter of the configuration is asked for.
    pub open spec fn after_discovered(self, found: Seq<DeviceIdentity>) -> (RunModel, RunAction) {
        match self.phase {
            RunPhase::Finished => (self, self.verdict()),
            RunPhase::Discovery => {
                let context = self.context.after_discovery(found);
                let run = RunModel { context, ..self };
                match self.context.discover_result(found) {
                    Err(error) => run.fail(RunError::Config(error)),
                    Ok(_) => if found.len() == 0 {
                        run.fail(RunError::Config(ConfigError::NoDevices))
                    } else if !(found[0].vendor == DRIVE_VENDOR && found[0].product
                        == DRIVE_PRODUCT) {
                        run.fail(
                            RunError::Config(
                                ConfigError::UnexpectedDevice {
                                    vendor: found[0].vendor,
                                    product: found[0].product,
                                },
                            ),
                        )
                    } else {
                        RunModel {
                            phase: RunPhase::Setup,
                            context: context.after_registration(DRIVE_ADDRESS as int).after_hook(
                                DRIVE_ADDRESS as int,
                            ),
                            issued: 0,
                            ..self
                        }.setup_step(true)
                    },
                }
            },
            _ => self.out_of_turn(),
        }
    }

    /// The run after the drive answered a parameter write.
    pub open spec fn after_parameter_written(self, accepted: bool) -> (RunModel, RunAction) {
        match self.phase {
            RunPhase::Finished => (self, self.verdict()),
            RunPhase::Setup => self.setup_step(accepted),
            _ => self.out_of_turn(),
        }
    }

    /// The run after the transport mapped the process image, or failed to.
    /// `widths` holds the widths of the regions mapped, device by device.
    /// A mapping that the context cannot make final fails the run.
    pub open spec fn after_mapped(self, widths: Seq<RegionWidths>, accepted: bool) -> (
        RunModel,
        RunAction,
    ) {
        match self.phase {
            RunPhase::Finished => (self, self.verdict()),
            RunPhase::BringUp => if !(self.bring_up.phase is Mapping) {
                self.out_of_turn()
            } else if !accepted {
                self.relay(self.bring_up.spec_step(BusEvent::Refused))
            } else {
                match self.context.mapping_fault(widths) {
                    Some(error) => self.fail(RunError::Config(error)),
                    None => RunModel { context: self.context.after_mapping(widths), ..self }.relay(
                        self.bring_up.spec_step(BusEvent::Completed),
                    ),
                }
            },
            _ => self.out_of_turn(),
        }
    }

    /// The run after the transport reported on an action of the bus
    /// bring-up other than the mapping.
    pub open spec fn after_bus_event(self, event: BusEvent) -> (RunModel, RunAction) {
        match self.phase {
            RunPhase::Finished => (self, self.verdict()),
            RunPhase::BringUp => if self.bring_up.phase is Mapping {
                self.out_of_turn()
            } else {
                self.relay(self.bring_up.spec_step(event))
            },
            _ => self.out_of_turn(),
        }
    }

    /// The run after a tick of the cyclic exchange. The tick is reacted to
    /// first. A tick that fails ends the cycle with its error; a stop that
    /// was asked for ends it after the tick; either way the bus is taken back
    /// to `Init` next. Else the next tick is asked for.
    pub open spec fn after_cycle(self, liveness: i32, received: Seq<u8>, stop_requested: bool)
        -> (RunModel, RunAction) {
        match self.phase {
            RunPhase::Finished => (self, self.verdict()),
            RunPhase::Cyclic => {
                let reaction = spec_react(
                    self.context,
                    self.controller,
                    self.monitor,
                    DRIVE_ADDRESS as int,
                    liveness,
                    received,
                );
                let run = RunModel {
                    context: reaction.context,
                    controller: reaction.controller,
                    monitor: reaction.monitor,
                    ..self
                };
                match reaction.report {
                    Err(error) => (
                        RunModel { phase: RunPhase::ShuttingDown, failure: Some(error), ..run },
                        RunAction::Shutdown,
                    ),
                    Ok(_) => if stop_requested {
                        (RunModel { phase: RunPhase::ShuttingDown, ..run }, RunAction::Shutdown)
                    } else {
                        (run, RunAction::Cycle)
                    },
                }
            },
            _ => self.out_of_turn(),
        }
    }

    /// The run after the bus was asked back to `Init`. Whether `Init` was
    /// reached does not change how the run ends.
    pub open spec fn after_shutdown(self, init_reached: bool) -> (RunModel, RunAction) {
        match self.phase {
            RunPhase::Finished => (self, self.verdict()),
            RunPhase::ShuttingDown => (
                RunModel { phase: RunPhase::Finished, ..self },
                self.verdict(),
            ),
            _ => self.out_of_turn(),
        }
    }
}

/// What stands in the way of making a run, if anything: a ramp with a
/// negative step or maximum, or what stands in the way of making its context.
pub open spec fn run_fault(interface: Seq<char>, config: RunConfig) -> Option<RunError> {
    if !config.ramp.wf() {
        Some(
            RunError::Config(
                ConfigError::InvalidRamp { step: config.ramp.step, max: config.ramp.max },
            ),
        )
    } else {
        match creation_fault(interface, config.device_capacity) {
            Some(fault) => Some(RunError::Config(fault)),
            None => None,
        }
    }
}

/// A run.
pub struct Run {
    pub phase: RunPhase,
    pub context: MasterContext,
    pub plan: Vec<ParameterWrite>,
    pub issued: usize,
    pub bring_up: BringUp,
    pub controller: DriveController,
    pub monitor: ExchangeMonitor,
    pub failure: Option<RunError>,
}

impl View for Run {
    type V = RunModel;

    open spec fn view(&self) -> RunModel {
        RunModel {
            phase: self.phase,
            context: self.context@,
            plan: self.plan@,
            issued: self.issued as nat,
            bring_up: self.bring_up,
            controller: self.controller,
            monitor: self.monitor,
            failure: self.failure,
        }
    }
}

impl Run {
    /// The invariant of a run.
    pub open spec fn wf(&self) -> bool {
        self@.wf()
    }

    /// Makes a run on the interface `interface`. Nothing is asked of the
    /// network yet.
    pub fn new(interface: &str, config: RunConfig) -> (r: Result<Run, RunError>)
        ensures
            r is Ok <==> run_fault(interface@, config) is None,
            r matches Err(fault) ==> run_fault(interface@, config) == Some(fault),
            r matches Ok(run) ==> {
                &&& run.wf()
                &&& run@.phase == RunPhase::Idle
                &&& run@.context.interface == interface@
                &&& run@.context.capacity() == config.device_capacity
                &&& run@.context.count == 0
                &&& !run@.context.mapped
                &&& run@.plan == spec_drive_setup_plan()
                &&& run@.issued == 0
                &&& run@.bring_up == BringUp::spec_new(config.bring_up)
                &&& run@.controller == DriveController::spec_new(config.ramp, config.max_wait)
                &&& run@.monitor == ExchangeMonitor::spec_new(0, config.tolerated_short_ticks)
                &&& run@.failure is None
            },
    {
        if !(config.ramp.step >= 0 && config.ramp.max >= 0) {
            return Err(
                RunError::Config(
                    ConfigError::InvalidRamp { step: config.ramp.step, max: config.ramp.max },
                ),
            );
        }
        let context = match MasterContext::create(interface, config.device_capacity) {
            Ok(context) => context,
            Err(fault) => {
                return Err(RunError::Config(fault));
            },
        };
        Ok(
            Run {
                phase: RunPhase::Idle,
                context,
                plan: drive_setup_plan(),
                issued: 0,
                bring_up: BringUp::new(config.bring_up),
                controller: DriveController::new(config.ramp, config.max_wait),
                monitor: ExchangeMonitor::new(0, config.tolerated_short_ticks),
                failure: None,
            },
        )
    }

    /// The last word of a run that has ended: success, or the error it ended
    /// with.
    pub fn verdict(&self) -> (action: RunAction)
        ensures
            action == self@.verdict(),
    {
        match self.failure {
            None => RunAction::Succeed,
            Some(error) => RunAction::Fail(error),
        }
    }

    /// Whether the run has ended.
    pub fn is_finished(&self) -> (r: bool)
        ensures
            r == (self@.phase is Finished),
    {
        match self.phase {
            RunPhase::Finished => true,
            _ => false,
        }
    }

    fn fail(&mut self, error: RunError) -> (action: RunAction)
        requires
            old(self).wf(),
        ensures
            final(self).wf(),
            (final(self)@, action) == old(self)@.fail(error),
    {
        self.phase = RunPhase::Finished;
        self.failure = Some(error);
        RunAction::Fail(error)
    }

    fn relay(&mut self, action: BusAction) -> (r: RunAction)
        requires
            old(self).wf(),
            !(old(self).phase is Cyclic),
        ensures
            final(self).wf(),
            (final(self)@, r) == old(self)@.relay((old(self).bring_up, action)),
    {
        match action {
            BusAction::Ready => {
                if self.context.is_mapped() && self.context.device_count() >= DRIVE_ADDRESS
                    && self.bring_up_is_operational() {
                    let devices: u16 = self.context.device_count() as u16;
                    self.monitor = ExchangeMonitor::new(
                        expected_count(devices, devices),
                        self.monitor.tolerated,
                    );
                    self.phase = RunPhase::Cyclic;
                    RunAction::Cycle
                } else {
                    self.fail(RunError::Config(ConfigError::OutOfTurn))
                }
            },
            BusAction::Abort(error) => self.fail(error),
            _ => RunAction::Bus(action),
        }
    }

    fn bring_up_is_operational(&self) -> (r: bool)
        ensures
            r == (self.bring_up.phase is Operational),
    {
        match self.bring_up.phase {
            BringUpPhase::Operational => true,
            _ => false,
        }
    }

    fn setup_step(&mut self, accepted: bool) -> (action: RunAction)
        requires
            old(self).wf(),
            old(self).phase is Setup,
        ensures
            final(self).wf(),
            (final(self)@, action) == old(self)@.setup_step(accepted),
    {
        match next_write(self.plan.as_slice(), self.issued, accepted) {
            SetupAction::Write(write) => {
                assert(self.issued < self.plan.len());
                self.issued = self.issued + 1;
                RunAction::WriteParameter {
                    device: DRIVE_ADDRESS,
                    write,
                    timeout_us: PARAMETER_TIMEOUT_US,
                }
            },
            SetupAction::Finished => {
                self.phase = RunPhase::BringUp;
                let action = self.bring_up.step(BusEvent::Start);
                self.relay(action)
            },
            SetupAction::Abort(error) => self.fail(RunError::Config(error)),
        }
    }

    /// Starts the run: the network is to be probed.
    pub fn start(&mut self) -> (action: RunAction)
        requires
            old(self).wf(),
        ensures
            final(self).wf(),
            (final(self)@, action) == old(self)@.after_start(),
    {
        match self.phase {
            RunPhase::Finished => self.verdict(),
            RunPhase::Idle => {
                self.phase = RunPhase::Discovery;
                RunAction::Discover
            },
            _ => self.fail(RunError::Config(ConfigError::OutOfTurn)),
        }
    }

    /// Takes the devices that the probe found, in the order found.
    pub fn on_discovered(&mut self, found: &[DeviceIdentity]) -> (action: RunAction)
        requires
            old(self).wf(),
        ensures
            final(self).wf(),
            (final(self)@, action) == old(self)@.after_discovered(found@),
    {
        match self.phase {
            RunPhase::Finished => {
                return self.verdict();
            },
            RunPhase::Discovery => {},
            _ => {
                return self.fail(RunError::Config(ConfigError::OutOfTurn));
            },
        }
        match self.context.discover(found) {
            Err(error) => {
                return self.fail(RunError::Config(error));
            },
            Ok(_) => {},
        }
        if found.len() == 0 {
            return self.fail(RunError::Config(ConfigError::NoDevices));
        }
        match check_identity(found[0]) {
            Err(error) => {
                return self.fail(RunError::Config(error));
            },
            Ok(_) => {},
        }
        let _registered = self.context.register_pre_operational_hook(DRIVE_ADDRESS);
        let _due: bool = self.context.take_hook(DRIVE_ADDRESS);
        self.phase = RunPhase::Setup;
        self.issued = 0;
        self.setup_step(true)
    }

    /// Takes the drive's answer to the parameter write that was asked for.
    pub fn on_parameter_written(&mut self, accepted: bool) -> (action: RunAction)
        requires
            old(self).wf(),
        ensures
            final(self).wf(),
            (final(self)@, action) == old(self)@.after_parameter_written(accepted),
    {
        match self.phase {
            RunPhase::Finished => self.verdict(),
            RunPhase::Setup => self.setup_step(accepted),
            _ => self.fail(RunError::Config(ConfigError::OutOfTurn)),
        }
    }

    /// Takes the transport's report on the mapping of the process image:
    /// whether it went through, and how wide the regions are that it mapped,
    /// device by device.
    pub fn on_mapped(&mut self, widths: &[RegionWidths], accepted: bool) -> (action: RunAction)
        requires
            old(self).wf(),
        ensures
            final(self).wf(),
            (final(self)@, action) == old(self)@.after_mapped(widths@, accepted),
    {
        match self.phase {
            RunPhase::Finished => {
                return self.verdict();
            },
            RunPhase::BringUp => {},
            _ => {
                return self.fail(RunError::Config(ConfigError::OutOfTurn));
            },
        }
        match self.bring_up.phase {
            BringUpPhase::Mapping => {},
            _ => {
                return self.fail(RunError::Config(ConfigError::OutOfTurn));
            },
        }
        if !accepted {
            let action = self.bring_up.step(BusEvent::Refused);
            return self.relay(action);
        }
        match self.context.finalize_mapping(widths) {
            Err(error) => self.fail(RunError::Config(error)),
            Ok(_) => {
                let action = self.bring_up.step(BusEvent::Completed);
                self.relay(action)
            },
        }
    }

    /// Takes the transport's report on an action of the bus bring-up other
    /// than the mapping.
    pub fn on_bus_event(&mut self, event: BusEvent) -> (action: RunAction)
        requires
            old(self).wf(),
        ensures
            final(self).wf(),
            (final(self)@, action) == old(self)@.after_bus_event(event),
    {
        match self.phase {
            RunPhase::Finished => {
                return self.verdict();
            },
            RunPhase::BringUp => {},
            _ => {
                return self.fail(RunError::Config(ConfigError::OutOfTurn));
            },
        }
        match self.bring_up.phase {
            BringUpPhase::Mapping => self.fail(RunError::Config(ConfigError::OutOfTurn)),
            _ => {
                let action = self.bring_up.step(event);
                self.relay(action)
            },
        }
    }

    /// Takes what a tick of the cyclic exchange brought: its liveness count,
    /// the bytes received for the inputs segment, and whether a stop was
    /// asked for since the last tick.
    pub fn on_cycle(&mut self, liveness: i32, received: &[u8], stop_requested: bool) -> (action:
        RunAction)
        requires
            old(self).wf(),
        ensures
            final(self).wf(),
            (final(self)@, action) == old(self)@.after_cycle(liveness, received@, stop_requested),
    {
        match self.phase {
            RunPhase::Finished => {
                return self.verdict();
            },
            RunPhase::Cyclic => {},
            _ => {
                return self.fail(RunError::Config(ConfigError::OutOfTurn));
            },
        }
        let report = react(
            &mut self.context,
            &mut self.controller,
            &mut self.monitor,
            DRIVE_ADDRESS,
            liveness,
            received,
        );
        match report {
            Err(error) => {
                self.failure = Some(error);
                self.phase = RunPhase::ShuttingDown;
                RunAction::Shutdown
            },
            Ok(_) => {
                if stop_requested {
                    self.phase = RunPhase::ShuttingDown;
                    RunAction::Shutdown
                } else {
                    RunAction::Cycle
                }
            },
        }
    }

    /// Takes the report on the return to `Init`. The run ends as it would
    /// have ended, whether `Init` was reached or not.
    pub fn on_shutdown(&mut self, init_reached: bool) -> (action: RunAction)
        requires
            old(self).wf(),
        ensures
            final(self).wf(),
            (final(self)@, action) == old(self)@.after_shutdown(init_reached),
    {
        match self.phase {
            RunPhase::Finished => self.verdict(),
            RunPhase::ShuttingDown => {
                self.phase = RunPhase::Finished;
                self.verdict()
            },
            _ => self.fail(RunError::Config(ConfigError::OutOfTurn)),
        }
    }
}

/// What a run can be told.
pub enum RunInput {
    /// The run is to begin.
    Start,
    /// The probe found these devices.
    Discovered(Seq<DeviceIdentity>),
    /// The drive accepted the parameter write, or refused it.
    ParameterWritten(bool),
    /// The transport mapped regions of these widths, or failed to.
    Mapped(Seq<RegionWidths>, bool),
    /// The transport reports on an action of the bus bring-up.
    Bus(BusEvent),
    /// A tick brought this liveness count and these bytes, and a stop was
    /// asked for or not.
    Cycle(i32, Seq<u8>, bool),
    /// `Init` was reached on shutdown, or not.
    Shutdown(bool),
}

impl RunInput {
    /// Whether the input reports that a poll observed `Op`.
    pub open spec fn observes_op(self) -> bool {
        self == RunInput::Bus(BusEvent::Observed(BusState::Op))
    }

    /// Whether the input asks the run to stop.
    pub open spec fn asks_to_stop(self) -> bool {
        self matches RunInput::Cycle(_, _, stop_requested) && stop_requested
    }
}

impl RunModel {
    /// The run after it was told `input`, and the action it asks for next.
    pub open spec fn after(self, input: RunInput) -> (RunModel, RunAction) {
        match input {
            RunInput::Start => self.after_start(),
            RunInput::Discovered(found) => self.after_discovered(found),
            RunInput::ParameterWritten(accepted) => self.after_parameter_written(accepted),
            RunInput::Mapped(widths, accepted) => self.after_mapped(widths, accepted),
            RunInput::Bus(event) => self.after_bus_event(event),
            RunInput::Cycle(liveness, received, stop_requested) => self.after_cycle(
                liveness,
                received,
                stop_requested,
            ),
            RunInput::Shutdown(init_reached) => self.after_shutdown(init_reached),
        }
    }

    /// The run after it was told each of `inputs` in turn.
    pub open spec fn after_all(self, inputs: Seq<RunInput>) -> RunModel
        decreases inputs.len(),
    {
        if inputs.len() == 0 {
            self
        } else {
            self.after(inputs[0]).0.after_all(inputs.skip(1))
        }
    }

    /// Whether the run is short of the cyclic exchange: no tick is awaited,
    /// and the bus was not seen in `Op`.
    pub open spec fn before_op(self) -> bool {
        !(self.phase is Cyclic) && !(self.bring_up.phase is Operational)
    }

    /// Whether the run can only end in failure: it is not on its way out, or
    /// it carries an error.
    pub open spec fn cannot_succeed_yet(self) -> bool {
        self.phase is ShuttingDown || self.phase is Finished ==> self.failure is Some
    }
}

/// Whether `Init` is reached on shutdown does not change how a run ends.
pub proof fn lemma_shutdown_ignores_init(run: RunModel)
    ensures
        run.after_shutdown(true) == run.after_shutdown(false),
        run.phase is ShuttingDown ==> run.after_shutdown(false).1 == run.verdict(),
{
}

/// A run that has ended stays ended and repeats its last word, whatever it is
/// told.
pub proof fn lemma_finished_run_stays(run: RunModel, input: RunInput)
    requires
        run.phase is Finished,
    ensures
        run.after(input) == (run, run.verdict()),
{
}

/// No tick of the cyclic exchange is asked for before the bus was observed
/// in `Op`: told anything but that observation, a run that is short of the
/// cyclic exchange stays short of it, and the action it asks for is not a
/// tick.
pub proof fn lemma_no_cycle_without_op(run: RunModel, input: RunInput)
    requires
        run.before_op(),
        !input.observes_op(),
    ensures
        run.after(input).0.before_op(),
        !(run.after(input).1 is Cycle),
{
}

/// A bus that is never observed in `Op` never lets the setpoints stream:
/// whatever else a run is told, and for however long, no tick is awaited at
/// the end.
pub proof fn lemma_no_streaming_without_op(run: RunModel, inputs: Seq<RunInput>)
    requires
        run.before_op(),
        forall|i: int| 0 <= i < inputs.len() ==> !(#[trigger] inputs[i]).observes_op(),
    ensures
        run.after_all(inputs).before_op(),
    decreases inputs.len(),
{
    if inputs.len() > 0 {
        let rest = inputs.skip(1);
        assert(!inputs[0].observes_op());
        lemma_no_cycle_without_op(run, inputs[0]);
        assert forall|i: int| 0 <= i < rest.len() implies !(#[trigger] rest[i]).observes_op() by {
            assert(rest[i] == inputs[i + 1]);
        }
        lemma_no_streaming_without_op(run.after(inputs[0]).0, rest);
    }
}

/// A run ends in success only after it was asked to stop: as long as no tick
/// reports that a stop was asked for, a run that can only end in failure
/// stays so, whatever it is told.
pub proof fn lemma_success_needs_stop(run: RunModel, inputs: Seq<RunInput>)
    requires
        run.cannot_succeed_yet(),
        forall|i: int| 0 <= i < inputs.len() ==> !(#[trigger] inputs[i]).asks_to_stop(),
    ensures
        run.after_all(inputs).cannot_succeed_yet(),
        run.after_all(inputs).phase is Finished ==> run.after_all(inputs).verdict() is Fail,
    decreases inputs.len(),
{
    if inputs.len() > 0 {
        let rest = inputs.skip(1);
        assert(!inputs[0].asks_to_stop());
        assert(run.after(inputs[0]).0.cannot_succeed_yet());
        assert forall|i: int| 0 <= i < rest.len() implies !(#[trigger] rest[i]).asks_to_stop() by {
            assert(rest[i] == inputs[i + 1]);
        }
        lemma_success_needs_stop(run.after(inputs[0]).0, rest);
    }
}

} // verus!
