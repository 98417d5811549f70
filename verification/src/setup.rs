//! The one-shot configuration of the drive: the parameters written to it once
//! it is found and before its process data is mapped.

use vstd::prelude::*;

use crate::error::ConfigError;

verus! {

/// Longest a parameter write may take, in microseconds.
pub const PARAMETER_TIMEOUT_US: i32 = 70_000;

/// Width of a parameter's value on the wire.
#[derive(Clone, Copy, Debug, PartialEq, Eq, Structural)]
pub enum ValueWidth {
    U8,
    U16,
    U32,
}

impl ValueWidth {
    /// Number of bytes of a value of this width.
    pub open spec fn spec_bytes(self) -> nat {
        match self {
            ValueWidth::U8 => 1,
            ValueWidth::U16 => 2,
            ValueWidth::U32 => 4,
        }
    }

    /// Number of bytes of a value of this width.
    pub fn bytes(self) -> (r: usize)
        ensures
            r == self.spec_bytes(),
    {
        match self {
            ValueWidth::U8 => 1,
            ValueWidth::U16 => 2,
            ValueWidth::U32 => 4,
        }
    }
}

/// One parameter to write: object `index`, entry `subindex`, and the value in
/// its width.
#[derive(Clone, Copy, Debug, PartialEq, Eq, Structural)]
pub struct ParameterWrite {
    pub index: u16,
    pub subindex: u8,
    pub value: u32,
    pub width: ValueWidth,
}

impl ParameterWrite {
    /// Whether the value fits its width.
    pub open spec fn wf(self) -> bool {
        match self.width {
            ValueWidth::U8 => self.value <= 0xFF,
            ValueWidth::U16 => self.value <= 0xFFFF,
            ValueWidth::U32 => true,
        }
    }

    /// A write of one byte.
    pub open spec fn spec_byte(index: u16, subindex: u8, value: u8) -> ParameterWrite {
        ParameterWrite { index, subindex, value: value as u32, width: ValueWidth::U8 }
    }

    /// A write of a 16-bit word.
    pub open spec fn spec_word(index: u16, subindex: u8, value: u16) -> ParameterWrite {
        ParameterWrite { index, subindex, value: value as u32, width: ValueWidth::U16 }
    }

    /// A write of a 32-bit word.
    pub open spec fn spec_double(index: u16, subindex: u8, value: u32) -> ParameterWrite {
        ParameterWrite { index, subindex, value, width: ValueWidth::U32 }
    }

    /// A write of one byte.
    pub fn byte(index: u16, subindex: u8, value: u8) -> (r: ParameterWrite)
        ensures
            r == ParameterWrite::spec_byte(index, subindex, value),
            r.wf(),
    {
        ParameterWrite { index, subindex, value: value as u32, width: ValueWidth::U8 }
    }

    /// A write of a 16-bit word.
    pub fn word(index: u16, subindex: u8, value: u16) -> (r: ParameterWrite)
        ensures
            r == ParameterWrite::spec_word(index, subindex, value),
            r.wf(),
    {
        ParameterWrite { index, subindex, value: value as u32, width: ValueWidth::U16 }
    }

    /// A write of a 32-bit word.
    pub fn double(index: u16, subindex: u8, value: u32) -> (r: ParameterWrite)
        ensures
            r == ParameterWrite::spec_double(index, subindex, value),
            r.wf(),
    {
        ParameterWrite { index, subindex, value, width: ValueWidth::U32 }
    }
}

/// The configuration of the drive, in the order in which it is written:
/// both process-data assignments are cleared; the outputs are assigned the
/// fixed mapping for synchronous velocity mode and the inputs the fixed
/// mapping with position and status, one entry each; the mode of operation is
/// set to cyclic synchronous velocity; the interpolation period is set to
/// 2 * 10^-3 s; and the bus parameter word is cleared.
pub open spec fn spec_drive_setup_plan() -> Seq<ParameterWrite> {
    seq![
        ParameterWrite::spec_byte(0x1C12, 0, 0x00),
        ParameterWrite::spec_byte(0x1C13, 0, 0x00),
        ParameterWrite::spec_word(0x1C12, 1, 0x1702),
        ParameterWrite::spec_byte(0x1C12, 0, 0x01),
        ParameterWrite::spec_word(0x1C13, 1, 0x1B01),
        ParameterWrite::spec_byte(0x1C13, 0, 0x01),
        ParameterWrite::spec_byte(0x6060, 0, 0x09),
        ParameterWrite::spec_byte(0x60C2, 1, 0x02),
        ParameterWrite::spec_byte(0x60C2, 2, 0xFD),
        ParameterWrite::spec_double(0x36E9, 0, 0x00),
    ]
}

/// The configuration of the drive, in the order in which it is written.
pub fn drive_setup_plan() -> (r: Vec<ParameterWrite>)
    ensures
        r@ == spec_drive_setup_plan(),
        forall|k: int| 0 <= k < r@.len() ==> (#[trigger] r@[k]).wf(),
{
    let mut plan: Vec<ParameterWrite> = Vec::new();
    plan.push(ParameterWrite::byte(0x1C12, 0, 0x00));
    plan.push(ParameterWrite::byte(0x1C13, 0, 0x00));
    plan.push(ParameterWrite::word(0x1C12, 1, 0x1702));
    plan.push(ParameterWrite::byte(0x1C12, 0, 0x01));
    plan.push(ParameterWrite::word(0x1C13, 1, 0x1B01));
    plan.push(ParameterWrite::byte(0x1C13, 0, 0x01));
    plan.push(ParameterWrite::byte(0x6060, 0, 0x09));
    plan.push(ParameterWrite::byte(0x60C2, 1, 0x02));
    plan.push(ParameterWrite::byte(0x60C2, 2, 0xFD));
    plan.push(ParameterWrite::double(0x36E9, 0, 0x00));
    assert(plan@ =~= spec_drive_setup_plan());
    plan
}

/// What to do next while a plan is written to a device.
#[derive(Clone, Copy, Debug, PartialEq, Eq, Structural)]
pub enum SetupAction {
    /// Write this parameter.
    Write(ParameterWrite),
    /// Every parameter was written.
    Finished,
    /// Stop: the configuration failed.
    Abort(ConfigError),
}

/// What to do after `issued` writes of `plan`, the last of which was accepted
/// or not as `accepted` says. The first refusal ends the configuration, with
/// the parameter that was refused; until then the writes follow the plan.
pub open spec fn spec_next_write(plan: Seq<ParameterWrite>, issued: nat, accepted: bool)
    -> SetupAction {
    if issued > plan.len() {
        SetupAction::Abort(ConfigError::OutOfTurn)
    } else if issued > 0 && !accepted {
        SetupAction::Abort(
            ConfigError::ParameterRefused {
                index: plan[issued - 1].index,
                subindex: plan[issued - 1].subindex,
            },
        )
    } else if issued < plan.len() {
        SetupAction::Write(plan[issued as int])
    } else {
        SetupAction::Finished
    }
}

/// Decides the next step of a device's configuration. `issued` counts the
/// writes made so far; `accepted` says whether the device took the last of
/// them, and means nothing before the first.
pub fn next_write(plan: &[ParameterWrite], issued: usize, accepted: bool) -> (r: SetupAction)
    ensures
        r == spec_next_write(plan@, issued as nat, accepted),
{
    if issued > plan.len() {
        SetupAction::Abort(ConfigError::OutOfTurn)
    } else if issued > 0 && !accepted {
        let refused: ParameterWrite = plan[issued - 1];
        SetupAction::Abort(
            ConfigError::ParameterRefused { index: refused.index, subindex: refused.subindex },
        )
    } else if issued < plan.len() {
        SetupAction::Write(plan[issued])
    } else {
        SetupAction::Finished
    }
}

/// Number of writes that are made of a plan when the device answers the
/// writes as `answers` says, one answer for each write in turn: all of them
/// where each is accepted, else those up to the first that is refused.
pub open spec fn writes_made(plan: Seq<ParameterWrite>, answers: Seq<bool>, issued: nat) -> nat
    decreases plan.len() - issued,
{
    if issued >= plan.len() || issued >= answers.len() {
        issued
    } else if !answers[issued as int] {
        issued + 1
    } else {
        writes_made(plan, answers, issued + 1)
    }
}

/// A configuration finishes if and only if the device accepts every write.
/// Taken up at a point up to which every write was accepted, it makes no more
/// writes than the plan has. Where every answer accepts, all of the plan is
/// written and the step after that is `Finished`. Else the last write made is
/// the first that is refused, and the step after that is `Abort`.
pub proof fn lemma_setup_ends(plan: Seq<ParameterWrite>, answers: Seq<bool>, issued: nat)
    requires
        answers.len() == plan.len(),
        issued <= plan.len(),
        forall|k: int| 0 <= k < issued ==> answers[k],
    ensures
        issued <= writes_made(plan, answers, issued) <= plan.len(),
        (forall|k: int| 0 <= k < plan.len() ==> answers[k]) ==> spec_next_write(
            plan,
            writes_made(plan, answers, issued),
            true,
        ) == SetupAction::Finished,
        !(forall|k: int| 0 <= k < plan.len() ==> answers[k]) ==> {
            let made = writes_made(plan, answers, issued);
            &&& made > 0
            &&& !answers[made - 1]
            &&& spec_next_write(plan, made, answers[made - 1]) is Abort
        },
    decreases plan.len() - issued,
{
    if issued < plan.len() && answers[issued as int] {
        assert forall|k: int| 0 <= k < issued + 1 implies answers[k] by {}
        lemma_setup_ends(plan, answers, issued + 1);
    }
}

} // verus!
