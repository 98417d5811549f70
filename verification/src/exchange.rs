//! What a tick of the cyclic exchange is worth.
//!
//! Each tick sends the outputs segment, receives the inputs segment and
//! reports a liveness count: the number of acknowledgments that came back.
//! The inputs of a tick are trusted only where that count reaches the count
//! expected. The exchange itself never retries; this module decides, tick by
//! tick, whether a run of short ticks has lasted too long.

use vstd::prelude::*;

use crate::error::ExchangeTimeout;

verus! {

/// Longest the exchange waits for the inputs of one tick, in microseconds.
pub const EXCHANGE_TIMEOUT_US: i32 = 2000;

/// Period of the cyclic exchange, in microseconds.
pub const CYCLE_PERIOD_US: u64 = 5000;

/// The liveness count that a tick must reach: each device with outputs
/// acknowledges twice, each device with inputs once.
pub open spec fn spec_expected_count(outputs_count: u16, inputs_count: u16) -> int {
    2 * outputs_count + inputs_count
}

/// The liveness count that a tick must reach.
pub fn expected_count(outputs_count: u16, inputs_count: u16) -> (r: u32)
    ensures
        r == spec_expected_count(outputs_count, inputs_count),
{
    2 * (outputs_count as u32) + inputs_count as u32
}

/// The liveness count behind the 16 bits that the transport hands over: a
/// pattern with the top bit set stands for a negative number, which reports
/// that no frame came back.
pub open spec fn spec_liveness_from_wire(raw: u16) -> i32 {
    if raw < 0x8000 {
        raw as i32
    } else {
        (raw - 0x1_0000) as i32
    }
}

/// Reads the liveness count from its 16 bits on the wire.
pub fn liveness_from_wire(raw: u16) -> (r: i32)
    ensures
        r == spec_liveness_from_wire(raw),
        -0x8000 <= r < 0x8000,
{
    if raw < 0x8000 {
        raw as i32
    } else {
        raw as i32 - 0x1_0000
    }
}

/// Whether the inputs of a tick can be trusted.
#[derive(Clone, Copy, Debug, PartialEq, Eq, Structural)]
pub enum TickOutcome {
    /// The liveness count reached the expected count.
    Trusted,
    /// The liveness count fell short: the inputs may be stale.
    Short,
}

/// What a liveness count is worth against the count expected.
pub open spec fn spec_assess(count: i32, expected: u32) -> TickOutcome {
    if count >= expected {
        TickOutcome::Trusted
    } else {
        TickOutcome::Short
    }
}

/// Judges one tick by its liveness count.
pub fn assess(count: i32, expected: u32) -> (r: TickOutcome)
    ensures
        r == spec_assess(count, expected),
{
    if count >= 0 && count as u32 >= expected {
        TickOutcome::Trusted
    } else {
        TickOutcome::Short
    }
}

/// Watches the liveness counts of successive ticks.
///
/// `tolerated` short ticks in a row are reported and borne; one more is fatal.
#[derive(Clone, Copy, Debug, PartialEq, Eq, Structural)]
pub struct ExchangeMonitor {
    /// Liveness count that each tick must reach.
    pub expected: u32,
    /// Number of short ticks in a row that are borne.
    pub tolerated: u32,
    /// Number of short ticks in a row so far.
    pub short_run: u32,
}

impl ExchangeMonitor {
    /// The monitor after a tick with liveness count `count`, and what the
    /// tick is worth.
    ///
    /// - A count that reaches the expected count ends the run of short ticks.
    /// - A short count within the tolerance lengthens the run by one.
    /// - A short count after `tolerated` short ticks in a row is fatal, and
    ///   the monitor stays as it is.
    pub open spec fn spec_record(self, count: i32) -> (
        ExchangeMonitor,
        Result<TickOutcome, ExchangeTimeout>,
    ) {
        if spec_assess(count, self.expected) == TickOutcome::Trusted {
            (ExchangeMonitor { short_run: 0, ..self }, Ok(TickOutcome::Trusted))
        } else if self.short_run >= self.tolerated {
            (
                self,
                Err(
                    ExchangeTimeout {
                        count,
                        expected: self.expected,
                        consecutive: if self.short_run < u32::MAX {
                            (self.short_run + 1) as u32
                        } else {
                            u32::MAX
                        },
                    },
                ),
            )
        } else {
            (
                ExchangeMonitor { short_run: (self.short_run + 1) as u32, ..self },
                Ok(TickOutcome::Short),
            )
        }
    }

    /// The monitor after a run of ticks, one for each liveness count, which
    /// ends at the first fatal tick, and what the last tick was worth.
    pub open spec fn spec_record_all(self, counts: Seq<i32>) -> (
        ExchangeMonitor,
        Result<TickOutcome, ExchangeTimeout>,
    )
        decreases counts.len(),
    {
        if counts.len() == 0 {
            (self, Ok(TickOutcome::Trusted))
        } else {
            let (after, outcome) = self.spec_record(counts[0]);
            if outcome is Err || counts.len() == 1 {
                (after, outcome)
            } else {
                after.spec_record_all(counts.skip(1))
            }
        }
    }

    /// A monitor that has seen no tick yet.
    pub open spec fn spec_new(expected: u32, tolerated: u32) -> ExchangeMonitor {
        ExchangeMonitor { expected, tolerated, short_run: 0 }
    }

    /// A monitor that has seen no tick yet.
    pub fn new(expected: u32, tolerated: u32) -> (r: ExchangeMonitor)
        ensures
            r == ExchangeMonitor::spec_new(expected, tolerated),
    {
        ExchangeMonitor { expected, tolerated, short_run: 0 }
    }

    /// Takes the liveness count of one tick and says what the tick is worth,
    /// or that short ticks have gone on for too long.
    pub fn record(&mut self, count: i32) -> (r: Result<TickOutcome, ExchangeTimeout>)
        ensures
            (*final(self), r) == old(self).spec_record(count),
            r is Err ==> *final(self) == *old(self),
            final(self).expected == old(self).expected,
            final(self).tolerated == old(self).tolerated,
    {
        match assess(count, self.expected) {
            TickOutcome::Trusted => {
                self.short_run = 0;
                Ok(TickOutcome::Trusted)
            },
            TickOutcome::Short => {
                if self.short_run >= self.tolerated {
                    let consecutive: u32 = if self.short_run < u32::MAX {
                        self.short_run + 1
                    } else {
                        u32::MAX
                    };
                    Err(ExchangeTimeout { count, expected: self.expected, consecutive })
                } else {
                    self.short_run = self.short_run + 1;
                    Ok(TickOutcome::Short)
                }
            },
        }
    }
}

/// Short ticks cannot go on without end. A run of ticks that all fall short is
/// borne for as long as the run stays within the tolerance, and is fatal with
/// the tick that passes it.
pub proof fn lemma_short_run_is_bounded(monitor: ExchangeMonitor, counts: Seq<i32>)
    requires
        monitor.short_run <= monitor.tolerated,
        counts.len() > 0,
        forall|i: int|
            0 <= i < counts.len() ==> spec_assess(#[trigger] counts[i], monitor.expected)
                == TickOutcome::Short,
    ensures
        monitor.short_run + counts.len() <= monitor.tolerated ==> {
            &&& monitor.spec_record_all(counts).1 == Ok::<TickOutcome, ExchangeTimeout>(
                TickOutcome::Short,
            )
            &&& monitor.spec_record_all(counts).0.short_run == monitor.short_run + counts.len()
        },
        monitor.short_run + counts.len() > monitor.tolerated ==> monitor.spec_record_all(
            counts,
        ).1 is Err,
    decreases counts.len(),
{
    let (after, outcome) = monitor.spec_record(counts[0]);
    if outcome is Ok && counts.len() > 1 {
        let rest = counts.skip(1);
        assert forall|i: int| 0 <= i < rest.len() implies spec_assess(
            #[trigger] rest[i],
            after.expected,
        ) == TickOutcome::Short by {
            assert(rest[i] == counts[i + 1]);
        }
        lemma_short_run_is_bounded(after, rest);
    }
}

/// One trusted tick forgives every short tick before it.
pub proof fn lemma_trusted_tick_resets(monitor: ExchangeMonitor, count: i32)
    requires
        spec_assess(count, monitor.expected) == TickOutcome::Trusted,
    ensures
        monitor.spec_record(count).0.short_run == 0,
        monitor.spec_record(count).1 == Ok::<TickOutcome, ExchangeTimeout>(TickOutcome::Trusted),
{
}

} // verus!
