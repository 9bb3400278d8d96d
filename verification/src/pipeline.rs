//! The cadence of the processing loop: which periodic work a received quote
//! or an emitted signal calls for, by running counts.

use vstd::prelude::*;

use crate::models::Symbol;

verus! {

/// What the loop does, besides processing it, for one received quote.
#[derive(Clone, Copy, Debug, PartialEq, Eq, Structural)]
pub struct TickPlan {
    /// Log the progress counts and the store's memory use (every 5000th quote).
    pub log_progress: bool,
    /// Warn when the quote cannot be converted to USD (the first 9 quotes only).
    pub warn_unconverted: bool,
    /// Log a snapshot of the quote and the rates (every 3000th quote).
    pub log_snapshot: bool,
    /// Record the current exchange rate (every 100th quote, when it is a BTC quote).
    pub record_rate: bool,
    /// Prepare a latency report (every 500th quote).
    pub report_latency: bool,
}

/// Quotes received and signals emitted so far.
#[derive(Clone, Copy, Debug)]
pub struct LoopCounters {
    pub ticks: u64,
    pub signals: u64,
}

/// The plan for the `n`-th quote (counting from one) of the given symbol.
pub open spec fn tick_plan_spec(n: int, symbol: Symbol) -> TickPlan {
    TickPlan {
        log_progress: n % 5000 == 0,
        warn_unconverted: n < 10,
        log_snapshot: n % 3000 == 0,
        record_rate: symbol == Symbol::BTC && n % 100 == 0,
        report_latency: n % 500 == 0,
    }
}

impl LoopCounters {
    /// Nothing counted yet.
    pub fn new() -> (r: LoopCounters)
        ensures
            r.ticks == 0,
            r.signals == 0,
    {
        LoopCounters { ticks: 0, signals: 0 }
    }

    /// Counts a received quote and plans the periodic work it calls for.
    pub fn on_tick(&mut self, symbol: Symbol) -> (r: TickPlan)
        requires
            old(self).ticks < u64::MAX,
        ensures
            final(self).ticks == old(self).ticks + 1,
            final(self).signals == old(self).signals,
            r == tick_plan_spec(final(self).ticks as int, symbol),
    {
        self.ticks = self.ticks + 1;
        let n = self.ticks;
        TickPlan {
            log_progress: n % 5000 == 0,
            warn_unconverted: n < 10,
            log_snapshot: n % 3000 == 0,
            record_rate: symbol == Symbol::BTC && n % 100 == 0,
            report_latency: n % 500 == 0,
        }
    }

    /// Counts an emitted signal; `true` where it is logged (the first and
    /// every 500th after it).
    pub fn on_signal(&mut self) -> (r: bool)
        requires
            old(self).signals < u64::MAX,
        ensures
            final(self).signals == old(self).signals + 1,
            final(self).ticks == old(self).ticks,
            r == (final(self).signals % 500 == 1),
    {
        self.signals = self.signals + 1;
        self.signals % 500 == 1
    }
}

} // verus!
