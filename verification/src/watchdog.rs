//! The watchdog of a handler: it counts how long the handler has been
//! running, for the host to warn about slow handlers.

use vstd::prelude::*;

verus! {

/// The seconds between two warnings, where the host has no wish of its own.
pub const DEFAULT_PERIOD: u64 = 10;

/// The watch over one handler.
#[derive(Clone, Copy, Debug)]
pub struct Watchdog {
    period: u64,
    time_spent: u64,
}

/// The sum of two spans, as far as the type can hold it.
pub open spec fn capped_sum(spent: u64, more: u64) -> u64 {
    if spent + more <= u64::MAX {
        (spent + more) as u64
    } else {
        u64::MAX
    }
}

impl Watchdog {
    /// The seconds between two warnings.
    pub closed spec fn span(self) -> u64 {
        self.period
    }

    /// The seconds that the handler has been running, as far as counted.
    pub closed spec fn spent(self) -> u64 {
        self.time_spent
    }

    /// A watch that warns every `period` seconds. Nothing is counted yet.
    pub fn new(period: u64) -> (watch: Watchdog)
        ensures
            watch.span() == period,
            watch.spent() == 0,
    {
        Watchdog { period, time_spent: 0 }
    }

    /// The seconds to wait for the handler before the next warning.
    pub fn period(&self) -> (period: u64)
        ensures
            period == self.span(),
    {
        self.period
    }

    /// One more period has passed and the handler still runs: the seconds
    /// that it has been running in all, to be named in the warning.
    pub fn tick(&mut self) -> (time_spent: u64)
        ensures
            time_spent == capped_sum(old(self).spent(), old(self).span()),
            final(self).spent() == time_spent,
            final(self).span() == old(self).span(),
    {
        self.time_spent = self.time_spent.saturating_add(self.period);
        self.time_spent
    }
}

} // verus!
