//! When a transaction pool should revalidate its ready transactions: after a
//! period of time or a number of blocks since the last revalidation was
//! scheduled. Time is a reading of a monotonic clock, in any fixed unit.
use vstd::prelude::*;

verus! {

/// Where revalidation stands.
#[derive(Clone, Copy, Debug, PartialEq, Eq, Structural)]
pub enum TxPoolRevalidationStatus {
    /// No revalidation is scheduled.
    NotScheduled,
    /// Revalidation is due at the given time, or at the given block, whichever
    /// comes first.
    Scheduled(Option<u64>, Option<u64>),
    /// Revalidation is in progress.
    InProgress,
}

/// `base + period`, held at `u64::MAX`.
pub open spec fn deadline(base: u64, period: Option<u64>) -> Option<u64> {
    match period {
        Some(p) => Some(
            if base + p > u64::MAX {
                u64::MAX
            } else {
                (base + p) as u64
            },
        ),
        None => None,
    }
}

/// Whether a deadline has been reached at `now`.
pub open spec fn reached(at: Option<u64>, now: u64) -> bool {
    match at {
        Some(at) => now >= at,
        None => false,
    }
}

fn add_period(base: u64, period: Option<u64>) -> (r: Option<u64>)
    ensures
        r == deadline(base, period),
{
    match period {
        Some(p) => Some(base.saturating_add(p)),
        None => None,
    }
}

impl TxPoolRevalidationStatus {
    /// Marks the revalidation as done.
    pub fn clear(&mut self)
        ensures
            *final(self) == TxPoolRevalidationStatus::NotScheduled,
    {
        *self = TxPoolRevalidationStatus::NotScheduled;
    }

    /// Whether revalidation is due at block `block` and time `now`. The first
    /// call schedules it, `revalidate_time_period` after `now` and
    /// `revalidate_block_period` after `block`; once it is due the status
    /// moves to in progress.
    pub fn is_required(
        &mut self,
        block: u64,
        now: u64,
        revalidate_time_period: Option<u64>,
        revalidate_block_period: Option<u64>,
    ) -> (r: bool)
        ensures
            match *old(self) {
                TxPoolRevalidationStatus::NotScheduled => !r && *final(self)
                    == TxPoolRevalidationStatus::Scheduled(
                    deadline(now, revalidate_time_period),
                    deadline(block, revalidate_block_period),
                ),
                TxPoolRevalidationStatus::Scheduled(at_time, at_block) => {
                    &&& r == (reached(at_time, now) || reached(at_block, block))
                    &&& *final(self) == if r {
                        TxPoolRevalidationStatus::InProgress
                    } else {
                        *old(self)
                    }
                },
                TxPoolRevalidationStatus::InProgress => !r && *final(self)
                    == TxPoolRevalidationStatus::InProgress,
            },
    {
        match *self {
            TxPoolRevalidationStatus::NotScheduled => {
                *self = TxPoolRevalidationStatus::Scheduled(
                    add_period(now, revalidate_time_period),
                    add_period(block, revalidate_block_period),
                );
                false
            },
            TxPoolRevalidationStatus::Scheduled(at_time, at_block) => {
                let by_time = match at_time {
                    Some(at) => now >= at,
                    None => false,
                };
                let by_block = match at_block {
                    Some(at) => block >= at,
                    None => false,
                };
                let required = by_time || by_block;
                if required {
                    *self = TxPoolRevalidationStatus::InProgress;
                }
                required
            },
            TxPoolRevalidationStatus::InProgress => false,
        }
    }
}

} // verus!
