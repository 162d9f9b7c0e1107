//! How long an analysis pass may run.
//!
//! A requested deadline below the year 2000 in Unix milliseconds is a
//! duration; a larger one is an absolute time, turned into the duration left
//! from now (none when it has passed). A duration outside three seconds to one
//! hour falls back to ten minutes, as does a missing request.
use vstd::prelude::*;

verus! {

/// The duration used when none, or an unreasonable one, is requested: ten minutes.
pub const DEFAULT_DURATION_MS: u64 = 600_000;

/// Requests at or above this many Unix milliseconds (the year 2000) are absolute times.
pub const YEAR_2000_MS: u64 = 946_684_800_000;

/// The shortest accepted duration: three seconds.
pub const MIN_DURATION_MS: u64 = 3_000;

/// The longest accepted duration: one hour.
pub const MAX_DURATION_MS: u64 = 3_600_000;

/// How a requested duration compared with the accepted range.
#[derive(Clone, Copy, Debug, PartialEq, Eq, Structural)]
pub enum DurationCheck {
    Accepted,
    TooShort,
    TooLong,
}

/// The duration an analysis pass may run.
#[derive(Clone, Copy, Debug, PartialEq, Eq, Structural)]
pub struct DeadlinePlan {
    /// The duration that was asked for, in milliseconds from now.
    pub requested_ms: u64,
    /// How it compared with the accepted range.
    pub check: DurationCheck,
    /// The duration that applies, in milliseconds from now.
    pub duration_ms: u64,
}

/// The duration asked for by `target_ms`, given the time `now_ms`: none when
/// an absolute time has passed or the clock could not be read.
pub open spec fn requested_duration(target_ms: u64, now_ms: Option<u64>) -> Option<u64> {
    if target_ms < YEAR_2000_MS {
        Some(target_ms)
    } else {
        match now_ms {
            None => None,
            Some(now) => if target_ms <= now {
                None
            } else {
                Some((target_ms - now) as u64)
            },
        }
    }
}

/// How a requested duration compares with the accepted range.
pub open spec fn duration_check(requested: u64) -> DurationCheck {
    if requested < MIN_DURATION_MS {
        DurationCheck::TooShort
    } else if requested > MAX_DURATION_MS {
        DurationCheck::TooLong
    } else {
        DurationCheck::Accepted
    }
}

/// The duration that applies to a request.
pub open spec fn applied_duration(requested: u64) -> u64 {
    if duration_check(requested) == DurationCheck::Accepted {
        requested
    } else {
        DEFAULT_DURATION_MS
    }
}

/// The duration an analysis pass may run, for the request `deadline_ms` at
/// Unix time `now_ms` (`None` when the clock could not be read); `None` when
/// the requested absolute time has already passed.
pub fn plan_deadline(deadline_ms: Option<u64>, now_ms: Option<u64>) -> (r: Option<DeadlinePlan>)
    ensures
        ({
            let target = match deadline_ms {
                Some(t) => t,
                None => DEFAULT_DURATION_MS,
            };
            match requested_duration(target, now_ms) {
                None => r is None,
                Some(req) => r == Some(
                    DeadlinePlan {
                        requested_ms: req,
                        check: duration_check(req),
                        duration_ms: applied_duration(req),
                    },
                ),
            }
        }),
{
    let target = match deadline_ms {
        Some(t) => t,
        None => DEFAULT_DURATION_MS,
    };
    let requested = if target < YEAR_2000_MS {
        target
    } else {
        match now_ms {
            None => {
                return None;
            },
            Some(now) => {
                if target <= now {
                    return None;
                }
                target - now
            },
        }
    };
    let check = if requested < MIN_DURATION_MS {
        DurationCheck::TooShort
    } else if requested > MAX_DURATION_MS {
        DurationCheck::TooLong
    } else {
        DurationCheck::Accepted
    };
    let duration_ms = match check {
        DurationCheck::Accepted => requested,
        _ => DEFAULT_DURATION_MS,
    };
    Some(DeadlinePlan { requested_ms: requested, check, duration_ms })
}

/// Whatever is requested, an analysis pass that gets a deadline runs between
/// three seconds and one hour, and a missing request gives ten minutes.
pub proof fn lemma_applied_duration_bounded(requested: u64)
    ensures
        MIN_DURATION_MS <= applied_duration(requested) <= MAX_DURATION_MS,
        requested_duration(DEFAULT_DURATION_MS, None) == Some(DEFAULT_DURATION_MS),
        applied_duration(DEFAULT_DURATION_MS) == DEFAULT_DURATION_MS,
{
}

} // verus!
