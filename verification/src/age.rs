//! The age filter: decides whether an entry's creation time makes it
//! old enough to be eligible for removal.

use vstd::prelude::*;

verus! {

/// Outcome of reading an entry's creation timestamp, in nanoseconds
/// since the clock's epoch. `Unreadable` stands for a platform or
/// permission failure: the timestamp could not be obtained.
#[derive(Clone, Copy, Debug, PartialEq, Eq, Structural)]
pub enum CreationTime {
    Known(u128),
    Unreadable,
}

/// Whether an entry created at `created` is, at clock reading `now`,
/// at least `cutoff` nanoseconds old.
///
/// An unreadable creation time is never old enough, and neither is one
/// that lies in the future of `now` (no elapsed time can be computed):
/// an entry whose age is unknown is conservatively left alone.
pub open spec fn spec_older_than(created: CreationTime, now: u128, cutoff: u128) -> bool {
    match created {
        CreationTime::Known(t) => t <= now && now - t >= cutoff,
        CreationTime::Unreadable => false,
    }
}

/// Age test for one entry: true iff the elapsed time since `created`
/// could be computed and is at least `duration` nanoseconds.
pub fn create_date_older_than_duration(created: &CreationTime, now: u128, duration: u128) -> (r:
    bool)
    ensures
        r == spec_older_than(*created, now, duration),
{
    match created {
        CreationTime::Known(t) => *t <= now && now - *t >= duration,
        CreationTime::Unreadable => false,
    }
}

/// Eligibility of one entry for removal: inherited from an ancestor
/// (`skip_check`), or granted because no cutoff was configured, or
/// decided by the age test against the cutoff.
pub open spec fn spec_eligible(
    skip_check: bool,
    cutoff: Option<u128>,
    created: CreationTime,
    now: u128,
) -> bool {
    skip_check || cutoff is None || spec_older_than(created, now, cutoff->0)
}

/// Decides whether one entry is a removal candidate.
pub fn is_eligible(skip_check: bool, cutoff: &Option<u128>, created: &CreationTime, now: u128) -> (r:
    bool)
    ensures
        r == spec_eligible(skip_check, *cutoff, *created, now),
{
    if skip_check {
        true
    } else {
        match cutoff {
            Option::None => true,
            Option::Some(c) => create_date_older_than_duration(created, now, *c),
        }
    }
}

} // verus!
