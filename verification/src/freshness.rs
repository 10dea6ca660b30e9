//! Freshness of a cached artifact: its age, measured from the time it was last
//! modified, is held against a window of whole seconds.

use vstd::prelude::*;

verus! {

/// A wall-clock reading: whole seconds since the Unix epoch, which may be
/// negative, and the nanoseconds that follow them.
#[derive(Clone, Copy, Debug, PartialEq, Eq, Structural)]
pub struct Timestamp {
    pub secs: i64,
    pub nanos: u32,
}

impl Timestamp {
    /// The reading in nanoseconds since the Unix epoch.
    pub open spec fn instant(self) -> int {
        self.secs * 1_000_000_000 + self.nanos
    }

    /// Whether the nanoseconds stay below a full second.
    pub open spec fn is_normal(self) -> bool {
        self.nanos < 1_000_000_000
    }

    /// The reading that lies `secs` seconds and `nanos` nanoseconds after
    /// the epoch. There is none where `nanos` makes up a full second or
    /// `secs` is out of range.
    pub fn after_epoch(secs: u64, nanos: u32) -> (at: Option<Timestamp>)
        ensures
            at.is_some() <==> nanos < 1_000_000_000 && secs <= i64::MAX,
            at.is_some() ==> at.unwrap().is_normal() && at.unwrap().instant() == secs
                * 1_000_000_000 + nanos,
    {
        if nanos < 1_000_000_000 && secs <= i64::MAX as u64 {
            Some(Timestamp { secs: secs as i64, nanos })
        } else {
            None
        }
    }

    /// The reading that lies `secs` seconds and `nanos` nanoseconds before
    /// the epoch. There is none where `nanos` makes up a full second or the
    /// reading is out of range.
    pub fn before_epoch(secs: u64, nanos: u32) -> (at: Option<Timestamp>)
        ensures
            at.is_some() <==> nanos < 1_000_000_000 && -(secs * 1_000_000_000 + nanos) >= i64::MIN
                * 1_000_000_000,
            at.is_some() ==> at.unwrap().is_normal() && at.unwrap().instant() == -(secs
                * 1_000_000_000 + nanos),
    {
        if nanos >= 1_000_000_000 {
            None
        } else if secs <= i64::MAX as u64 {
            let whole: i64 = -(secs as i64);
            if nanos == 0 {
                Some(Timestamp { secs: whole, nanos: 0 })
            } else {
                Some(Timestamp { secs: whole - 1, nanos: 1_000_000_000 - nanos })
            }
        } else if nanos == 0 && secs - 1 == i64::MAX as u64 {
            Some(Timestamp { secs: i64::MIN, nanos: 0 })
        } else {
            None
        }
    }

    /// How far `now` lies behind this reading, in nanoseconds; negative where
    /// this reading is ahead of `now`.
    pub open spec fn age_at(self, now: Timestamp) -> int {
        now.instant() - self.instant()
    }
}

/// The length of a window in nanoseconds.
pub open spec fn window_nanos(window_secs: u64) -> int {
    window_secs * 1_000_000_000
}

/// An artifact is fresh while its age is strictly below the window.
pub open spec fn fresh(modified: Timestamp, window_secs: u64, now: Timestamp) -> bool {
    modified.age_at(now) < window_nanos(window_secs)
}

/// What a freshness check answers: the time of modification of an artifact
/// that exists and is fresh, and nothing for one that is absent or stale.
pub open spec fn freshness(
    modified: Option<Timestamp>,
    window_secs: u64,
    now: Timestamp,
) -> Option<Timestamp> {
    match modified {
        Some(m) => if fresh(m, window_secs, now) {
            Some(m)
        } else {
            None
        },
        None => None,
    }
}

/// Tells whether an artifact modified at `modified` is fresh at `now`.
pub fn is_fresh(modified: Timestamp, window_secs: u64, now: Timestamp) -> (yes: bool)
    ensures
        yes == fresh(modified, window_secs, now),
        yes == (modified.instant() + window_nanos(window_secs) > now.instant()),
{
    let expiry: i128 = (modified.secs as i128 + window_secs as i128) * 1_000_000_000
        + modified.nanos as i128;
    let reading: i128 = (now.secs as i128) * 1_000_000_000 + now.nanos as i128;
    expiry > reading
}

/// Checks an artifact against the window. `modified` is the time at which the
/// artifact was last modified, or nothing where no regular file stands at its
/// path; `now` is the clock as read for this check.
pub fn check_freshness(modified: Option<Timestamp>, window_secs: u64, now: Timestamp) -> (found:
    Option<Timestamp>)
    ensures
        found == freshness(modified, window_secs, now),
        found.is_some() <==> modified.is_some() && modified.unwrap().age_at(now) < window_nanos(
            window_secs,
        ),
        found.is_some() ==> found == modified,
{
    match modified {
        Some(m) => if is_fresh(m, window_secs, now) {
            Some(m)
        } else {
            None
        },
        None => None,
    }
}

/// An artifact whose age equals the window is stale: the bound is strict.
pub proof fn lemma_stale_at_boundary(modified: Timestamp, window_secs: u64, now: Timestamp)
    requires
        modified.age_at(now) == window_nanos(window_secs),
    ensures
        !fresh(modified, window_secs, now),
        freshness(Some(modified), window_secs, now).is_none(),
{
}

/// Freshness is decided by age alone: two artifacts of the same age are fresh
/// under the same windows, whenever they were checked.
pub proof fn lemma_fresh_depends_on_age(
    first: Timestamp,
    first_now: Timestamp,
    second: Timestamp,
    second_now: Timestamp,
    window_secs: u64,
)
    requires
        first.age_at(first_now) == second.age_at(second_now),
    ensures
        fresh(first, window_secs, first_now) == fresh(second, window_secs, second_now),
{
}

/// What is fresh under one window is fresh under every wider one.
pub proof fn lemma_fresh_in_wider_window(
    modified: Timestamp,
    narrow_secs: u64,
    wide_secs: u64,
    now: Timestamp,
)
    requires
        narrow_secs <= wide_secs,
        fresh(modified, narrow_secs, now),
    ensures
        fresh(modified, wide_secs, now),
{
}

/// What is stale stays stale as the clock moves on.
pub proof fn lemma_stale_stays_stale(
    modified: Timestamp,
    window_secs: u64,
    now: Timestamp,
    later: Timestamp,
)
    requires
        now.instant() <= later.instant(),
        !fresh(modified, window_secs, now),
    ensures
        !fresh(modified, window_secs, later),
{
}

/// Under a window of zero no artifact is fresh, unless its time of
/// modification lies ahead of the clock.
pub proof fn lemma_zero_window_is_never_fresh(modified: Timestamp, now: Timestamp)
    requires
        modified.instant() <= now.instant(),
    ensures
        !fresh(modified, 0, now),
        freshness(Some(modified), 0, now).is_none(),
{
}

/// A reading is fixed by its instant, as long as its nanoseconds stay below
/// a full second.
pub proof fn lemma_normal_reading_is_unique(first: Timestamp, second: Timestamp)
    requires
        first.is_normal(),
        second.is_normal(),
        first.instant() == second.instant(),
    ensures
        first == second,
{
}

} // verus!
