//! How old stored data is, and whether that is still young enough.

use vstd::prelude::*;
use crate::records::MetadataStored;
use crate::time::{AheadOfClock, Duration, Timestamp, NANOS_PER_SEC};

verus! {

/// The age in nanoseconds, at `now`, of data stamped `stamp`; none when the
/// stamp lies ahead of `now`.
pub open spec fn age_between(stamp: Timestamp, now: Timestamp) -> Option<nat> {
    if stamp.nanos() <= now.nanos() {
        Some((now.nanos() - stamp.nanos()) as nat)
    } else {
        None
    }
}

/// Whether data stamped `stamp` is, at `now`, strictly younger than
/// `max_age`; none when its age cannot be told.
pub open spec fn fresh_at(stamp: Timestamp, now: Timestamp, max_age: Duration) -> Option<bool> {
    match age_between(stamp, now) {
        Some(age) => Some(age < max_age.as_nanos()),
        None => None,
    }
}

impl MetadataStored {
    /// The age of the metadata at `now`, or the marker when its timestamp
    /// lies ahead of `now`.
    pub fn age_at(&self, now: &Timestamp) -> (r: Result<Duration, AheadOfClock>)
        ensures
            r is Ok <==> age_between(self.timestamp, *now) is Some,
            r matches Ok(d) ==> d.well_formed() && Some(d.as_nanos()) == age_between(
                self.timestamp,
                *now,
            ),
    {
        now.duration_since(&self.timestamp)
    }

    /// The age of the metadata by the system clock, or the marker when the
    /// timestamp lies ahead of the clock. Whatever the clock reads, an age
    /// that is given is the age at some point in time.
    pub fn age(&self) -> (r: Result<Duration, AheadOfClock>)
        ensures
            r matches Ok(d) ==> d.well_formed() && exists|now: Timestamp| #[trigger]
                age_between(self.timestamp, now) == Some(d.as_nanos()),
    {
        match Timestamp::now() {
            Some(now) => self.age_at(&now),
            None => Err(AheadOfClock),
        }
    }

    /// Whether the metadata is, at `now`, strictly younger than `max_age`;
    /// `None` when its timestamp lies ahead of `now`.
    pub fn validate_at(&self, now: &Timestamp, max_age: &Duration) -> (r: Option<bool>)
        ensures
            r == fresh_at(self.timestamp, *now, *max_age),
    {
        match self.age_at(now) {
            Ok(age) => Some(age.shorter_than(max_age)),
            Err(_) => None,
        }
    }

    /// Whether the metadata is, by the system clock, strictly younger than
    /// `max_age`; `None` when its timestamp lies ahead of the clock.
    /// Whatever the clock reads, an answer that is given is the answer at
    /// some point in time.
    pub fn validate(&self, max_age: &Duration) -> (r: Option<bool>)
        ensures
            r is None || exists|now: Timestamp| #[trigger]
                fresh_at(self.timestamp, now, *max_age) == r,
    {
        match Timestamp::now() {
            Some(now) => self.validate_at(&now, max_age),
            None => None,
        }
    }
}

/// Data that is exactly `max_age` old is no longer fresh, and data that is
/// one second younger than that (where `max_age` is a second or more) still
/// is: the comparison is strict.
pub proof fn lemma_freshness_boundary(stamp: Timestamp, now: Timestamp, max_age: Duration)
    requires
        stamp.well_formed(),
        now.well_formed(),
        max_age.well_formed(),
    ensures
        now.nanos() == stamp.nanos() + max_age.as_nanos() ==> fresh_at(stamp, now, max_age)
            == Some(false),
        max_age.as_nanos() >= NANOS_PER_SEC && now.nanos() + NANOS_PER_SEC == stamp.nanos()
            + max_age.as_nanos() ==> fresh_at(stamp, now, max_age) == Some(true),
{
}

/// Freshness is a threshold on the age: whatever is fresh at some age is
/// fresh at every smaller one.
pub proof fn lemma_fresh_iff_younger(stamp: Timestamp, now: Timestamp, max_age: Duration)
    ensures
        fresh_at(stamp, now, max_age) == Some(true) <==> stamp.nanos() <= now.nanos()
            < stamp.nanos() + max_age.as_nanos(),
{
}

} // verus!
