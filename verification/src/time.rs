//! Points in time and spans between them, as whole seconds plus nanoseconds.

use vstd::prelude::*;

verus! {

/// Nanoseconds in one second.
pub const NANOS_PER_SEC: u32 = 1_000_000_000;

/// A span of time: whole seconds and the nanoseconds beyond them.
#[derive(Clone, Copy, Debug, PartialEq, Eq, Hash)]
pub struct Duration {
    pub(crate) secs: u64,
    pub(crate) nanos: u32,
}

/// A point in time, counted from the Unix epoch.
#[derive(Clone, Copy, Debug, PartialEq, Eq, Hash)]
pub struct Timestamp {
    pub(crate) since_epoch: Duration,
}

/// Marks a timestamp that lies ahead of the clock it was compared with.
#[derive(Clone, Copy, Debug, PartialEq, Eq)]
pub struct AheadOfClock;

impl Duration {
    /// The nanosecond part stays below one second.
    #[verifier::type_invariant]
    pub open(crate) spec fn well_formed(self) -> bool {
        self.nanos < NANOS_PER_SEC
    }

    /// The whole span in nanoseconds.
    pub open(crate) spec fn as_nanos(self) -> nat {
        self.secs as nat * NANOS_PER_SEC as nat + self.nanos as nat
    }

    /// A span of `secs` seconds and `nanos` nanoseconds, if `nanos` is below one second.
    pub fn new(secs: u64, nanos: u32) -> (r: Option<Duration>)
        ensures
            r is Some <==> nanos < NANOS_PER_SEC,
            r matches Some(d) ==> d.well_formed() && d.as_nanos() == secs as nat * NANOS_PER_SEC as nat + nanos as nat,
    {
        if nanos < NANOS_PER_SEC {
            Some(Duration { secs, nanos })
        } else {
            None
        }
    }

    /// A span of whole seconds.
    pub fn from_secs(secs: u64) -> (r: Duration)
        ensures
            r.well_formed(),
            r.as_nanos() == secs as nat * NANOS_PER_SEC as nat,
    {
        Duration { secs, nanos: 0 }
    }

    /// The whole seconds of the span.
    pub fn as_secs(&self) -> (r: u64)
        ensures
            r as nat == self.as_nanos() / NANOS_PER_SEC as nat,
    {
        proof {
            use_type_invariant(self);
        }
        self.secs
    }

    /// The nanoseconds beyond the whole seconds.
    pub fn subsec_nanos(&self) -> (r: u32)
        ensures
            r as nat == self.as_nanos() % NANOS_PER_SEC as nat,
    {
        proof {
            use_type_invariant(self);
        }
        self.nanos
    }

    /// Whether this span is strictly shorter than `other`.
    pub fn shorter_than(&self, other: &Duration) -> (r: bool)
        ensures
            r <==> self.as_nanos() < other.as_nanos(),
    {
        proof {
            use_type_invariant(self);
            use_type_invariant(other);
        }
        self.secs < other.secs || (self.secs == other.secs && self.nanos < other.nanos)
    }

    /// The span left when `other` is taken away, if `other` is not the longer one.
    pub fn checked_sub(&self, other: &Duration) -> (r: Option<Duration>)
        ensures
            r is Some <==> other.as_nanos() <= self.as_nanos(),
            r matches Some(d) ==> d.well_formed() && d.as_nanos() == self.as_nanos() - other.as_nanos(),
    {
        proof {
            use_type_invariant(self);
            use_type_invariant(other);
        }
        if self.secs < other.secs || (self.secs == other.secs && self.nanos < other.nanos) {
            None
        } else if self.nanos >= other.nanos {
            Some(Duration { secs: self.secs - other.secs, nanos: self.nanos - other.nanos })
        } else {
            Some(
                Duration {
                    secs: self.secs - other.secs - 1,
                    nanos: self.nanos + (NANOS_PER_SEC - other.nanos),
                },
            )
        }
    }

    /// The two spans joined, if the sum of seconds still fits.
    pub fn checked_add(&self, other: &Duration) -> (r: Option<Duration>)
        ensures
            r is Some <==> (self.as_nanos() + other.as_nanos()) / (NANOS_PER_SEC as nat) <= u64::MAX,
            r matches Some(d) ==> d.well_formed() && d.as_nanos() == self.as_nanos() + other.as_nanos(),
    {
        proof {
            use_type_invariant(self);
            use_type_invariant(other);
        }
        let sum: u32 = self.nanos + other.nanos;
        let carry: u64 = if sum >= NANOS_PER_SEC { 1 } else { 0 };
        let nanos: u32 = if sum >= NANOS_PER_SEC { sum - NANOS_PER_SEC } else { sum };
        match self.secs.checked_add(other.secs) {
            None => None,
            Some(secs) => match secs.checked_add(carry) {
                None => None,
                Some(secs) => Some(Duration { secs, nanos }),
            },
        }
    }
}

impl Timestamp {
    /// The span from the Unix epoch to this point.
    pub open(crate) spec fn offset(self) -> Duration {
        self.since_epoch
    }

    /// Nanoseconds from the Unix epoch to this point.
    pub open(crate) spec fn nanos(self) -> nat {
        self.since_epoch.as_nanos()
    }

    /// Whether the parts of this point are in range.
    pub open(crate) spec fn well_formed(self) -> bool {
        self.since_epoch.well_formed()
    }

    /// The point that lies `since_epoch` after the Unix epoch.
    pub fn from_unix(since_epoch: Duration) -> (r: Timestamp)
        ensures
            r.offset() == since_epoch,
    {
        Timestamp { since_epoch }
    }

    /// The span from the Unix epoch to this point.
    pub fn since_unix(&self) -> (r: Duration)
        ensures
            r == self.offset(),
    {
        self.since_epoch
    }

    /// The span from `earlier` to this point, or the marker when `earlier` in
    /// fact lies after this point.
    pub fn duration_since(&self, earlier: &Timestamp) -> (r: Result<Duration, AheadOfClock>)
        ensures
            r is Ok <==> earlier.nanos() <= self.nanos(),
            r matches Ok(d) ==> d.well_formed() && d.as_nanos() == self.nanos() - earlier.nanos(),
    {
        match self.since_epoch.checked_sub(&earlier.since_epoch) {
            Some(d) => Ok(d),
            None => Err(AheadOfClock),
        }
    }

    /// The point `span` after this one, if it can still be written down.
    pub fn checked_add(&self, span: &Duration) -> (r: Option<Timestamp>)
        ensures
            r is Some <==> (self.nanos() + span.as_nanos()) / (NANOS_PER_SEC as nat) <= u64::MAX,
            r matches Some(t) ==> t.well_formed() && t.nanos() == self.nanos() + span.as_nanos(),
    {
        match self.since_epoch.checked_add(span) {
            Some(d) => Some(Timestamp { since_epoch: d }),
            None => None,
        }
    }

    /// The point `span` before this one, if it does not fall before the epoch.
    pub fn checked_sub(&self, span: &Duration) -> (r: Option<Timestamp>)
        ensures
            r is Some <==> span.as_nanos() <= self.nanos(),
            r matches Some(t) ==> t.well_formed() && t.nanos() == self.nanos() - span.as_nanos(),
    {
        match self.since_epoch.checked_sub(span) {
            Some(d) => Some(Timestamp { since_epoch: d }),
            None => None,
        }
    }

    /// What the system clock reads now, or `None` while it reads a time before
    /// the Unix epoch.
    pub fn now() -> (r: Option<Timestamp>)
        ensures
            r matches Some(t) ==> t.well_formed(),
    {
        let reading = system_now();
        match since_unix_epoch(&reading) {
            Some(d) => {
                proof {
                    use_type_invariant(&d);
                }
                Some(Timestamp { since_epoch: d })
            },
            None => None,
        }
    }
}

/// Declares `std::time::SystemTime` as a type whose values are carried
/// through unseen: nothing is claimed of what a reading of the clock holds.
#[verifier::external_type_specification]
#[verifier::external_body]
pub struct ExSystemTime(std::time::SystemTime);

/// Reads the system clock with `std::time::SystemTime::now`. Nothing is
/// claimed of the reading: two calls may differ in any way.
#[verifier::external_body]
fn system_now() -> std::time::SystemTime {
    std::time::SystemTime::now()
}

/// Measures `t` from the Unix epoch with `SystemTime::duration_since`, which
/// fails exactly when `t` lies before the epoch; that case becomes `None`.
/// The seconds and sub-second nanoseconds of the span are carried over as std
/// reports them, so the nanoseconds are below one second.
#[verifier::external_body]
fn since_unix_epoch(t: &std::time::SystemTime) -> (r: Option<Duration>)
    ensures
        r matches Some(d) ==> d.well_formed(),
{
    match t.duration_since(std::time::UNIX_EPOCH) {
        Ok(d) => Some(Duration { secs: d.as_secs(), nanos: d.subsec_nanos() }),
        Err(_) => None,
    }
}

} // verus!
