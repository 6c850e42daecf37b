//! Wall-clock readings and the lifetime of a creation permit.

use vstd::prelude::*;

verus! {

/// Nanoseconds in one second.
pub const NANOS_PER_SEC: u32 = 1_000_000_000;

/// Seconds for which a creation permit that nobody has confirmed stays in
/// force.
pub const CREATION_LOCK_TIMEOUT: u64 = 5;

/// A wall-clock reading: the span since the Unix epoch, in whole seconds
/// and the nanoseconds of the second that has begun.
#[derive(Clone, Copy, Debug, PartialEq, Eq, Structural)]
pub struct Timestamp {
    pub secs: u64,
    pub nanos: u32,
}

impl Timestamp {
    /// The reading as one number: nanoseconds since the epoch.
    pub open spec fn total_nanos(self) -> int {
        self.secs * NANOS_PER_SEC + self.nanos
    }

    /// The nanoseconds stay below one second, so that every instant has
    /// one reading.
    pub open spec fn wf(self) -> bool {
        self.nanos < NANOS_PER_SEC
    }

    /// The reading `secs` seconds and `nanos` nanoseconds after the epoch,
    /// or nothing where `nanos` holds a whole second or more.
    pub fn new(secs: u64, nanos: u32) -> (r: Option<Timestamp>)
        ensures
            r == if nanos < NANOS_PER_SEC {
                Some(Timestamp { secs, nanos })
            } else {
                None
            },
            r matches Some(t) ==> t.wf(),
    {
        if nanos < NANOS_PER_SEC {
            Some(Timestamp { secs, nanos })
        } else {
            None
        }
    }

    /// The reading at a whole second.
    pub fn from_secs(secs: u64) -> (r: Timestamp)
        ensures
            r == (Timestamp { secs, nanos: 0 }),
            r.wf(),
            r.total_nanos() == secs * NANOS_PER_SEC,
    {
        Timestamp { secs, nanos: 0 }
    }

    /// Whether `self` lies at least `secs` whole seconds after `earlier`.
    /// A reading that lies before `earlier` is after it by no span at all.
    pub fn is_at_least_secs_after(&self, earlier: &Timestamp, secs: u64) -> (r: bool)
        ensures
            r == (self.total_nanos() - earlier.total_nanos() >= secs * NANOS_PER_SEC),
    {
        let later_nanos: u128 = Self::widen(self);
        let earlier_nanos: u128 = Self::widen(earlier);
        let span: u128 = (secs as u128) * 1_000_000_000u128;
        later_nanos >= earlier_nanos + span
    }

    /// `total_nanos` in a machine integer wide enough for every reading.
    fn widen(t: &Timestamp) -> (n: u128)
        ensures
            n == t.total_nanos(),
            n < 0x4000_0000_0000_0000_0000_0000u128,
    {
        (t.secs as u128) * 1_000_000_000u128 + (t.nanos as u128)
    }
}

/// Of a well-formed reading, `secs` is the number of whole seconds that
/// have gone by since the epoch.
pub proof fn lemma_secs_are_whole_seconds(t: Timestamp)
    requires
        t.wf(),
    ensures
        t.secs == t.total_nanos() / (NANOS_PER_SEC as int),
        t.nanos == t.total_nanos() % (NANOS_PER_SEC as int),
{
}

} // verus!
