//! The access, modification and creation times of a path, ordered by when
//! the path was last modified.  Reading the times from the filesystem and
//! setting them there is the caller's part.
use vstd::prelude::*;
use std::cmp::Ordering;

use crate::path::Path;
use crate::path_cmp::order_of;
use crate::timed::PathDateTime;

verus! {

/// Where `t` stands on the time line, in nanoseconds after the epoch.
pub open spec fn instant(t: PathDateTime) -> int {
    t.secs * 1_000_000_000 + t.nanos
}

/// The seconds of a time, as an integer.
pub open spec fn secs_of(t: PathDateTime) -> int {
    t.secs as int
}

/// The nanoseconds of a time, as an integer.
pub open spec fn nanos_of(t: PathDateTime) -> int {
    t.nanos as int
}

/// The order of two times as `chrono` orders the instants they name
/// (seconds first, then nanoseconds).
pub open spec fn time_order(a: PathDateTime, b: PathDateTime) -> Ordering {
    if a.secs == b.secs { order_of(nanos_of(a), nanos_of(b)) } else { order_of(secs_of(a), secs_of(b)) }
}

impl PathDateTime {
    /// Compares two times: the earlier one first.
    pub fn cmp_time(&self, other: &PathDateTime) -> (r: Ordering)
        ensures
            r == time_order(*self, *other),
    {
        if self.secs < other.secs {
            Ordering::Less
        } else if self.secs > other.secs {
            Ordering::Greater
        } else if self.nanos < other.nanos {
            Ordering::Less
        } else if self.nanos > other.nanos {
            Ordering::Greater
        } else {
            Ordering::Equal
        }
    }
}

/// Two times in nanoseconds that stay below a second apart are ordered by
/// the instants they name.
pub proof fn lemma_time_order_instant(a: PathDateTime, b: PathDateTime)
    requires
        a.nanos < 1_000_000_000,
        b.nanos < 1_000_000_000,
    ensures
        time_order(a, b) == order_of(instant(a), instant(b)),
{
    if a.secs < b.secs {
        assert(a.secs * 1_000_000_000 + 1_000_000_000 <= b.secs * 1_000_000_000) by (nonlinear_arith)
            requires a.secs < b.secs;
    } else if a.secs > b.secs {
        assert(b.secs * 1_000_000_000 + 1_000_000_000 <= a.secs * 1_000_000_000) by (nonlinear_arith)
            requires b.secs < a.secs;
    }
}

/// Two times compare equal exactly when they are the same time, and
/// comparing them the other way round reverses the order.
pub proof fn lemma_time_order_antisymmetric(a: PathDateTime, b: PathDateTime)
    ensures
        (time_order(a, b) == Ordering::Equal) <==> a == b,
        (time_order(a, b) == Ordering::Less) <==> (time_order(b, a) == Ordering::Greater),
{
}

/// The order of times is transitive.
pub proof fn lemma_time_order_transitive(a: PathDateTime, b: PathDateTime, c: PathDateTime)
    requires
        time_order(a, b) == Ordering::Less,
        time_order(b, c) == Ordering::Less,
    ensures
        time_order(a, c) == Ordering::Less,
{
}

/// The times of a path.
#[derive(Debug, Clone, PartialEq, Eq)]
pub struct PathTimestamps {
    pub path: Path,
    pub accessed: PathDateTime,
    pub modified: PathDateTime,
    pub created: PathDateTime,
}

impl PathTimestamps {
    /// The times of `path`, as read from its metadata.
    pub fn new(
        path: Path,
        accessed: PathDateTime,
        modified: PathDateTime,
        created: PathDateTime,
    ) -> (r: PathTimestamps)
        ensures
            r.path@ == path@,
            r.accessed == accessed,
            r.modified == modified,
            r.created == created,
    {
        PathTimestamps { path, accessed, modified, created }
    }

    /// The fields shown when the times are written out: the modification time.
    pub fn fields(&self) -> (r: [(&'static str, PathDateTime); 1])
        ensures
            r@[0].0@ == "modified"@,
            r@[0].1 == self.modified,
    {
        [("modified", self.modified)]
    }

    /// Compares two sets of times by their modification times.
    pub fn cmp_modified(&self, other: &PathTimestamps) -> (r: Ordering)
        ensures
            r == time_order(self.modified, other.modified),
    {
        self.modified.cmp_time(&other.modified)
    }

    /// Records that the access time of the path was set to `t`.
    pub fn record_access_time(&mut self, t: PathDateTime)
        ensures
            final(self).accessed == t,
            final(self).path@ == old(self).path@,
            final(self).modified == old(self).modified,
            final(self).created == old(self).created,
    {
        self.accessed = t;
    }

    /// Records that the modification time of the path was set to `t`.
    pub fn record_modified_time(&mut self, t: PathDateTime)
        ensures
            final(self).modified == t,
            final(self).path@ == old(self).path@,
            final(self).accessed == old(self).accessed,
            final(self).created == old(self).created,
    {
        self.modified = t;
    }
}

} // verus!
