use vstd::prelude::*;

verus! {

/// Readiness interest of a source registered with the poller: readable,
/// writable, or both. A valid interest is never empty.
#[derive(Clone, Copy, Debug, PartialEq, Eq, Structural)]
pub struct Interest {
    pub readable: bool,
    pub writable: bool,
}

/// Interest in readability alone.
pub open spec fn read_only() -> Interest {
    Interest { readable: true, writable: false }
}

/// Interest in writability alone.
pub open spec fn write_only() -> Interest {
    Interest { readable: false, writable: true }
}

/// The union of two interests.
pub open spec fn union(a: Interest, b: Interest) -> Interest {
    Interest { readable: a.readable || b.readable, writable: a.writable || b.writable }
}

/// What is left of `a` without the kinds held by `b`; `None` when nothing is.
pub open spec fn difference(a: Interest, b: Interest) -> Option<Interest> {
    let r = Interest { readable: a.readable && !b.readable, writable: a.writable && !b.writable };
    if r.valid() {
        Some(r)
    } else {
        None
    }
}

impl Interest {
    /// The interest holds at least one readiness kind.
    pub open spec fn valid(self) -> bool {
        self.readable || self.writable
    }

    /// Interest in readability alone.
    pub fn readable() -> (r: Interest)
        ensures
            r == read_only(),
    {
        Interest { readable: true, writable: false }
    }

    /// Interest in writability alone.
    pub fn writable() -> (r: Interest)
        ensures
            r == write_only(),
    {
        Interest { readable: false, writable: true }
    }

    pub fn is_readable(&self) -> (r: bool)
        ensures
            r == self.readable,
    {
        self.readable
    }

    pub fn is_writable(&self) -> (r: bool)
        ensures
            r == self.writable,
    {
        self.writable
    }

    /// The union of two interests (the `|` of the poller's interest type).
    pub fn add(self, other: Interest) -> (r: Interest)
        ensures
            r == union(self, other),
    {
        Interest { readable: self.readable || other.readable, writable: self.writable || other.writable }
    }

    /// The interest without the kinds held by `other`; `None` when nothing
    /// would be left.
    pub fn remove(self, other: Interest) -> (r: Option<Interest>)
        ensures
            r == difference(self, other),
    {
        let readable = self.readable && !other.readable;
        let writable = self.writable && !other.writable;
        if readable || writable {
            Some(Interest { readable, writable })
        } else {
            None
        }
    }
}

/// Union is commutative and idempotent, and keeps validity.
pub proof fn lemma_union_laws(a: Interest, b: Interest)
    ensures
        union(a, b) == union(b, a),
        union(a, a) == a,
        a.valid() ==> union(a, b).valid(),
{
}

/// Removing an interest from itself leaves nothing; removing what was added
/// to a disjoint interest gives the interest back.
pub proof fn lemma_difference_laws(a: Interest, b: Interest)
    ensures
        difference(a, a) is None,
        a.valid() && !(a.readable && b.readable) && !(a.writable && b.writable)
            ==> difference(union(a, b), b) == Some(a),
{
}

} // verus!
