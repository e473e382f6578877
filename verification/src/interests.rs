//! The set of readiness directions a caller wants to be told about.

use vstd::prelude::*;
use vstd::string::StringExecFns;

verus! {

/// Bit standing for read readiness.
pub const READABLE: u8 = 1;

/// Bit standing for write readiness.
pub const WRITABLE: u8 = 2;

/// Bit standing for the timer filter, a test-only extension that is
/// not part of the portable registration surface.
pub const TIMER: u8 = 4;

/// A non-empty set of readiness directions.
///
/// The empty set is unrepresentable: "no interest" is expressed by not
/// registering a source, and `remove_interest` reports that every bit
/// was cleared by returning `None`. The view of an `Interest` is its
/// bit pattern, always non-zero for values built through this module.
#[derive(Clone, Copy, PartialEq, Eq, Structural)]
pub struct Interest {
    bits: u8,
}

impl View for Interest {
    type V = u8;

    closed spec fn view(&self) -> u8 {
        self.bits
    }
}

impl Interest {
    /// The bit pattern is one of the direction bits, or a union of
    /// them: in particular it is never zero.
    pub open spec fn wf(self) -> bool {
        self@ != 0
    }

    /// Interest in read readiness alone.
    pub fn readable() -> (r: Interest)
        ensures
            r@ == READABLE,
            r.wf(),
    {
        Interest { bits: READABLE }
    }

    /// Interest in write readiness alone.
    pub fn writable() -> (r: Interest)
        ensures
            r@ == WRITABLE,
            r.wf(),
    {
        Interest { bits: WRITABLE }
    }

    /// Interest in the timer filter alone (test-only extension).
    pub fn timer() -> (r: Interest)
        ensures
            r@ == TIMER,
            r.wf(),
    {
        Interest { bits: TIMER }
    }

    /// The union of two interest sets. Adding a set to itself gives
    /// the set back unchanged, and the union of two non-empty sets is
    /// non-empty.
    pub fn add_interest(self, other: Interest) -> (r: Interest)
        ensures
            r@ == (self@ | other@),
            self == other ==> r == self,
            self.wf() ==> r.wf(),
    {
        proof {
            let a = self.bits;
            let b = other.bits;
            assert(a | a == a) by (bit_vector);
            assert(a != 0 ==> (a | b) != 0) by (bit_vector);
        }
        Interest { bits: self.bits | other.bits }
    }

    /// The set difference: every direction of `self` that is not in
    /// `other`. When every bit is cleared the difference is not
    /// representable and `None` is returned; in particular removing a
    /// set from itself always yields `None`.
    pub fn remove_interest(self, other: Interest) -> (r: Option<Interest>)
        ensures
            ((self@ & !other@) == 0) <==> (r is None),
            r matches Some(i) ==> i@ == (self@ & !other@) && i.wf(),
            self == other ==> r is None,
    {
        proof {
            let a = self.bits;
            assert(a & !a == 0) by (bit_vector);
        }
        let bits = self.bits & !other.bits;
        if bits == 0 {
            None
        } else {
            Some(Interest { bits })
        }
    }

    /// Whether the set holds the read-readiness bit.
    pub fn is_readable(&self) -> (r: bool)
        ensures
            r == ((self@ & READABLE) != 0),
    {
        (self.bits & READABLE) != 0
    }

    /// Whether the set holds the write-readiness bit.
    pub fn is_writable(&self) -> (r: bool)
        ensures
            r == ((self@ & WRITABLE) != 0),
    {
        (self.bits & WRITABLE) != 0
    }

    /// Whether the set holds the timer bit (test-only extension).
    pub fn is_timer(&self) -> (r: bool)
        ensures
            r == ((self@ & TIMER) != 0),
    {
        (self.bits & TIMER) != 0
    }

    /// The names of the directions present, joined by `" | "`.
    pub fn describe(&self) -> (s: String)
        ensures
            s@ == spec_describe(self@),
    {
        let mut s = String::new();
        let mut previous = false;
        if self.is_readable() {
            s.append("READABLE");
            previous = true;
        }
        if self.is_writable() {
            if previous {
                s.append(" | ");
            }
            s.append("WRITABLE");
            previous = true;
        }
        if self.is_timer() {
            if previous {
                s.append(" | ");
            }
            s.append("TIMER");
        }
        proof {
            reveal_strlit("READABLE");
            reveal_strlit("WRITABLE");
            reveal_strlit("TIMER");
            reveal_strlit(" | ");
            assert(s@ =~= spec_describe(self@));
        }
        s
    }
}

/// `name`, appended to `prefix` with `" | "` between them when the
/// prefix is not empty.
pub open spec fn spec_joined(prefix: Seq<char>, name: Seq<char>) -> Seq<char> {
    if prefix.len() == 0 {
        name
    } else {
        prefix + " | "@ + name
    }
}

/// The text naming each direction bit present in `bits`.
pub open spec fn spec_describe(bits: u8) -> Seq<char> {
    let after_read = if bits & READABLE != 0 {
        spec_joined(Seq::<char>::empty(), "READABLE"@)
    } else {
        Seq::<char>::empty()
    };
    let after_write = if bits & WRITABLE != 0 {
        spec_joined(after_read, "WRITABLE"@)
    } else {
        after_read
    };
    if bits & TIMER != 0 {
        spec_joined(after_write, "TIMER"@)
    } else {
        after_write
    }
}

} // verus!
