//! The capability every kernel event-record format must offer.

use vstd::prelude::*;
use crate::token::Token;

verus! {

/// The queries a backend's event record answers. Each backend encodes
/// readiness in its own bits; the spec functions name each record's
/// own meaning, and the executable methods are proved to report
/// exactly that. Everything above the records speaks only through
/// this contract, which keeps the rest of the queue backend-agnostic.
pub trait SysEvent: Sized {
    /// The correlation value the kernel handed back with this record.
    spec fn spec_token(&self) -> usize;

    /// The record reports read readiness.
    spec fn spec_is_readable(&self) -> bool;

    /// The record reports that the read direction has shut down.
    spec fn spec_is_read_closed(&self) -> bool;

    /// The record reports write readiness.
    spec fn spec_is_writable(&self) -> bool;

    /// The record reports that the write direction has shut down.
    spec fn spec_is_write_closed(&self) -> bool;

    /// The record reports an error condition.
    spec fn spec_is_error(&self) -> bool;

    /// The token supplied at registration, returned unchanged.
    fn token(&self) -> (t: Token)
        ensures
            t.0 == self.spec_token(),
    ;

    /// Whether the source can be read without blocking.
    fn is_readable(&self) -> (r: bool)
        ensures
            r == self.spec_is_readable(),
    ;

    /// Whether the read direction of the source has shut down.
    fn is_read_closed(&self) -> (r: bool)
        ensures
            r == self.spec_is_read_closed(),
    ;

    /// Whether the source can be written without blocking.
    fn is_writable(&self) -> (r: bool)
        ensures
            r == self.spec_is_writable(),
    ;

    /// Whether the write direction of the source has shut down.
    fn is_write_closed(&self) -> (r: bool)
        ensures
            r == self.spec_is_write_closed(),
    ;

    /// Whether an error condition stands on the source.
    fn is_error(&self) -> (r: bool)
        ensures
            r == self.spec_is_error(),
    ;
}

} // verus!
