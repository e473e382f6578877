//! A backend-agnostic wrapper over one kernel event record.

use vstd::prelude::*;
use crate::sysevent::SysEvent;
use crate::token::Token;

verus! {

/// The event record of the backend the queue is built on.
pub type Event = GenericEvent<crate::epoll::OsEvent>;

/// A wrapper holding exactly one backend event record and answering
/// the record's own queries through the shared capability contract.
/// Its view is the wrapped record. Records are small and plain, so
/// the wrapper is built by copying the record it stands for.
#[derive(Clone, Copy, Debug)]
pub struct GenericEvent<T: SysEvent> {
    inner: T,
}

impl<T: SysEvent> View for GenericEvent<T> {
    type V = T;

    closed spec fn view(&self) -> T {
        self.inner
    }
}

impl<T: SysEvent> GenericEvent<T> {
    /// Wraps one backend event record.
    pub fn from_sys_event(inner: T) -> (e: Self)
        ensures
            e@ == inner,
    {
        Self { inner }
    }
}

impl Event {
    /// Wraps one event record of the queue's own backend.
    pub fn new(inner: crate::epoll::OsEvent) -> (e: Self)
        ensures
            e@ == inner,
    {
        Self { inner }
    }
}

impl<T: SysEvent> SysEvent for GenericEvent<T> {
    open spec fn spec_token(&self) -> usize {
        self@.spec_token()
    }

    open spec fn spec_is_readable(&self) -> bool {
        self@.spec_is_readable()
    }

    open spec fn spec_is_read_closed(&self) -> bool {
        self@.spec_is_read_closed()
    }

    open spec fn spec_is_writable(&self) -> bool {
        self@.spec_is_writable()
    }

    open spec fn spec_is_write_closed(&self) -> bool {
        self@.spec_is_write_closed()
    }

    open spec fn spec_is_error(&self) -> bool {
        self@.spec_is_error()
    }

    fn token(&self) -> Token {
        self.inner.token()
    }

    fn is_readable(&self) -> bool {
        self.inner.is_readable()
    }

    fn is_read_closed(&self) -> bool {
        self.inner.is_read_closed()
    }

    fn is_writable(&self) -> bool {
        self.inner.is_writable()
    }

    fn is_write_closed(&self) -> bool {
        self.inner.is_write_closed()
    }

    fn is_error(&self) -> bool {
        self.inner.is_error()
    }
}

} // verus!
