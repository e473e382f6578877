//! The epoll backend: the kernel's readiness bitmask vocabulary, its
//! event record, and the pure construction of everything an epoll
//! call consumes.

use vstd::prelude::*;
use crate::interests::{Interest, READABLE, WRITABLE};
use crate::sysevent::SysEvent;
use crate::token::Token;

verus! {

/// The source is available for read operations.
pub const EPOLLIN: u32 = 0x001;

/// An exceptional condition stands on the source.
pub const EPOLLPRI: u32 = 0x002;

/// The source is available for write operations.
pub const EPOLLOUT: u32 = 0x004;

pub const EPOLLRDNORM: u32 = 0x040;

pub const EPOLLRDBAND: u32 = 0x080;

pub const EPOLLWRNORM: u32 = 0x100;

pub const EPOLLWRBAND: u32 = 0x200;

pub const EPOLLMSG: u32 = 0x400;

/// An error condition stands on the source; reported for the write
/// end of a pipe whose read end has closed.
pub const EPOLLERR: u32 = 0x008;

/// Hang-up: both halves of the connection have shut down.
pub const EPOLLHUP: u32 = 0x010;

/// The peer closed its end, or shut down the writing half, of the
/// connection.
pub const EPOLLRDHUP: u32 = 0x2000;

/// Wake only one of several queues attached to the same source.
pub const EPOLLEXCLUSIVE: u32 = 0x1000_0000;

/// Keep the system awake while the event is pending.
pub const EPOLLWAKEUP: u32 = 0x2000_0000;

/// Deliver one notification, then disarm the registration.
pub const EPOLLONESHOT: u32 = 0x4000_0000;

/// Edge-triggered delivery: notify on changes of readiness only.
pub const EPOLLET: u32 = 0x8000_0000;

/// Control operation: add a source to the interest list.
pub const EPOLL_CTL_ADD: i32 = 1;

/// Control operation: remove a source from the interest list.
pub const EPOLL_CTL_DEL: i32 = 2;

/// Control operation: change the settings of a registered source.
pub const EPOLL_CTL_MOD: i32 = 3;

/// The named positions of the epoll readiness bitmask.
#[derive(Clone, Copy)]
pub enum EpollEvents {
    EPOLLIN,
    EPOLLPRI,
    EPOLLOUT,
    EPOLLRDNORM,
    EPOLLRDBAND,
    EPOLLWRNORM,
    EPOLLWRBAND,
    EPOLLMSG,
    EPOLLERR,
    EPOLLHUP,
    EPOLLRDHUP,
    EPOLLEXCLUSIVE,
    EPOLLWAKEUP,
    EPOLLONESHOT,
    EPOLLET,
}

impl EpollEvents {
    /// The mask bit this name stands for.
    pub open spec fn spec_value(self) -> u32 {
        match self {
            EpollEvents::EPOLLIN => EPOLLIN,
            EpollEvents::EPOLLPRI => EPOLLPRI,
            EpollEvents::EPOLLOUT => EPOLLOUT,
            EpollEvents::EPOLLRDNORM => EPOLLRDNORM,
            EpollEvents::EPOLLRDBAND => EPOLLRDBAND,
            EpollEvents::EPOLLWRNORM => EPOLLWRNORM,
            EpollEvents::EPOLLWRBAND => EPOLLWRBAND,
            EpollEvents::EPOLLMSG => EPOLLMSG,
            EpollEvents::EPOLLERR => EPOLLERR,
            EpollEvents::EPOLLHUP => EPOLLHUP,
            EpollEvents::EPOLLRDHUP => EPOLLRDHUP,
            EpollEvents::EPOLLEXCLUSIVE => EPOLLEXCLUSIVE,
            EpollEvents::EPOLLWAKEUP => EPOLLWAKEUP,
            EpollEvents::EPOLLONESHOT => EPOLLONESHOT,
            EpollEvents::EPOLLET => EPOLLET,
        }
    }

    /// The mask bit this name stands for.
    pub fn value(self) -> (v: u32)
        ensures
            v == self.spec_value(),
    {
        match self {
            EpollEvents::EPOLLIN => EPOLLIN,
            EpollEvents::EPOLLPRI => EPOLLPRI,
            EpollEvents::EPOLLOUT => EPOLLOUT,
            EpollEvents::EPOLLRDNORM => EPOLLRDNORM,
            EpollEvents::EPOLLRDBAND => EPOLLRDBAND,
            EpollEvents::EPOLLWRNORM => EPOLLWRNORM,
            EpollEvents::EPOLLWRBAND => EPOLLWRBAND,
            EpollEvents::EPOLLMSG => EPOLLMSG,
            EpollEvents::EPOLLERR => EPOLLERR,
            EpollEvents::EPOLLHUP => EPOLLHUP,
            EpollEvents::EPOLLRDHUP => EPOLLRDHUP,
            EpollEvents::EPOLLEXCLUSIVE => EPOLLEXCLUSIVE,
            EpollEvents::EPOLLWAKEUP => EPOLLWAKEUP,
            EpollEvents::EPOLLONESHOT => EPOLLONESHOT,
            EpollEvents::EPOLLET => EPOLLET,
        }
    }

    /// Whether this flag is set within `bitmask`.
    pub fn is_set(self, bitmask: u32) -> (r: bool)
        ensures
            r == ((bitmask & self.spec_value()) != 0),
    {
        (bitmask & self.value()) != 0
    }
}

/// The record the epoll kernel interface reads and writes: a
/// readiness bitmask and an opaque word that carries the token back
/// unchanged. The embedding program mirrors this record with the
/// kernel's exact layout at the call boundary.
#[derive(Clone, Copy, Debug, Default, PartialEq, Eq, Structural)]
pub struct OsEvent {
    /// Bitmask of readiness conditions, a union of the `EPOLL` bits.
    pub events: u32,
    /// The caller's token, written back by the kernel untouched.
    pub epoll_data: usize,
}

impl SysEvent for OsEvent {
    open spec fn spec_token(&self) -> usize {
        self.epoll_data
    }

    open spec fn spec_is_readable(&self) -> bool {
        (self.events & EPOLLIN) != 0 || (self.events & EPOLLPRI) != 0
    }

    open spec fn spec_is_read_closed(&self) -> bool {
        (self.events & EPOLLHUP) != 0 || ((self.events & EPOLLIN) != 0 && (self.events
            & EPOLLRDHUP) != 0)
    }

    open spec fn spec_is_writable(&self) -> bool {
        (self.events & EPOLLOUT) != 0
    }

    open spec fn spec_is_write_closed(&self) -> bool {
        (self.events & EPOLLHUP) != 0 || ((self.events & EPOLLOUT) != 0 && (self.events
            & EPOLLERR) != 0) || self.events == EPOLLERR
    }

    open spec fn spec_is_error(&self) -> bool {
        (self.events & EPOLLERR) != 0
    }

    fn token(&self) -> Token {
        Token(self.epoll_data)
    }

    fn is_readable(&self) -> bool {
        (self.events & EPOLLIN) != 0 || (self.events & EPOLLPRI) != 0
    }

    fn is_read_closed(&self) -> bool {
        (self.events & EPOLLHUP) != 0 || ((self.events & EPOLLIN) != 0 && (self.events
            & EPOLLRDHUP) != 0)
    }

    fn is_writable(&self) -> bool {
        (self.events & EPOLLOUT) != 0
    }

    fn is_write_closed(&self) -> bool {
        (self.events & EPOLLHUP) != 0 || ((self.events & EPOLLOUT) != 0 && (self.events
            & EPOLLERR) != 0) || self.events == EPOLLERR
    }

    fn is_error(&self) -> bool {
        (self.events & EPOLLERR) != 0
    }
}

/// The subscription bitmask for an interest set: always
/// edge-triggered; read interest also subscribes to peer hang-up.
pub open spec fn spec_interest_to_epoll(bits: u8) -> u32 {
    let base = EPOLLET;
    let with_read = if bits & READABLE != 0 {
        base | EPOLLIN | EPOLLRDHUP
    } else {
        base
    };
    if bits & WRITABLE != 0 {
        with_read | EPOLLOUT
    } else {
        with_read
    }
}

/// Translates a portable interest set into the epoll subscription
/// bitmask.
pub fn interest_to_epoll(interests: Interest) -> (mask: u32)
    ensures
        mask == spec_interest_to_epoll(interests@),
{
    let mut events: u32 = EPOLLET;
    if interests.is_readable() {
        events = events | EPOLLIN | EPOLLRDHUP;
    }
    if interests.is_writable() {
        events = events | EPOLLOUT;
    }
    events
}

/// Builds the record handed to the epoll control operation that adds
/// or modifies a registration: the subscription bitmask for the
/// interest set, and the token in the opaque word.
pub fn register_event(token: Token, interests: Interest) -> (ev: OsEvent)
    ensures
        ev.events == spec_interest_to_epoll(interests@),
        ev.epoll_data == token.0,
{
    OsEvent { events: interest_to_epoll(interests), epoll_data: token.0 }
}

/// The whole milliseconds in a duration of `secs` seconds and `nanos`
/// nanoseconds; any sub-millisecond remainder is truncated.
pub open spec fn spec_timeout_millis(secs: u64, nanos: u32) -> int {
    secs * 1000 + nanos / 1_000_000
}

/// Converts an optional wait bound into the millisecond argument of
/// the epoll wait call: the sentinel -1 blocks indefinitely, and a
/// bound too large for the argument is capped at its maximum.
pub fn poll_timeout_millis(timeout: Option<(u64, u32)>) -> (ms: i32)
    ensures
        timeout is None ==> ms == -1,
        timeout matches Some((secs, nanos)) ==> ms == (if spec_timeout_millis(secs, nanos)
            > i32::MAX { i32::MAX as int } else { spec_timeout_millis(secs, nanos) }),
{
    match timeout {
        None => -1,
        Some((secs, nanos)) => {
            let whole: u128 = (secs as u128) * 1000 + ((nanos / 1_000_000) as u128);
            if whole > i32::MAX as u128 {
                i32::MAX
            } else {
                whole as i32
            }
        },
    }
}

/// A record whose bitmask reports read readiness and no write
/// readiness answers readable, and not writable.
pub proof fn lemma_epoll_readable_not_writable(ev: OsEvent)
    requires
        ev.events & (EPOLLIN | EPOLLPRI) != 0,
        ev.events & EPOLLOUT == 0,
    ensures
        ev.spec_is_readable(),
        !ev.spec_is_writable(),
{
    let bits = ev.events;
    assert(bits & (EPOLLIN | EPOLLPRI) != 0 ==> (bits & EPOLLIN != 0) || (bits & EPOLLPRI != 0))
        by (bit_vector);
}

/// Hang-up closes both directions: a record whose bitmask reports
/// hang-up answers read-closed and write-closed alike.
pub proof fn lemma_epoll_hangup_closes_both(ev: OsEvent)
    requires
        ev.events & EPOLLHUP != 0,
    ensures
        ev.spec_is_read_closed(),
        ev.spec_is_write_closed(),
{
}

} // verus!
