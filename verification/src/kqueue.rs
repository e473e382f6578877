//! The kqueue backend: filter and flag vocabularies, the kernel event
//! record, the kernel timeout structure, and the pure construction of
//! every change list a kqueue call consumes.

use vstd::prelude::*;
use crate::interests::Interest;
use crate::sysevent::SysEvent;
use crate::token::Token;

verus! {

/// Filter: fires whenever there is data available to read.
pub const EVFILT_READ: i16 = -1;

/// Filter: fires whenever the descriptor can be written.
pub const EVFILT_WRITE: i16 = -2;

pub const EVFILT_AIO: i16 = -3;

pub const EVFILT_VNODE: i16 = -4;

pub const EVFILT_PROC: i16 = -5;

pub const EVFILT_SIGNAL: i16 = -6;

/// Filter: an interval timer whose period stands in the record's
/// data field.
pub const EVFILT_TIMER: i16 = -7;

pub const EVFILT_MACHPORT: i16 = -8;

pub const EVFILT_FS: i16 = -9;

pub const EVFILT_USER: i16 = -10;

pub const EVFILT_VM: i16 = -12;

/// Action flag: add the event to the queue, enabling it.
pub const EV_ADD: u16 = 0x1;

/// Action flag: remove the event from the queue.
pub const EV_DELETE: u16 = 0x2;

/// Action flag: permit the call to return the event when triggered.
pub const EV_ENABLE: u16 = 0x4;

/// Action flag: keep the event but never return it.
pub const EV_DISABLE: u16 = 0x8;

/// Action flag: deliver one event, then disable it.
pub const EV_ONESHOT: u16 = 0x10;

/// Action flag: reset the event's state once it is retrieved, which
/// gives edge-triggered delivery.
pub const EV_CLEAR: u16 = 0x20;

/// Action flag: report the outcome of this change in the change
/// record itself, without draining pending events.
pub const EV_RECEIPT: u16 = 0x40;

/// Action flag: disable the event right after delivering it.
pub const EV_DISPATCH: u16 = 0x80;

pub const EV_FLAG0: u16 = 0x1000;

pub const EV_POLL: u16 = 0x1000;

pub const EV_FLAG1: u16 = 0x2000;

pub const EV_OOBAND: u16 = 0x2000;

/// Returned flag: processing this change failed; the error stands in
/// the record's data field.
pub const EV_ERROR: u16 = 0x4000;

/// Returned flag: the filter hit end-of-file for its direction.
pub const EV_EOF: u16 = 0x8000;

pub const EV_SYSFLAGS: u16 = 0xf000;

pub const NOTE_TRIGGER: u32 = 0x01000000;

pub const NOTE_FFNOP: u32 = 0x00000000;

pub const NOTE_FFAND: u32 = 0x40000000;

pub const NOTE_FFOR: u32 = 0x80000000;

pub const NOTE_FFCOPY: u32 = 0xc0000000;

pub const NOTE_FFCTRLMASK: u32 = 0xc0000000;

pub const NOTE_FFLAGSMASK: u32 = 0x00ffffff;

pub const NOTE_LOWAT: u32 = 0x00000001;

/// The file referenced by the descriptor was unlinked.
pub const NOTE_DELETE: u32 = 0x00000001;

/// A write occurred on the file referenced by the descriptor.
pub const NOTE_WRITE: u32 = 0x00000002;

pub const NOTE_EXTEND: u32 = 0x00000004;

/// The file referenced by the descriptor had its attributes changed.
pub const NOTE_ATTRIB: u32 = 0x00000008;

pub const NOTE_LINK: u32 = 0x00000010;

pub const NOTE_RENAME: u32 = 0x00000020;

pub const NOTE_REVOKE: u32 = 0x00000040;

pub const NOTE_NONE: u32 = 0x00000080;

pub const NOTE_EXIT: u32 = 0x80000000;

pub const NOTE_FORK: u32 = 0x40000000;

pub const NOTE_EXEC: u32 = 0x20000000;

/// A named constant's numeric value in its kernel vocabulary.
pub trait ToValue {
    type Output;

    /// The numeric value the name stands for.
    spec fn spec_value(&self) -> Self::Output;

    /// The numeric value the name stands for.
    fn value(&self) -> (v: Self::Output)
        ensures
            v == self.spec_value(),
    ;
}

/// The kernel filters a change record can subscribe to.
#[derive(Clone, Copy)]
#[allow(non_camel_case_types)]
pub enum EventFilter {
    EVFILT_READ,
    EVFILT_WRITE,
    EVFILT_AIO,
    EVFILT_VNODE,
    EVFILT_PROC,
    EVFILT_SIGNAL,
    EVFILT_TIMER,
    EVFILT_MACHPORT,
    EVFILT_FS,
    EVFILT_USER,
    EVFILT_VM,
}

impl ToValue for EventFilter {
    type Output = i16;

    open spec fn spec_value(&self) -> i16 {
        match self {
            EventFilter::EVFILT_READ => EVFILT_READ,
            EventFilter::EVFILT_WRITE => EVFILT_WRITE,
            EventFilter::EVFILT_AIO => EVFILT_AIO,
            EventFilter::EVFILT_VNODE => EVFILT_VNODE,
            EventFilter::EVFILT_PROC => EVFILT_PROC,
            EventFilter::EVFILT_SIGNAL => EVFILT_SIGNAL,
            EventFilter::EVFILT_TIMER => EVFILT_TIMER,
            EventFilter::EVFILT_MACHPORT => EVFILT_MACHPORT,
            EventFilter::EVFILT_FS => EVFILT_FS,
            EventFilter::EVFILT_USER => EVFILT_USER,
            EventFilter::EVFILT_VM => EVFILT_VM,
        }
    }

    fn value(&self) -> i16 {
        match self {
            EventFilter::EVFILT_READ => EVFILT_READ,
            EventFilter::EVFILT_WRITE => EVFILT_WRITE,
            EventFilter::EVFILT_AIO => EVFILT_AIO,
            EventFilter::EVFILT_VNODE => EVFILT_VNODE,
            EventFilter::EVFILT_PROC => EVFILT_PROC,
            EventFilter::EVFILT_SIGNAL => EVFILT_SIGNAL,
            EventFilter::EVFILT_TIMER => EVFILT_TIMER,
            EventFilter::EVFILT_MACHPORT => EVFILT_MACHPORT,
            EventFilter::EVFILT_FS => EVFILT_FS,
            EventFilter::EVFILT_USER => EVFILT_USER,
            EventFilter::EVFILT_VM => EVFILT_VM,
        }
    }
}

/// The action flags of a change record.
#[derive(Clone, Copy)]
#[allow(non_camel_case_types)]
pub enum EventFlag {
    EV_ADD,
    EV_DELETE,
    EV_ENABLE,
    EV_DISABLE,
    EV_ONESHOT,
    EV_CLEAR,
    EV_RECEIPT,
    EV_DISPATCH,
    EV_FLAG0,
    EV_POLL,
    EV_FLAG1,
    EV_OOBAND,
    EV_ERROR,
    EV_EOF,
    EV_SYSFLAGS,
}

impl ToValue for EventFlag {
    type Output = u16;

    open spec fn spec_value(&self) -> u16 {
        match self {
            EventFlag::EV_ADD => EV_ADD,
            EventFlag::EV_DELETE => EV_DELETE,
            EventFlag::EV_ENABLE => EV_ENABLE,
            EventFlag::EV_DISABLE => EV_DISABLE,
            EventFlag::EV_ONESHOT => EV_ONESHOT,
            EventFlag::EV_CLEAR => EV_CLEAR,
            EventFlag::EV_RECEIPT => EV_RECEIPT,
            EventFlag::EV_DISPATCH => EV_DISPATCH,
            EventFlag::EV_FLAG0 => EV_FLAG0,
            EventFlag::EV_POLL => EV_POLL,
            EventFlag::EV_FLAG1 => EV_FLAG1,
            EventFlag::EV_OOBAND => EV_OOBAND,
            EventFlag::EV_ERROR => EV_ERROR,
            EventFlag::EV_EOF => EV_EOF,
            EventFlag::EV_SYSFLAGS => EV_SYSFLAGS,
        }
    }

    fn value(&self) -> u16 {
        match self {
            EventFlag::EV_ADD => EV_ADD,
            EventFlag::EV_DELETE => EV_DELETE,
            EventFlag::EV_ENABLE => EV_ENABLE,
            EventFlag::EV_DISABLE => EV_DISABLE,
            EventFlag::EV_ONESHOT => EV_ONESHOT,
            EventFlag::EV_CLEAR => EV_CLEAR,
            EventFlag::EV_RECEIPT => EV_RECEIPT,
            EventFlag::EV_DISPATCH => EV_DISPATCH,
            EventFlag::EV_FLAG0 => EV_FLAG0,
            EventFlag::EV_POLL => EV_POLL,
            EventFlag::EV_FLAG1 => EV_FLAG1,
            EventFlag::EV_OOBAND => EV_OOBAND,
            EventFlag::EV_ERROR => EV_ERROR,
            EventFlag::EV_EOF => EV_EOF,
            EventFlag::EV_SYSFLAGS => EV_SYSFLAGS,
        }
    }
}

/// The filter-specific flags of a change record.
#[derive(Clone, Copy)]
#[allow(non_camel_case_types)]
pub enum FilterFlags {
    NOTE_TRIGGER,
    NOTE_FFNOP,
    NOTE_FFAND,
    NOTE_FFOR,
    NOTE_FFCOPY,
    NOTE_FFCTRLMASK,
    NOTE_FFLAGSMASK,
    NOTE_LOWAT,
    NOTE_DELETE,
    NOTE_WRITE,
    NOTE_EXTEND,
    NOTE_ATTRIB,
    NOTE_LINK,
    NOTE_RENAME,
    NOTE_REVOKE,
    NOTE_NONE,
    NOTE_EXIT,
    NOTE_FORK,
    NOTE_EXEC,
}

impl ToValue for FilterFlags {
    type Output = u32;

    open spec fn spec_value(&self) -> u32 {
        match self {
            FilterFlags::NOTE_TRIGGER => NOTE_TRIGGER,
            FilterFlags::NOTE_FFNOP => NOTE_FFNOP,
            FilterFlags::NOTE_FFAND => NOTE_FFAND,
            FilterFlags::NOTE_FFOR => NOTE_FFOR,
            FilterFlags::NOTE_FFCOPY => NOTE_FFCOPY,
            FilterFlags::NOTE_FFCTRLMASK => NOTE_FFCTRLMASK,
            FilterFlags::NOTE_FFLAGSMASK => NOTE_FFLAGSMASK,
            FilterFlags::NOTE_LOWAT => NOTE_LOWAT,
            FilterFlags::NOTE_DELETE => NOTE_DELETE,
            FilterFlags::NOTE_WRITE => NOTE_WRITE,
            FilterFlags::NOTE_EXTEND => NOTE_EXTEND,
            FilterFlags::NOTE_ATTRIB => NOTE_ATTRIB,
            FilterFlags::NOTE_LINK => NOTE_LINK,
            FilterFlags::NOTE_RENAME => NOTE_RENAME,
            FilterFlags::NOTE_REVOKE => NOTE_REVOKE,
            FilterFlags::NOTE_NONE => NOTE_NONE,
            FilterFlags::NOTE_EXIT => NOTE_EXIT,
            FilterFlags::NOTE_FORK => NOTE_FORK,
            FilterFlags::NOTE_EXEC => NOTE_EXEC,
        }
    }

    fn value(&self) -> u32 {
        match self {
            FilterFlags::NOTE_TRIGGER => NOTE_TRIGGER,
            FilterFlags::NOTE_FFNOP => NOTE_FFNOP,
            FilterFlags::NOTE_FFAND => NOTE_FFAND,
            FilterFlags::NOTE_FFOR => NOTE_FFOR,
            FilterFlags::NOTE_FFCOPY => NOTE_FFCOPY,
            FilterFlags::NOTE_FFCTRLMASK => NOTE_FFCTRLMASK,
            FilterFlags::NOTE_FFLAGSMASK => NOTE_FFLAGSMASK,
            FilterFlags::NOTE_LOWAT => NOTE_LOWAT,
            FilterFlags::NOTE_DELETE => NOTE_DELETE,
            FilterFlags::NOTE_WRITE => NOTE_WRITE,
            FilterFlags::NOTE_EXTEND => NOTE_EXTEND,
            FilterFlags::NOTE_ATTRIB => NOTE_ATTRIB,
            FilterFlags::NOTE_LINK => NOTE_LINK,
            FilterFlags::NOTE_RENAME => NOTE_RENAME,
            FilterFlags::NOTE_REVOKE => NOTE_REVOKE,
            FilterFlags::NOTE_NONE => NOTE_NONE,
            FilterFlags::NOTE_EXIT => NOTE_EXIT,
            FilterFlags::NOTE_FORK => NOTE_FORK,
            FilterFlags::NOTE_EXEC => NOTE_EXEC,
        }
    }
}

/// The record the kqueue kernel interface reads and writes. As a
/// change it subscribes one descriptor to one filter; as a result it
/// reports one firing of a filter. The embedding program mirrors this
/// record with the kernel's exact layout at the call boundary.
#[derive(Clone, Copy, Debug, Default, PartialEq, Eq, Structural)]
pub struct Kevent {
    /// The descriptor the record speaks of.
    pub ident: usize,
    /// The kernel filter that processes this event.
    pub filter: i16,
    /// Action flags for the queue, a union of the `EV_` bits.
    pub flags: u16,
    /// Filter-specific flags, a union of the `NOTE_` bits.
    pub fflags: u32,
    /// Filter-specific data.
    pub data: isize,
    /// The caller's token, handed back by the kernel untouched.
    pub udata: usize,
}

/// The kqueue backend's event record.
pub type OsEvent = Kevent;

impl SysEvent for Kevent {
    open spec fn spec_token(&self) -> usize {
        self.udata
    }

    open spec fn spec_is_readable(&self) -> bool {
        self.filter == EVFILT_READ
    }

    open spec fn spec_is_read_closed(&self) -> bool {
        self.filter == EVFILT_READ && (self.flags & EV_EOF) != 0
    }

    open spec fn spec_is_writable(&self) -> bool {
        self.filter == EVFILT_WRITE
    }

    open spec fn spec_is_write_closed(&self) -> bool {
        self.filter == EVFILT_WRITE && (self.flags & EV_EOF) != 0
    }

    open spec fn spec_is_error(&self) -> bool {
        (self.flags & EV_ERROR) != 0 || (self.flags & EV_EOF) != 0
    }

    fn token(&self) -> Token {
        Token(self.udata)
    }

    fn is_readable(&self) -> bool {
        self.filter == EVFILT_READ
    }

    fn is_read_closed(&self) -> bool {
        self.filter == EVFILT_READ && (self.flags & EV_EOF) != 0
    }

    fn is_writable(&self) -> bool {
        self.filter == EVFILT_WRITE
    }

    fn is_write_closed(&self) -> bool {
        self.filter == EVFILT_WRITE && (self.flags & EV_EOF) != 0
    }

    fn is_error(&self) -> bool {
        (self.flags & EV_ERROR) != 0 || (self.flags & EV_EOF) != 0
    }
}

/// The change record subscribing `fd` to one direction's filter:
/// clear-on-read for edge-triggered delivery, a receipt for the
/// change, and the token in the opaque word.
pub open spec fn spec_subscribe_change(fd: i32, filter: i16, token_value: usize) -> Kevent {
    Kevent {
        ident: fd as usize,
        filter: filter,
        flags: EV_CLEAR | EV_RECEIPT | EV_ADD,
        fflags: 0,
        data: 0,
        udata: token_value,
    }
}

/// The change records a registration submits: one per requested
/// direction, read first.
pub open spec fn spec_register_changelist(fd: i32, token_value: usize, bits: u8) -> Seq<Kevent> {
    let base = Seq::<Kevent>::empty();
    let with_read = if bits & crate::interests::READABLE != 0 {
        base.push(spec_subscribe_change(fd, EVFILT_READ, token_value))
    } else {
        base
    };
    if bits & crate::interests::WRITABLE != 0 {
        with_read.push(spec_subscribe_change(fd, EVFILT_WRITE, token_value))
    } else {
        with_read
    }
}

/// Builds the change list that registers, or re-registers, interest
/// in `fd`: zero, one or two subscription records, one per requested
/// direction, each edge-triggered and carrying the token.
pub fn register_changelist(fd: i32, token: Token, interests: Interest) -> (changes: Vec<Kevent>)
    ensures
        changes@ == spec_register_changelist(fd, token.0, interests@),
{
    let flags: u16 = EV_CLEAR | EV_RECEIPT | EV_ADD;
    let mut changes: Vec<Kevent> = Vec::new();
    if interests.is_readable() {
        changes.push(
            Kevent {
                ident: fd as usize,
                filter: EVFILT_READ,
                flags,
                fflags: 0,
                data: 0,
                udata: token.0,
            },
        );
    }
    if interests.is_writable() {
        changes.push(
            Kevent {
                ident: fd as usize,
                filter: EVFILT_WRITE,
                flags,
                fflags: 0,
                data: 0,
                udata: token.0,
            },
        );
    }
    proof {
        assert(changes@ =~= spec_register_changelist(fd, token.0, interests@));
    }
    changes
}

/// The change record withdrawing `fd` from one direction's filter.
pub open spec fn spec_delete_change(fd: i32, filter: i16) -> Kevent {
    Kevent {
        ident: fd as usize,
        filter: filter,
        flags: EV_DELETE | EV_RECEIPT,
        fflags: 0,
        data: 0,
        udata: 0,
    }
}

/// Builds the change list that withdraws `fd` from the queue: exactly
/// two deletion records, one per direction, read first.
pub fn deregister_changelist(fd: i32) -> (changes: Vec<Kevent>)
    ensures
        changes@.len() == 2,
        changes@[0] == spec_delete_change(fd, EVFILT_READ),
        changes@[1] == spec_delete_change(fd, EVFILT_WRITE),
{
    let flags: u16 = EV_DELETE | EV_RECEIPT;
    let mut changes: Vec<Kevent> = Vec::new();
    changes.push(
        Kevent { ident: fd as usize, filter: EVFILT_READ, flags, fflags: 0, data: 0, udata: 0 },
    );
    changes.push(
        Kevent { ident: fd as usize, filter: EVFILT_WRITE, flags, fflags: 0, data: 0, udata: 0 },
    );
    changes
}

/// The kernel timeout structure of the kqueue submission call.
#[derive(Clone, Copy, Debug, PartialEq, Eq, Structural)]
#[allow(non_camel_case_types)]
pub struct timespec {
    /// Whole seconds of the bound.
    pub tv_sec: i64,
    /// Nanoseconds below one second.
    pub tv_nsec: i64,
}

impl From<Option<(u64, u32)>> for timespec {
    /// Converts an optional wait bound, given as whole seconds and a
    /// nanosecond remainder, into the kernel timeout structure. An
    /// absent bound becomes the zero structure; the caller stands for
    /// blocking indefinitely by passing the kernel a null timeout
    /// instead.
    fn from(timeout: Option<(u64, u32)>) -> (t: timespec) {
        match timeout {
            Some((secs, nanos)) => timespec { tv_sec: secs as i64, tv_nsec: nanos as i64 },
            None => timespec { tv_sec: 0, tv_nsec: 0 },
        }
    }
}

impl vstd::std_specs::convert::FromSpecImpl<Option<(u64, u32)>> for timespec {
    open spec fn obeys_from_spec() -> bool {
        true
    }

    open spec fn from_spec(timeout: Option<(u64, u32)>) -> timespec {
        match timeout {
            Some((secs, nanos)) => timespec { tv_sec: secs as i64, tv_nsec: nanos as i64 },
            None => timespec { tv_sec: 0, tv_nsec: 0 },
        }
    }
}

/// A record reporting the read filter answers readable and never
/// writable; the two filters are distinct.
pub proof fn lemma_kqueue_readable_not_writable(ev: Kevent)
    requires
        ev.filter == EVFILT_READ,
    ensures
        ev.spec_is_readable(),
        !ev.spec_is_writable(),
{
}

/// End-of-file is per filter: it closes the direction whose filter
/// reported it, and no other.
pub proof fn lemma_kqueue_eof_per_filter(ev: Kevent)
    requires
        ev.flags & EV_EOF != 0,
    ensures
        ev.filter == EVFILT_READ ==> ev.spec_is_read_closed() && !ev.spec_is_write_closed(),
        ev.filter == EVFILT_WRITE ==> ev.spec_is_write_closed() && !ev.spec_is_read_closed(),
{
}

} // verus!
