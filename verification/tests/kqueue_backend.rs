use eventqueue::event::GenericEvent;
use eventqueue::interests::Interest;
use eventqueue::kqueue::{
    deregister_changelist, register_changelist, timespec, EventFilter, EventFlag, FilterFlags,
    Kevent, ToValue, EVFILT_READ, EVFILT_WRITE, EV_ADD, EV_CLEAR, EV_DELETE, EV_EOF, EV_RECEIPT,
};
use eventqueue::sysevent::SysEvent;
use eventqueue::token::Token;

#[test]
fn test_convert_to_timespec() {
    let timespec = timespec::from(Some((5u64, 0u32)));

    assert_eq!(timespec.tv_sec, 5);
    assert_eq!(timespec.tv_nsec, 0);
}

#[test]
fn absent_timeout_is_zero_structure() {
    let absent = timespec::from(None);
    assert_eq!(absent.tv_sec, 0);
    assert_eq!(absent.tv_nsec, 0);

    let bounded = timespec::from(Some((2u64, 250_000_000u32)));
    assert_eq!(bounded.tv_sec, 2);
    assert_eq!(bounded.tv_nsec, 250_000_000);
}

#[test]
fn register_builds_one_record_per_direction() {
    let both = Interest::readable().add_interest(Interest::writable());
    let changes = register_changelist(5, Token(9), both);

    assert_eq!(changes.len(), 2);
    assert_eq!(changes[0].ident, 5);
    assert_eq!(changes[0].filter, EVFILT_READ);
    assert_eq!(changes[0].flags, EV_CLEAR | EV_RECEIPT | EV_ADD);
    assert_eq!(changes[0].fflags, 0);
    assert_eq!(changes[0].data, 0);
    assert_eq!(changes[0].udata, 9);
    assert_eq!(changes[1].filter, EVFILT_WRITE);
    assert_eq!(changes[1].udata, 9);

    let read_only = register_changelist(5, Token(9), Interest::readable());
    assert_eq!(read_only.len(), 1);
    assert_eq!(read_only[0].filter, EVFILT_READ);

    let write_only = register_changelist(5, Token(9), Interest::writable());
    assert_eq!(write_only.len(), 1);
    assert_eq!(write_only[0].filter, EVFILT_WRITE);
}

#[test]
fn deregister_builds_two_deletions() {
    let changes = deregister_changelist(8);

    assert_eq!(changes.len(), 2);
    assert_eq!(changes[0].filter, EVFILT_READ);
    assert_eq!(changes[1].filter, EVFILT_WRITE);
    for change in &changes {
        assert_eq!(change.ident, 8);
        assert_eq!(change.flags, EV_DELETE | EV_RECEIPT);
        assert_eq!(change.udata, 0);
    }
}

#[test]
fn filter_decides_direction() {
    let read = Kevent { ident: 1, filter: EVFILT_READ, flags: 0, fflags: 0, data: 0, udata: 7 };
    assert!(read.is_readable());
    assert!(!read.is_writable());
    assert!(!read.is_read_closed());

    let write = Kevent { filter: EVFILT_WRITE, ..read };
    assert!(write.is_writable());
    assert!(!write.is_readable());
}

#[test]
fn eof_closes_only_its_filter() {
    let read_eof =
        Kevent { ident: 1, filter: EVFILT_READ, flags: EV_EOF, fflags: 0, data: 0, udata: 0 };
    assert!(read_eof.is_read_closed());
    assert!(!read_eof.is_write_closed());
    assert!(read_eof.is_error());

    let write_eof = Kevent { filter: EVFILT_WRITE, ..read_eof };
    assert!(write_eof.is_write_closed());
    assert!(!write_eof.is_read_closed());
}

#[test]
fn named_values() {
    assert_eq!(EventFlag::EV_ADD.value(), 0x1);
    assert_eq!(EventFlag::EV_CLEAR.value(), 0x20);
    assert_eq!(EventFlag::EV_EOF.value(), 0x8000);
    assert_eq!(EventFilter::EVFILT_READ.value(), -1);
    assert_eq!(EventFilter::EVFILT_WRITE.value(), -2);
    assert_eq!(FilterFlags::NOTE_WRITE.value(), 0x2);
    assert_eq!(FilterFlags::NOTE_TRIGGER.value(), 0x01000000);
}

#[test]
fn wrap_kqueue_record() {
    let record = Kevent { ident: 1, filter: EVFILT_READ, flags: 0, fflags: 0, data: 0, udata: 11 };
    let event = GenericEvent::from_sys_event(record);
    assert_eq!(event.token().0, 11);
    assert!(event.is_readable());
    assert!(!event.is_writable());
}
