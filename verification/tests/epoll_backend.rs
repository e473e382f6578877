use eventqueue::epoll::{
    interest_to_epoll, poll_timeout_millis, register_event, EpollEvents, OsEvent, EPOLLERR,
    EPOLLET, EPOLLHUP, EPOLLIN, EPOLLOUT, EPOLLPRI, EPOLLRDHUP,
};
use eventqueue::interests::Interest;
use eventqueue::sysevent::SysEvent;
use eventqueue::token::Token;

#[test]
fn test_bitwise_operations() {
    let interests = EpollEvents::EPOLLIN.value() | EpollEvents::EPOLLET.value();

    assert!(EpollEvents::EPOLLIN.is_set(interests));
    assert!(EpollEvents::EPOLLET.is_set(interests));

    assert!(!EpollEvents::EPOLLEXCLUSIVE.is_set(interests));
}

#[test]
fn interest_mask_is_exact() {
    assert_eq!(interest_to_epoll(Interest::readable()), EPOLLET | EPOLLIN | EPOLLRDHUP);
    assert_eq!(interest_to_epoll(Interest::readable()), 0x8000_2001);
    assert_eq!(interest_to_epoll(Interest::writable()), EPOLLET | EPOLLOUT);

    let both = Interest::readable().add_interest(Interest::writable());
    assert_eq!(interest_to_epoll(both), EPOLLET | EPOLLIN | EPOLLRDHUP | EPOLLOUT);
}

#[test]
fn read_ready_record() {
    let record = OsEvent { events: EPOLLIN, epoll_data: 7 };
    assert!(record.is_readable());
    assert!(!record.is_writable());

    let urgent = OsEvent { events: EPOLLPRI, epoll_data: 0 };
    assert!(urgent.is_readable());
    assert!(!urgent.is_writable());
}

#[test]
fn hangup_closes_both_directions() {
    let record = OsEvent { events: EPOLLHUP, epoll_data: 0 };
    assert!(record.is_read_closed());
    assert!(record.is_write_closed());
    assert!(!record.is_error());
}

#[test]
fn error_record() {
    let record = OsEvent { events: EPOLLERR, epoll_data: 0 };
    assert!(record.is_error());
    assert!(record.is_write_closed());
    assert!(!record.is_read_closed());

    let write_error = OsEvent { events: EPOLLOUT | EPOLLERR, epoll_data: 0 };
    assert!(write_error.is_write_closed());
}

#[test]
fn register_record_carries_token() {
    let record = register_event(Token(7), Interest::readable());
    assert_eq!(record.epoll_data, 7);
    assert_eq!(record.events, EPOLLET | EPOLLIN | EPOLLRDHUP);
    assert_eq!(record.token().0, 7);
}

#[test]
fn timeout_millis() {
    assert_eq!(poll_timeout_millis(None), -1);
    assert_eq!(poll_timeout_millis(Some((0, 50_000_000))), 50);
    assert_eq!(poll_timeout_millis(Some((2, 1_500_000))), 2001);
    assert_eq!(poll_timeout_millis(Some((0, 999_999))), 0);
    assert_eq!(poll_timeout_millis(Some((u64::MAX, 0))), i32::MAX);
}
