use eventqueue::epoll::{OsEvent, EPOLLHUP, EPOLLIN};
use eventqueue::event::Event;
use eventqueue::events::Events;
use eventqueue::sysevent::SysEvent;

fn is_send<T: Send>() {}

fn is_sync<T: Sync>() {}

#[test]
fn test_events_is_send() {
    is_send::<Events>();
}

#[test]
fn test_events_is_sync() {
    is_sync::<Events>();
}

#[test]
fn into_iter() {
    let os_event = OsEvent::default();

    let mut events = Events::with_capacity(1);

    events.push(os_event);

    let mut iter = events.into_iter();

    assert!(iter.next().is_some());
    assert!(iter.next().is_none());
}

#[test]
fn iter() {
    let os_event = OsEvent::default();

    let mut events = Events::with_capacity(1);

    events.push(os_event);

    let mut iter = events.iter();

    assert!(matches!(iter.next(), Some(_)));
    assert!(iter.next().is_none());
}

#[test]
fn cleared_collection_keeps_capacity() {
    let mut events = Events::with_capacity(4);
    events.clear();
    assert_eq!(events.len(), 0);
    assert!(events.is_empty());
    assert!(events.capacity() >= 4);

    events.push(OsEvent::default());
    assert_eq!(events.len(), 1);
    assert!(!events.is_empty());
    events.clear();
    assert_eq!(events.len(), 0);
    assert!(events.capacity() >= 4);
}

#[test]
fn iteration_order_is_delivery_order() {
    let mut events = Events::with_capacity(2);
    events.push(OsEvent { events: EPOLLIN, epoll_data: 1 });
    events.push(OsEvent { events: EPOLLHUP, epoll_data: 2 });

    let mut borrowed = events.iter();
    assert_eq!(borrowed.next().unwrap().token().0, 1);
    assert_eq!(borrowed.next().unwrap().token().0, 2);
    assert!(borrowed.next().is_none());

    let mut consuming = events.into_iter();
    let first = consuming.next().unwrap();
    assert_eq!(first.token().0, 1);
    assert!(first.is_readable());
    let second = consuming.next().unwrap();
    assert_eq!(second.token().0, 2);
    assert!(second.is_read_closed());
    assert!(consuming.next().is_none());
}

#[test]
fn wrap_epoll_record() {
    let record = OsEvent { events: EPOLLIN, epoll_data: 3 };
    let event = Event::new(record);
    assert_eq!(event.token().0, 3);
    assert!(event.is_readable());
    assert!(!event.is_write_closed());
}
