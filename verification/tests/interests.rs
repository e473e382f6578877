use eventqueue::interests::Interest;

#[test]
fn test_set_interest() {
    let interest = Interest::readable();

    assert!(interest.is_readable());
    assert!(!interest.is_writable());

    let interest = interest.add_interest(Interest::writable());

    assert!(interest.is_readable());
    assert!(interest.is_writable());

    assert!(!interest.is_timer());
    let interest = interest.add_interest(Interest::timer());
    assert!(interest.is_timer());
}

#[test]
fn add_and_remove_self() {
    let read = Interest::readable();
    let both = Interest::readable().add_interest(Interest::writable());

    assert!(read.add_interest(read) == read);
    assert!(both.add_interest(both) == both);

    assert!(read.remove_interest(read).is_none());
    assert!(both.remove_interest(both).is_none());

    let left = both.remove_interest(Interest::readable()).unwrap();
    assert!(left.is_writable());
    assert!(!left.is_readable());
}

#[test]
fn describe_names_directions() {
    assert_eq!(Interest::readable().describe(), "READABLE");
    assert_eq!(Interest::writable().describe(), "WRITABLE");

    let both = Interest::readable().add_interest(Interest::writable());
    assert_eq!(both.describe(), "READABLE | WRITABLE");

    let all = both.add_interest(Interest::timer());
    assert_eq!(all.describe(), "READABLE | WRITABLE | TIMER");

    let write_timer = Interest::writable().add_interest(Interest::timer());
    assert_eq!(write_timer.describe(), "WRITABLE | TIMER");
}
