use fast::thread_flag::ThreadFlag;

#[test]
fn a_new_flag_shows_its_initial_value() {
    let flag = ThreadFlag::new(true);
    assert_eq!(flag.get(), true);
    assert!(!flag.is_pending());
    let flag = ThreadFlag::new(7u8);
    assert_eq!(flag.get(), 7);
}

#[test]
fn set_publishes_without_changing_what_readers_see() {
    let mut flag = ThreadFlag::new(true);
    flag.set(false);
    assert!(flag.is_pending());
    assert_eq!(flag.get(), true);
}

#[test]
fn get_new_applies_the_request_once() {
    let mut flag = ThreadFlag::new(true);
    flag.set(false);
    assert_eq!(flag.get_new(), Some(false));
    assert_eq!(flag.get(), false);
    assert!(!flag.is_pending());
    assert_eq!(flag.get_new(), None);
    assert_eq!(flag.get(), false);
}

#[test]
fn get_new_without_a_request_changes_nothing() {
    let mut flag = ThreadFlag::new(3u32);
    assert_eq!(flag.get_new(), None);
    assert_eq!(flag.get(), 3);
    assert!(!flag.is_pending());
}

#[test]
fn a_request_for_the_current_value_is_still_applied() {
    let mut flag = ThreadFlag::new(true);
    flag.set(true);
    assert!(flag.is_pending());
    assert_eq!(flag.get_new(), Some(true));
    assert_eq!(flag.get(), true);
}

#[test]
fn a_second_request_replaces_a_pending_one() {
    let mut flag = ThreadFlag::new(0u8);
    flag.set(1);
    flag.set(2);
    assert_eq!(flag.get(), 0);
    assert_eq!(flag.get_new(), Some(2));
    assert_eq!(flag.get_new(), None);
    assert_eq!(flag.get(), 2);
}
