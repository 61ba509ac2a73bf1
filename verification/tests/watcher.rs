use chaseai::watcher::{ConfigWatcher, UserEvent, DEBOUNCE_MILLIS};

#[test]
fn a_modification_is_passed_on_after_the_debounce_time() {
    assert_eq!(DEBOUNCE_MILLIS, 100);
    let mut watcher = ConfigWatcher::new(1_000);
    assert_eq!(watcher.on_event(true, 1_050), None);
    assert_eq!(watcher.on_event(true, 1_100), None);
    assert_eq!(watcher.on_event(true, 1_101), Some(UserEvent::ConfigChanged));
    // the time is counted from the change that was passed on
    assert_eq!(watcher.on_event(true, 1_201), None);
    assert_eq!(watcher.on_event(true, 1_202), Some(UserEvent::ConfigChanged));
    assert_eq!(watcher, ConfigWatcher::new(1_202));
}

#[test]
fn other_reports_are_dropped() {
    let mut watcher = ConfigWatcher::new(0);
    assert_eq!(watcher.on_event(false, 5_000), None);
    assert_eq!(watcher, ConfigWatcher::new(0));
    assert_eq!(watcher.on_event(true, 5_000), Some(UserEvent::ConfigChanged));
    // a clock that ran backwards passes nothing on
    assert_eq!(watcher.on_event(true, 10), None);
    assert_eq!(watcher, ConfigWatcher::new(5_000));
}
