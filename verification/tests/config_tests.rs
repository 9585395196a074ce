use flok::config::WatchConfig;

#[test]
fn disabled_watch_is_not_enabled() {
    assert!(!WatchConfig::Enabled(false).is_enabled());
}

#[test]
fn plain_enabled_watch_is_enabled() {
    assert!(WatchConfig::Enabled(true).is_enabled());
}

#[test]
fn debounce_watch_is_enabled() {
    assert!(WatchConfig::WithDebounce { debounce_millis: Some(5000) }.is_enabled());
    assert!(WatchConfig::WithDebounce { debounce_millis: None }.is_enabled());
}

#[test]
fn disabled_watch_maps_to_zero_duration() {
    assert_eq!(WatchConfig::Enabled(false).debounce_duration(), 0);
}

#[test]
fn plain_enabled_watch_maps_to_two_seconds() {
    assert_eq!(WatchConfig::Enabled(true).debounce_duration(), 2000);
}

#[test]
fn explicit_debounce_maps_to_its_own_duration() {
    assert_eq!(
        WatchConfig::WithDebounce { debounce_millis: Some(5000) }.debounce_duration(),
        5000
    );
}

#[test]
fn omitted_debounce_maps_to_one_second() {
    assert_eq!(
        WatchConfig::WithDebounce { debounce_millis: None }.debounce_duration(),
        1000
    );
}

#[test]
fn default_watch_is_disabled() {
    let w: WatchConfig = Default::default();
    assert!(!w.is_enabled());
    assert_eq!(w.debounce_duration(), 0);
}
