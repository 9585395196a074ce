use flok::config::FlockProcessConfig;
use flok::config::WatchConfig;
use flok::process::Process;
use flok::process::ProcessRunningStatus;
use flok::process::ProcessState;
use flok::process::ProcessStatus;
use flok::process::RestartDebounceHandler;

fn spec_with(watch: WatchConfig) -> FlockProcessConfig {
    FlockProcessConfig {
        display_name: "web".to_string(),
        command: "cargo run".to_string(),
        watch,
    }
}

fn timer_of(slot: &ProcessState) -> RestartDebounceHandler {
    match &slot.status {
        ProcessStatus::Running(p) => match &p.status {
            ProcessRunningStatus::Debouncing(t) => *t,
            other => panic!("expected a debouncing slot, found {:?}", other),
        },
        ProcessStatus::Stopped => panic!("expected a running slot"),
    }
}

#[test]
fn timer_expires_exactly_at_its_duration() {
    let t = RestartDebounceHandler::new(100, 1000);
    assert!(!t.is_expired(100));
    assert!(!t.is_expired(1099));
    assert!(t.is_expired(1100));
    assert!(t.is_expired(5000));
}

#[test]
fn timer_reset_keeps_the_duration() {
    let mut t = RestartDebounceHandler::new(100, 1000);
    t.reset(400);
    assert_eq!(t.started_at_ms, 400);
    assert_eq!(t.duration_ms, 1000);
    assert!(!t.is_expired(1399));
    assert!(t.is_expired(1400));
}

#[test]
fn zero_duration_timer_is_expired_at_once() {
    let t = RestartDebounceHandler::new(100, 0);
    assert!(t.is_expired(100));
}

#[test]
fn disabled_process_ignores_any_number_of_changes() {
    let mut slot = ProcessState::new(spec_with(WatchConfig::Enabled(false)));
    slot.mark_launched(1);
    for now in [0, 100, 250, 251, 9000] {
        slot.on_file_change(now);
        match &slot.status {
            ProcessStatus::Running(p) => {
                assert!(matches!(p.status, ProcessRunningStatus::Stable))
            }
            ProcessStatus::Stopped => panic!("slot lost its child"),
        }
    }
}

#[test]
fn change_on_stopped_slot_is_ignored() {
    let mut slot = ProcessState::new(spec_with(WatchConfig::Enabled(true)));
    slot.on_file_change(500);
    assert!(matches!(slot.status, ProcessStatus::Stopped));
}

#[test]
fn stable_slot_starts_debouncing_with_the_full_duration() {
    let mut slot = ProcessState::new(spec_with(WatchConfig::Enabled(true)));
    slot.mark_launched(1);
    slot.on_file_change(100);
    let t = timer_of(&slot);
    assert_eq!(t.started_at_ms, 100);
    assert_eq!(t.duration_ms, 2000);
}

#[test]
fn second_change_resets_the_remaining_time_to_the_full_duration() {
    let mut slot = ProcessState::new(spec_with(WatchConfig::Enabled(true)));
    slot.mark_launched(1);
    slot.on_file_change(100);
    slot.on_file_change(700);
    let t = timer_of(&slot);
    assert_eq!(t.started_at_ms, 700);
    assert_eq!(t.duration_ms, 2000);
    assert!(!t.is_expired(2699));
    assert!(t.is_expired(2700));
}

#[test]
fn poll_does_not_fire_before_the_quiet_period_is_over() {
    let mut slot = ProcessState::new(spec_with(WatchConfig::WithDebounce {
        debounce_millis: Some(1000),
    }));
    slot.mark_launched(1);
    slot.on_file_change(100);
    assert!(!slot.poll_debounce(1099));
    let t = timer_of(&slot);
    assert_eq!(t.started_at_ms, 100);
}

#[test]
fn poll_fires_exactly_once_at_expiry() {
    let mut slot = ProcessState::new(spec_with(WatchConfig::WithDebounce {
        debounce_millis: Some(1000),
    }));
    slot.mark_launched(1);
    slot.on_file_change(100);
    assert!(slot.poll_debounce(1100));
    match &slot.status {
        ProcessStatus::Running(p) => {
            assert!(matches!(p.status, ProcessRunningStatus::Restarting))
        }
        ProcessStatus::Stopped => panic!("slot lost its child"),
    }
    assert!(!slot.poll_debounce(2000));
    assert!(!slot.poll_debounce(9000));
}

#[test]
fn changes_are_ignored_while_restarting() {
    let mut slot = ProcessState::new(spec_with(WatchConfig::WithDebounce {
        debounce_millis: Some(1000),
    }));
    slot.mark_launched(1);
    slot.on_file_change(0);
    assert!(slot.poll_debounce(1000));
    slot.on_file_change(1500);
    match &slot.status {
        ProcessStatus::Running(p) => {
            assert!(matches!(p.status, ProcessRunningStatus::Restarting))
        }
        ProcessStatus::Stopped => panic!("slot lost its child"),
    }
}

#[test]
fn shutdown_completion_chains_back_to_a_fresh_stable_child() {
    let mut slot = ProcessState::new(spec_with(WatchConfig::Enabled(true)));
    slot.mark_launched(1);
    slot.on_file_change(0);
    assert!(slot.poll_debounce(2000));
    slot.on_shutdown_complete();
    assert!(matches!(slot.status, ProcessStatus::Stopped));
    assert!(slot.should_launch(false));
    slot.mark_launched(2);
    match &slot.status {
        ProcessStatus::Running(p) => {
            assert_eq!(p.handle, 2);
            assert!(matches!(p.status, ProcessRunningStatus::Stable));
        }
        ProcessStatus::Stopped => panic!("relaunch was not installed"),
    }
}

#[test]
fn stale_shutdown_completion_is_ignored() {
    let mut slot = ProcessState::new(spec_with(WatchConfig::Enabled(true)));
    slot.mark_launched(1);
    slot.on_shutdown_complete();
    match &slot.status {
        ProcessStatus::Running(p) => {
            assert!(matches!(p.status, ProcessRunningStatus::Stable))
        }
        ProcessStatus::Stopped => panic!("a stable slot must not be stopped"),
    }
}

#[test]
fn two_rapid_launches_spawn_exactly_one_child() {
    let mut slot = ProcessState::new(spec_with(WatchConfig::Enabled(false)));
    let mut spawned = 0;
    for _ in 0..2 {
        let probe_says_exited = false;
        if slot.should_launch(probe_says_exited) {
            spawned += 1;
            slot.mark_launched(spawned);
        }
    }
    assert_eq!(spawned, 1);
}

#[test]
fn launch_on_an_externally_exited_child_spawns_afresh() {
    let mut slot = ProcessState::new(spec_with(WatchConfig::Enabled(false)));
    slot.mark_launched(1);
    assert!(slot.should_launch(true));
    slot.mark_launched(2);
    match &slot.status {
        ProcessStatus::Running(p) => {
            assert_eq!(p.handle, 2);
            assert!(matches!(p.status, ProcessRunningStatus::Stable));
        }
        ProcessStatus::Stopped => panic!("dead handle was not overwritten"),
    }
}

#[test]
fn state_indicator_marks_only_restarting_slots() {
    let mut slot = ProcessState::new(spec_with(WatchConfig::WithDebounce {
        debounce_millis: None,
    }));
    assert_eq!(slot.state_indicator(), "");
    slot.mark_launched(1);
    assert_eq!(slot.state_indicator(), "");
    slot.on_file_change(0);
    assert_eq!(slot.state_indicator(), "");
    assert!(slot.poll_debounce(1000));
    assert_eq!(slot.state_indicator(), " [Restarting...]");
}

#[test]
fn status_equality_compares_phases_only() {
    let running_a = ProcessStatus::Running(Process {
        handle: 1,
        status: ProcessRunningStatus::Stable,
    });
    let running_b = ProcessStatus::Running(Process {
        handle: 2,
        status: ProcessRunningStatus::Restarting,
    });
    assert!(running_a == running_b);
    assert!(ProcessStatus::Stopped == ProcessStatus::Stopped);
    assert!(running_a != ProcessStatus::Stopped);

    let debouncing_a = ProcessRunningStatus::Debouncing(RestartDebounceHandler::new(0, 10));
    let debouncing_b = ProcessRunningStatus::Debouncing(RestartDebounceHandler::new(5, 99));
    assert!(debouncing_a == debouncing_b);
    assert!(debouncing_a != ProcessRunningStatus::Stable);
    assert!(ProcessRunningStatus::Restarting == ProcessRunningStatus::Restarting);
}
