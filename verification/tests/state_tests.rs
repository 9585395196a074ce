use flok::config::AppConfig;
use flok::config::FlockConfig;
use flok::config::FlockProcessConfig;
use flok::config::WatchConfig;
use flok::process::ProcessRunningStatus;
use flok::process::ProcessStatus;
use flok::state::AppState;
use flok::state::FlockState;
use flok::state::GlobalUIState;
use flok::state::MainUIState;
use flok::watcher::WatcherEvent;

fn process(name: &str, watch: WatchConfig) -> FlockProcessConfig {
    FlockProcessConfig {
        display_name: name.to_string(),
        command: format!("run {}", name),
        watch,
    }
}

fn two_process_flock() -> GlobalUIState {
    let config = FlockConfig {
        display_name: "dev".to_string(),
        processes: vec![
            process("watched", WatchConfig::WithDebounce { debounce_millis: Some(1000) }),
            process("plain", WatchConfig::Enabled(false)),
        ],
    };
    GlobalUIState { flocks: vec![FlockState::new(config)] }
}

fn sub_state(g: &GlobalUIState, fi: usize, pj: usize) -> &ProcessRunningStatus {
    match &g.flocks[fi].processes[pj].status {
        ProcessStatus::Running(p) => &p.status,
        ProcessStatus::Stopped => panic!("slot {}/{} is stopped", fi, pj),
    }
}

fn debounce_start(g: &GlobalUIState, fi: usize, pj: usize) -> u64 {
    match sub_state(g, fi, pj) {
        ProcessRunningStatus::Debouncing(t) => t.started_at_ms,
        other => panic!("slot {}/{} is not debouncing: {:?}", fi, pj, other),
    }
}

#[test]
fn registry_is_built_in_configuration_order() {
    let config = AppConfig {
        flocks: vec![
            FlockConfig {
                display_name: "front".to_string(),
                processes: vec![process("ui", WatchConfig::Enabled(true))],
            },
            FlockConfig {
                display_name: "back".to_string(),
                processes: vec![
                    process("api", WatchConfig::Enabled(false)),
                    process("db", WatchConfig::WithDebounce { debounce_millis: None }),
                ],
            },
        ],
    };
    let app = AppState::new(config);
    let AppState::Main(main, global) = &app;
    assert_eq!(main.active_flock, 0);
    assert_eq!(global.flocks.len(), 2);
    assert_eq!(global.flocks[0].display_name, "front");
    assert_eq!(global.flocks[1].display_name, "back");
    assert_eq!(global.flocks[0].processes.len(), 1);
    assert_eq!(global.flocks[1].processes.len(), 2);
    assert_eq!(global.flocks[1].processes[0].process_config.display_name, "api");
    assert_eq!(global.flocks[1].processes[1].process_config.display_name, "db");
    for flock in &global.flocks {
        for slot in &flock.processes {
            assert!(matches!(slot.status, ProcessStatus::Stopped));
        }
    }
}

#[test]
fn flock_navigation_wraps_both_ways() {
    let mut main = MainUIState { active_flock: 0 };
    main.next_flock(3);
    assert_eq!(main.active_flock, 1);
    main.next_flock(3);
    assert_eq!(main.active_flock, 2);
    main.next_flock(3);
    assert_eq!(main.active_flock, 0);
    main.previous_flock(3);
    assert_eq!(main.active_flock, 2);
    main.previous_flock(3);
    assert_eq!(main.active_flock, 1);
}

#[test]
fn app_navigation_wraps_over_the_registry() {
    let config = AppConfig {
        flocks: vec![
            FlockConfig { display_name: "a".to_string(), processes: vec![] },
            FlockConfig { display_name: "b".to_string(), processes: vec![] },
        ],
    };
    let mut app = AppState::new(config);
    app.next_item();
    {
        let AppState::Main(main, _) = &app;
        assert_eq!(main.active_flock, 1);
    }
    app.next_item();
    {
        let AppState::Main(main, _) = &app;
        assert_eq!(main.active_flock, 0);
    }
    app.previous_item();
    {
        let AppState::Main(main, _) = &app;
        assert_eq!(main.active_flock, 1);
    }
}

#[test]
fn coalesced_changes_restart_once_after_the_quiet_period() {
    let mut g = two_process_flock();
    g.flocks[0].processes[0].mark_launched(1);
    g.flocks[0].processes[1].mark_launched(2);

    for now in [0, 200, 400] {
        g.handle_watcher_event(&WatcherEvent::FileChanged, now);
        assert_eq!(debounce_start(&g, 0, 0), now);
        assert!(matches!(sub_state(&g, 0, 1), ProcessRunningStatus::Stable));
    }

    assert_eq!(g.process_debounce_timers(1399), vec![]);
    assert_eq!(debounce_start(&g, 0, 0), 400);

    assert_eq!(g.process_debounce_timers(1400), vec![(0, 0)]);
    assert!(matches!(sub_state(&g, 0, 0), ProcessRunningStatus::Restarting));
    assert!(matches!(sub_state(&g, 0, 1), ProcessRunningStatus::Stable));

    assert_eq!(g.process_debounce_timers(2400), vec![]);

    assert!(g.handle_shutdown_complete(0, 0));
    assert!(matches!(g.flocks[0].processes[0].status, ProcessStatus::Stopped));
    assert!(g.flocks[0].processes[0].should_launch(false));
    g.flocks[0].processes[0].mark_launched(3);
    assert!(matches!(sub_state(&g, 0, 0), ProcessRunningStatus::Stable));

    assert!(matches!(sub_state(&g, 0, 1), ProcessRunningStatus::Stable));
}

#[test]
fn timers_fire_in_lexicographic_slot_order() {
    let flock = |name: &str| FlockConfig {
        display_name: name.to_string(),
        processes: vec![
            process("a", WatchConfig::WithDebounce { debounce_millis: Some(500) }),
            process("b", WatchConfig::WithDebounce { debounce_millis: Some(500) }),
        ],
    };
    let mut g = GlobalUIState {
        flocks: vec![FlockState::new(flock("one")), FlockState::new(flock("two"))],
    };
    for fi in 0..2 {
        for pj in 0..2 {
            g.flocks[fi].processes[pj].mark_launched((fi * 2 + pj) as u64);
        }
    }
    g.handle_file_change(100);
    assert_eq!(
        g.process_debounce_timers(600),
        vec![(0, 0), (0, 1), (1, 0), (1, 1)]
    );
}

#[test]
fn stale_or_out_of_range_completions_change_nothing() {
    let mut g = two_process_flock();
    assert!(!g.handle_shutdown_complete(5, 0));
    assert!(!g.handle_shutdown_complete(0, 9));
    g.flocks[0].processes[0].mark_launched(1);
    assert!(!g.handle_shutdown_complete(0, 0));
    assert!(matches!(sub_state(&g, 0, 0), ProcessRunningStatus::Stable));
}

#[test]
fn watcher_events_reach_every_flock() {
    let flock = |name: &str| FlockConfig {
        display_name: name.to_string(),
        processes: vec![process(
            "w",
            WatchConfig::WithDebounce { debounce_millis: Some(700) },
        )],
    };
    let mut g = GlobalUIState {
        flocks: vec![FlockState::new(flock("one")), FlockState::new(flock("two"))],
    };
    g.flocks[0].processes[0].mark_launched(1);
    g.flocks[1].processes[0].mark_launched(2);
    g.handle_watcher_event(&WatcherEvent::FileChanged, 300);
    assert_eq!(debounce_start(&g, 0, 0), 300);
    assert_eq!(debounce_start(&g, 1, 0), 300);
}
