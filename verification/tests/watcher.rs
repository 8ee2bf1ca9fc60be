use focusflow::kind::WatchedFile;
use focusflow::pause::WatcherState;
use focusflow::watcher::{
    candidate, key_of, start_watcher, ModifyKind, RenameMode, SourceMessage, WatchEvent,
    WatchEventKind, WatchSession, Watcher, WatcherPhase, DEBOUNCE_WINDOW_SECS, RECENT_LIMIT,
};

const WRITE: WatchEventKind = WatchEventKind::Modify(ModifyKind::Data);

fn event(kind: WatchEventKind, names: &[&str], observed_at: u64) -> WatchEvent {
    WatchEvent { kind, file_names: names.iter().map(|n| n.to_string()).collect(), observed_at }
}

#[test]
fn constants_are_the_documented_ones() {
    assert_eq!(DEBOUNCE_WINDOW_SECS, 2);
    assert_eq!(RECENT_LIMIT, 100);
}

#[test]
fn only_writes_count() {
    let writes = [
        WatchEventKind::Create,
        WatchEventKind::Modify(ModifyKind::Any),
        WatchEventKind::Modify(ModifyKind::Data),
        WatchEventKind::Modify(ModifyKind::Other),
        WatchEventKind::Modify(ModifyKind::Name(RenameMode::To)),
        WatchEventKind::Modify(ModifyKind::Name(RenameMode::Both)),
        WatchEventKind::Modify(ModifyKind::Name(RenameMode::Any)),
        WatchEventKind::Modify(ModifyKind::Name(RenameMode::Other)),
    ];
    let others = [
        WatchEventKind::Any,
        WatchEventKind::Access,
        WatchEventKind::Remove,
        WatchEventKind::Other,
        WatchEventKind::Modify(ModifyKind::Metadata),
        WatchEventKind::Modify(ModifyKind::Name(RenameMode::From)),
    ];
    for kind in writes {
        assert!(kind.is_write(), "{:?}", kind);
        assert_eq!(candidate(kind, "active.json"), Some(WatchedFile::Active));
        assert_eq!(Watcher::new().observe(kind, "active.json", false, 0), Some(WatchedFile::Active));
    }
    for kind in others {
        assert!(!kind.is_write(), "{:?}", kind);
        assert_eq!(candidate(kind, "active.json"), None);
        let mut watcher = Watcher::new();
        assert_eq!(watcher.observe(kind, "active.json", false, 0), None);
        assert_eq!(watcher.remembered_len(), 0);
    }
}

#[test]
fn each_watched_file_is_reported_under_its_own_name() {
    let mut watcher = Watcher::new();
    assert_eq!(watcher.observe(WRITE, "active.json", false, 10), Some(WatchedFile::Active));
    assert_eq!(watcher.observe(WRITE, "archive.json", false, 10), Some(WatchedFile::Archive));
    assert_eq!(
        watcher.observe(WRITE, "pomodoro_history.json", false, 10),
        Some(WatchedFile::PomodoroHistory)
    );
    assert_eq!(watcher.observe(WRITE, "focusflow_data.json", false, 10), Some(WatchedFile::Legacy));
    assert_eq!(watcher.remembered_len(), 4);
}

#[test]
fn unknown_names_are_dropped() {
    let mut watcher = Watcher::new();
    for name in ["", "notes.txt", "active.json.bak", "Active.json", "focusflow_data.migrated.json"] {
        assert_eq!(watcher.observe(WRITE, name, false, 10), None, "{:?}", name);
    }
    assert_eq!(watcher.remembered_len(), 0);
}

#[test]
fn temp_files_are_never_reported() {
    let mut watcher = Watcher::new();
    for second in 0..20 {
        for name in ["active.json.tmp", "archive.json.tmp", "pomodoro_history.json.tmp", ".tmp"] {
            assert_eq!(watcher.observe(WRITE, name, false, second), None);
            assert_eq!(watcher.observe(WatchEventKind::Create, name, false, second), None);
        }
    }
    assert_eq!(watcher.remembered_len(), 0);
    assert_eq!(watcher.observe(WRITE, "active.json", false, 19), Some(WatchedFile::Active));
}

#[test]
fn burst_within_one_window_is_reported_once() {
    let mut watcher = Watcher::new();
    let mut reported = 0;
    for _ in 0..50 {
        for second in [100, 101] {
            if watcher.observe(WRITE, "active.json", false, second).is_some() {
                reported += 1;
            }
        }
    }
    assert_eq!(reported, 1);
    assert_eq!(watcher.remembered_len(), 1);
    assert!(watcher.has_reported(WatchedFile::Active, 100));
    assert!(watcher.has_reported(WatchedFile::Active, 101));
    assert!(!watcher.has_reported(WatchedFile::Active, 102));
    assert!(!watcher.has_reported(WatchedFile::Archive, 100));
}

#[test]
fn windows_are_two_seconds_wide() {
    let mut watcher = Watcher::new();
    assert_eq!(watcher.observe(WRITE, "active.json", false, 0), Some(WatchedFile::Active));
    assert_eq!(watcher.observe(WRITE, "active.json", false, 1), None);
    assert_eq!(watcher.observe(WRITE, "active.json", false, 2), Some(WatchedFile::Active));
    assert_eq!(watcher.observe(WRITE, "active.json", false, 3), None);
    assert_eq!(watcher.observe(WRITE, "active.json", false, 4), Some(WatchedFile::Active));
    assert_eq!(watcher.observe(WRITE, "active.json", false, u64::MAX), Some(WatchedFile::Active));
    assert_eq!(watcher.observe(WRITE, "active.json", false, u64::MAX - 1), None);
}

#[test]
fn files_are_debounced_apart() {
    let mut watcher = Watcher::new();
    assert_eq!(watcher.observe(WRITE, "active.json", false, 7), Some(WatchedFile::Active));
    assert_eq!(watcher.observe(WRITE, "archive.json", false, 7), Some(WatchedFile::Archive));
    assert_eq!(watcher.observe(WRITE, "active.json", false, 7), None);
    assert_eq!(watcher.observe(WRITE, "archive.json", false, 7), None);
}

#[test]
fn keys_are_window_times_four_plus_index() {
    assert_eq!(key_of(WatchedFile::Active, 0), 0);
    assert_eq!(key_of(WatchedFile::Active, 1), 0);
    assert_eq!(key_of(WatchedFile::Active, 2), 4);
    assert_eq!(key_of(WatchedFile::Archive, 2), 5);
    assert_eq!(key_of(WatchedFile::PomodoroHistory, 3), 6);
    assert_eq!(key_of(WatchedFile::Legacy, 4), 11);
    assert_eq!(key_of(WatchedFile::Legacy, u64::MAX), (u64::MAX / 2) as u128 * 4 + 3);
}

#[test]
fn paused_observations_are_neither_reported_nor_remembered() {
    let mut watcher = Watcher::new();
    for second in 0..100 {
        assert_eq!(watcher.observe(WRITE, "active.json", true, second), None);
        assert_eq!(watcher.observe(WatchEventKind::Create, "archive.json", true, second), None);
    }
    assert_eq!(watcher.remembered_len(), 0);
    assert_eq!(watcher.observe(WRITE, "active.json", false, 99), Some(WatchedFile::Active));
    assert_eq!(watcher.observe(WRITE, "active.json", false, 99), None);
}

#[test]
fn memory_is_emptied_when_it_is_full() {
    let mut watcher = Watcher::new();
    for window in 0..100u64 {
        assert_eq!(watcher.observe(WRITE, "active.json", false, window * 2), Some(WatchedFile::Active));
        assert_eq!(watcher.remembered_len(), window as usize + 1);
    }
    assert_eq!(watcher.remembered_len(), 100);
    assert_eq!(watcher.observe(WRITE, "active.json", false, 198), None);
    assert_eq!(watcher.observe(WRITE, "active.json", false, 200), Some(WatchedFile::Active));
    assert_eq!(watcher.remembered_len(), 0);
    assert_eq!(watcher.observe(WRITE, "active.json", false, 200), Some(WatchedFile::Active));
    assert_eq!(watcher.remembered_len(), 1);
    assert_eq!(watcher.observe(WRITE, "active.json", false, 200), None);
}

#[test]
fn memory_never_exceeds_its_limit() {
    let mut watcher = Watcher::new();
    for second in 0..2000u64 {
        for name in ["active.json", "archive.json", "pomodoro_history.json", "focusflow_data.json"] {
            watcher.observe(WRITE, name, false, second);
            assert!(watcher.remembered_len() <= RECENT_LIMIT);
        }
    }
}

#[test]
fn handle_event_reports_each_name_in_order() {
    let state = WatcherState::new();
    let mut watcher = Watcher::new();
    let reported = watcher.handle_event(
        &state,
        &event(
            WatchEventKind::Modify(ModifyKind::Name(RenameMode::Both)),
            &["archive.json.tmp", "archive.json", "notes.txt", "active.json", "archive.json"],
            50,
        ),
    );
    assert_eq!(reported, vec![WatchedFile::Archive, WatchedFile::Active]);
    assert_eq!(watcher.remembered_len(), 2);
    assert_eq!(watcher.handle_event(&state, &event(WRITE, &["active.json"], 51)), vec![]);
    assert_eq!(
        watcher.handle_event(&state, &event(WRITE, &["active.json"], 52)),
        vec![WatchedFile::Active]
    );
    assert_eq!(watcher.handle_event(&state, &event(WRITE, &[], 60)), vec![]);
    assert_eq!(
        watcher.handle_event(&state, &event(WatchEventKind::Remove, &["active.json"], 60)),
        vec![]
    );
}

#[test]
fn handle_event_is_silent_while_paused_and_reports_after_resume() {
    let state = WatcherState::new();
    let mut watcher = Watcher::new();
    assert!(!state.is_paused());
    state.pause();
    assert!(state.is_paused());
    for second in 0..10 {
        assert_eq!(
            watcher.handle_event(&state, &event(WRITE, &["active.json", "archive.json"], second)),
            vec![]
        );
    }
    assert_eq!(watcher.remembered_len(), 0);
    state.resume();
    assert!(!state.is_paused());
    assert_eq!(
        watcher.handle_event(&state, &event(WRITE, &["active.json"], 9)),
        vec![WatchedFile::Active]
    );
    assert_eq!(watcher.handle_event(&state, &event(WRITE, &["active.json"], 9)), vec![]);
}

#[test]
fn pause_and_resume_may_be_repeated() {
    let state = WatcherState::new();
    state.resume();
    assert!(!state.is_paused());
    state.pause();
    state.pause();
    assert!(state.is_paused());
    state.resume();
    assert!(!state.is_paused());
}

#[test]
fn pause_is_seen_through_a_shared_handle() {
    let state = std::sync::Arc::new(WatcherState::new());
    let shared = state.clone();
    shared.pause();
    assert!(state.is_paused());
    let mut watcher = Watcher::new();
    assert_eq!(watcher.handle_event(&state, &event(WRITE, &["active.json"], 1)), vec![]);
    shared.resume();
    assert_eq!(
        watcher.handle_event(&state, &event(WRITE, &["active.json"], 1)),
        vec![WatchedFile::Active]
    );
}

#[test]
fn session_starts_watches_and_ends() {
    let state = WatcherState::new();
    let mut session = WatchSession::new();
    assert_eq!(session.phase(), WatcherPhase::Starting);
    let write = SourceMessage::Event(event(WRITE, &["active.json"], 10));
    assert_eq!(session.receive(&state, &write), vec![]);
    assert_eq!(session.phase(), WatcherPhase::Starting);
    assert_eq!(session.registered(Ok(())), Ok(()));
    assert_eq!(session.phase(), WatcherPhase::Watching);
    assert_eq!(session.receive(&state, &write), vec![WatchedFile::Active]);
    assert_eq!(session.receive(&state, &write), vec![]);
    assert_eq!(session.receive(&state, &SourceMessage::Fault), vec![]);
    assert_eq!(session.phase(), WatcherPhase::Watching);
    assert_eq!(session.receive(&state, &SourceMessage::Closed), vec![]);
    assert_eq!(session.phase(), WatcherPhase::Terminated);
    let later = SourceMessage::Event(event(WRITE, &["active.json", "archive.json"], 100));
    assert_eq!(session.receive(&state, &later), vec![]);
    assert_eq!(session.registered(Ok(())), Ok(()));
    assert_eq!(session.phase(), WatcherPhase::Terminated);
}

#[test]
fn failed_registration_ends_the_session() {
    let state = WatcherState::new();
    let mut session = WatchSession::new();
    assert_eq!(
        session.registered(Err("No such file or directory".to_string())),
        Err("No such file or directory".to_string())
    );
    assert_eq!(session.phase(), WatcherPhase::Terminated);
    let write = SourceMessage::Event(event(WRITE, &["active.json"], 10));
    assert_eq!(session.receive(&state, &write), vec![]);
}

#[test]
fn session_honours_the_pause() {
    let state = WatcherState::new();
    let mut session = WatchSession::new();
    assert_eq!(session.registered(Ok(())), Ok(()));
    state.pause();
    for second in 0..5 {
        let write = SourceMessage::Event(event(WRITE, &["archive.json"], second));
        assert_eq!(session.receive(&state, &write), vec![]);
    }
    state.resume();
    let write = SourceMessage::Event(event(WRITE, &["archive.json"], 4));
    assert_eq!(session.receive(&state, &write), vec![WatchedFile::Archive]);
    assert_eq!(session.receive(&state, &write), vec![]);
}

#[test]
fn start_watcher_watches_or_fails_for_good() {
    let state = WatcherState::new();
    let mut session = start_watcher(Ok(())).unwrap();
    assert_eq!(session.phase(), WatcherPhase::Watching);
    let write = SourceMessage::Event(event(WatchEventKind::Create, &["pomodoro_history.json"], 3));
    assert_eq!(session.receive(&state, &write), vec![WatchedFile::PomodoroHistory]);
    match start_watcher(Err("inotify limit reached".to_string())) {
        Ok(_) => panic!("a watch that was not registered cannot watch"),
        Err(reason) => assert_eq!(reason, "inotify limit reached"),
    }
}
