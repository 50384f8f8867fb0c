use clips_app::capture::{
    ChildPoll, LaunchOutcome, OutputEntry, ReplaySettings, ReplayStorage, SaveOutcome, SavePlan,
    SignalNumbers,
};
use clips_app::clip::Destination;
use clips_app::failed_uploads::{FailedUpload, FailedUploadsList};
use clips_app::overlay::{
    CaptureActionPayload, CaptureSettingsPayload, CaptureStatusPayload, FailedUploadEntry,
};
use clips_app::session::{
    build_capture_status, detect_transition, failed_uploads_to_entries, merge_settings, mode_name,
    parse_mode, CaptureLoop, GameTransition, LoopEvent, Notice, Reply, Request, SessionStart, Turn,
    UploadOutcome, DETECTION_INTERVAL_SECONDS,
};
use clips_app::settings::{PersistedSettings, ReplayMode};

fn settings() -> ReplaySettings {
    ReplaySettings {
        binary: "/bin/rec".to_string(),
        target: "portal".to_string(),
        buffer_seconds: 300,
        bitrate: 60_000,
        fps: 60,
        audio_tracks: vec!["default_input".to_string()],
        restore_portal_session: false,
        replay_storage: ReplayStorage::Ram,
        output_dir: "/raw".to_string(),
    }
}

fn upload(title: &str, timestamp: u64) -> FailedUpload {
    FailedUpload::new(
        title.to_string(),
        "Quake".to_string(),
        format!("/done/{title}/{title} [Quake].mp4"),
        format!("/done/{title}/{title}_raw.mp4"),
        timestamp,
    )
}

fn uploads() -> FailedUploadsList {
    let mut list = FailedUploadsList::default();
    list.add(upload("one", 1));
    list.add(upload("two", 2));
    list
}

fn session_with(mode: ReplayMode, start_now: bool, list: FailedUploadsList) -> CaptureLoop {
    CaptureLoop::new(
        SessionStart { settings: settings(), mode, start_now },
        "Alt+X".to_string(),
        "/done".to_string(),
        SignalNumbers::new(34, 10).unwrap(),
        list,
    )
}

fn status(running: bool, message: Option<&str>, mode: &str) -> CaptureStatusPayload {
    CaptureStatusPayload {
        running,
        buffer_seconds: 300,
        bitrate: 60_000,
        fps: 60,
        target: "portal".to_string(),
        audio_tracks: vec!["default_input".to_string()],
        last_saved: None,
        hotkey: "Alt+X".to_string(),
        message: message.map(|m| m.to_string()),
        is_saving: false,
        failed_uploads: Vec::new(),
        replay_mode: mode.to_string(),
    }
}

fn ask(request: Request) -> Turn {
    Turn { notices: Vec::new(), request }
}

fn sent() -> Reply {
    Reply::Sent { error: None }
}

fn act(action: CaptureActionPayload) -> Reply {
    Reply::Event(LoopEvent::Action(action))
}

fn game(name: &str) -> Reply {
    Reply::Game { name: Some(name.to_string()) }
}

fn record(enabled: bool, mode: ReplayMode) -> Notice {
    Notice::SaveSettings(PersistedSettings::from_replay_settings(&settings(), mode, enabled))
}

/// A manual session that waits for an event, the recorder not running.
fn idle_manual(list: FailedUploadsList) -> CaptureLoop {
    let mut session = session_with(ReplayMode::Manual, false, list);
    let alive = ChildPoll::Alive;
    assert!(matches!(session.step(&alive, Reply::Begin).request, Request::ShowCapture(_)));
    assert_eq!(session.step(&alive, sent()), ask(Request::AwaitEvent { tick_seconds: 5 }));
    session
}

/// A manual session that waits for an event, the recorder running as process 100.
fn running_manual() -> CaptureLoop {
    let mut session = session_with(ReplayMode::Manual, true, FailedUploadsList::default());
    let alive = ChildPoll::Alive;
    assert!(matches!(session.step(&alive, Reply::Begin).request, Request::Launch(_)));
    let shown = session.step(&alive, Reply::Launched(LaunchOutcome::Started { pid: 100 }));
    assert!(matches!(shown.request, Request::ShowCapture(_)));
    assert_eq!(session.step(&alive, sent()), ask(Request::AwaitEvent { tick_seconds: 5 }));
    session
}

/// An automatic session that waits for an event, a game and the recorder (process 7) running.
fn running_auto() -> CaptureLoop {
    let mut session = session_with(ReplayMode::AutoWithGame, false, FailedUploadsList::default());
    let alive = ChildPoll::Alive;
    let _ = session.step(&alive, Reply::Begin);
    assert_eq!(session.step(&alive, sent()), ask(Request::DetectGame));
    assert!(matches!(session.step(&alive, game("Quake")).request, Request::Launch(_)));
    let pushed = session.step(&alive, Reply::Launched(LaunchOutcome::Started { pid: 7 }));
    assert!(matches!(pushed.request, Request::PushStatus(_)));
    assert_eq!(session.step(&alive, sent()), ask(Request::AwaitEvent { tick_seconds: 5 }));
    session
}

#[test]
fn manual_session_starts_the_recorder_at_once() {
    let mut session = session_with(ReplayMode::Manual, true, FailedUploadsList::default());
    let alive = ChildPoll::Alive;
    assert_eq!(session.mode(), ReplayMode::Manual);
    assert_eq!(
        session.step(&alive, Reply::Begin),
        ask(Request::Launch(settings().build_command()))
    );
    assert_eq!(
        session.step(&alive, Reply::Launched(LaunchOutcome::Started { pid: 100 })),
        ask(Request::ShowCapture(status(true, Some("Replay recorder started"), "manual")))
    );
    assert_eq!(session.controller().current_pid(), Some(100));
    assert_eq!(session.step(&alive, sent()), ask(Request::AwaitEvent { tick_seconds: 5 }));
    assert!(!session.is_finished());
}

#[test]
fn manual_session_can_start_idle() {
    let mut session = session_with(ReplayMode::Manual, false, FailedUploadsList::default());
    assert_eq!(
        session.step(&ChildPoll::Alive, Reply::Begin),
        ask(Request::ShowCapture(status(false, None, "manual")))
    );
    assert_eq!(session.step(&ChildPoll::Alive, sent()), ask(Request::AwaitEvent { tick_seconds: 5 }));
}

#[test]
fn missing_output_directory_at_startup_is_fatal() {
    let mut session = session_with(ReplayMode::Manual, true, FailedUploadsList::default());
    let alive = ChildPoll::Alive;
    let _ = session.step(&alive, Reply::Begin);
    assert_eq!(
        session.step(
            &alive,
            Reply::Launched(LaunchOutcome::DirectoryFailed { reason: "read-only".to_string() })
        ),
        ask(Request::Abort {
            reason: "creating replay output directory \"/raw\": read-only".to_string()
        })
    );
    assert!(session.is_finished());
}

#[test]
fn unknown_duration_is_flagged() {
    let mut session = running_manual();
    let alive = ChildPoll::Alive;
    let _ = session.step(&alive, act(CaptureActionPayload::Save { duration_secs: 45 }));
    assert_eq!(
        session.step(&alive, sent()),
        ask(Request::TriggerSave(SavePlan {
            pid: 100,
            signal: 10,
            grace_seconds: 2,
            fell_back: true
        }))
    );
}

#[test]
fn failed_start_is_reported_on_the_panel() {
    let mut session = session_with(ReplayMode::Manual, true, FailedUploadsList::default());
    let alive = ChildPoll::Alive;
    let _ = session.step(&alive, Reply::Begin);
    assert_eq!(
        session.step(
            &alive,
            Reply::Launched(LaunchOutcome::SpawnFailed { reason: "not found".to_string() })
        ),
        ask(Request::ShowCapture(status(
            false,
            Some("Failed to start replay: failed to spawn gpu-screen-recorder: not found"),
            "manual"
        )))
    );
}

#[test]
fn automatic_session_follows_the_game() {
    let mut session = session_with(ReplayMode::AutoWithGame, true, FailedUploadsList::default());
    let alive = ChildPoll::Alive;
    assert_eq!(
        session.step(&alive, Reply::Begin),
        ask(Request::ShowCapture(status(false, None, "auto")))
    );
    assert_eq!(session.step(&alive, sent()), ask(Request::DetectGame));
    // The game appears: exactly one launch.
    assert_eq!(
        session.step(&alive, game("Quake")),
        ask(Request::Launch(settings().build_command()))
    );
    assert_eq!(
        session.step(&alive, Reply::Launched(LaunchOutcome::Started { pid: 7 })),
        ask(Request::PushStatus(status(true, Some("Replay started (Quake)"), "auto")))
    );
    assert_eq!(session.step(&alive, sent()), ask(Request::AwaitEvent { tick_seconds: 5 }));
    // The game still runs: nothing happens.
    for _ in 0..3 {
        assert_eq!(session.step(&alive, Reply::Event(LoopEvent::Tick)), ask(Request::DetectGame));
        assert_eq!(session.step(&alive, game("Quake")), ask(Request::AwaitEvent { tick_seconds: 5 }));
        assert_eq!(session.controller().current_pid(), Some(7));
    }
    // The game vanishes: exactly one stop.
    assert_eq!(session.step(&alive, Reply::Event(LoopEvent::Tick)), ask(Request::DetectGame));
    assert_eq!(
        session.step(&alive, game("")),
        Turn {
            notices: vec![Notice::Interrupt { pid: 7 }],
            request: Request::PushStatus(status(
                false,
                Some("Replay stopped (game exited)"),
                "auto"
            )),
        }
    );
    assert_eq!(session.step(&alive, sent()), ask(Request::AwaitEvent { tick_seconds: 5 }));
    for _ in 0..3 {
        assert_eq!(session.step(&alive, Reply::Event(LoopEvent::Tick)), ask(Request::DetectGame));
        assert_eq!(session.step(&alive, game("")), ask(Request::AwaitEvent { tick_seconds: 5 }));
        assert_eq!(session.controller().current_pid(), None);
    }
    assert_eq!(DETECTION_INTERVAL_SECONDS, 5);
}

#[test]
fn failed_detection_counts_as_no_game() {
    let mut session = running_auto();
    let alive = ChildPoll::Alive;
    assert_eq!(session.step(&alive, Reply::Event(LoopEvent::Tick)), ask(Request::DetectGame));
    // A game counted as running: the failed look is the edge that stops the recorder.
    assert_eq!(
        session.step(&alive, Reply::Game { name: None }),
        Turn {
            notices: vec![Notice::Interrupt { pid: 7 }],
            request: Request::PushStatus(status(
                false,
                Some("Replay stopped (game exited)"),
                "auto"
            )),
        }
    );
    assert_eq!(session.controller().current_pid(), None);
    assert_eq!(session.step(&alive, sent()), ask(Request::AwaitEvent { tick_seconds: 5 }));
    // No game counts as running any more: a second failed look does nothing.
    assert_eq!(session.step(&alive, Reply::Event(LoopEvent::Tick)), ask(Request::DetectGame));
    assert_eq!(
        session.step(&alive, Reply::Game { name: None }),
        ask(Request::AwaitEvent { tick_seconds: 5 })
    );
    // The game is seen again: that is a new edge, and the recorder is started.
    assert_eq!(session.step(&alive, Reply::Event(LoopEvent::Tick)), ask(Request::DetectGame));
    assert!(matches!(session.step(&alive, game("Quake")).request, Request::Launch(_)));
}

#[test]
fn game_finds_the_recorder_running_already() {
    let mut session = running_manual();
    let alive = ChildPoll::Alive;
    assert_eq!(
        session.step(&alive, act(CaptureActionPayload::UpdateMode { mode: "auto".to_string() })),
        ask(Request::DetectGame)
    );
    assert_eq!(session.mode(), ReplayMode::AutoWithGame);
    assert_eq!(
        session.step(&alive, game("Doom")),
        Turn {
            notices: vec![record(true, ReplayMode::AutoWithGame)],
            request: Request::PushStatus(status(true, Some("Replay started (Doom)"), "auto")),
        }
    );
    assert_eq!(session.controller().current_pid(), Some(100));
}

#[test]
fn failed_launch_for_a_game_is_not_tried_again() {
    for outcome in [
        LaunchOutcome::SpawnFailed { reason: "denied".to_string() },
        LaunchOutcome::DirectoryFailed { reason: "denied".to_string() },
    ] {
        let mut session =
            session_with(ReplayMode::AutoWithGame, false, FailedUploadsList::default());
        let alive = ChildPoll::Alive;
        let _ = session.step(&alive, Reply::Begin);
        let _ = session.step(&alive, sent());
        assert!(matches!(session.step(&alive, game("Quake")).request, Request::Launch(_)));
        let turn = session.step(&alive, Reply::Launched(outcome));
        match turn.request {
            Request::PushStatus(payload) => {
                assert!(!payload.running);
                assert!(payload.message.unwrap().starts_with("Failed to start replay: "));
            }
            other => panic!("unexpected request {other:?}"),
        }
        let _ = session.step(&alive, sent());
        // The game still runs: the start that failed is not tried again.
        for _ in 0..3 {
            let _ = session.step(&alive, Reply::Event(LoopEvent::Tick));
            assert_eq!(
                session.step(&alive, game("Quake")),
                ask(Request::AwaitEvent { tick_seconds: 5 })
            );
            assert_eq!(session.controller().current_pid(), None);
        }
        // The game goes and comes back: that is a new edge.
        let _ = session.step(&alive, Reply::Event(LoopEvent::Tick));
        let gone = session.step(&alive, game(""));
        assert!(gone.notices.is_empty());
        assert!(matches!(gone.request, Request::PushStatus(_)));
        let _ = session.step(&alive, sent());
        let _ = session.step(&alive, Reply::Event(LoopEvent::Tick));
        assert!(matches!(session.step(&alive, game("Quake")).request, Request::Launch(_)));
    }
}

#[test]
fn game_that_returns_is_a_new_edge() {
    let mut session = running_auto();
    let alive = ChildPoll::Alive;
    // The game goes and the recorder is let go; then another game is seen.
    let _ = session.step(&alive, Reply::Event(LoopEvent::Tick));
    let _ = session.step(&alive, game(""));
    let _ = session.step(&alive, sent());
    let _ = session.step(&alive, Reply::Event(LoopEvent::Tick));
    assert!(matches!(session.step(&alive, game("Doom")).request, Request::Launch(_)));
    let _ = session.step(&alive, Reply::Launched(LaunchOutcome::Started { pid: 8 }));
    let _ = session.step(&alive, sent());
    let _ = session.step(&alive, Reply::Event(LoopEvent::Tick));
    assert_eq!(session.step(&alive, game("Doom")), ask(Request::AwaitEvent { tick_seconds: 5 }));
    assert_eq!(session.controller().current_pid(), Some(8));
}

#[test]
fn manual_tick_does_nothing() {
    let mut session = running_manual();
    let alive = ChildPoll::Alive;
    assert_eq!(session.step(&alive, Reply::Event(LoopEvent::Tick)), ask(Request::AwaitEvent { tick_seconds: 5 }));
    assert_eq!(session.controller().current_pid(), Some(100));
}

#[test]
fn toggle_starts_and_stops_in_manual_mode() {
    let mut session = idle_manual(FailedUploadsList::default());
    let alive = ChildPoll::Alive;
    assert_eq!(
        session.step(&alive, act(CaptureActionPayload::Toggle { enable: true })),
        ask(Request::Launch(settings().build_command()))
    );
    assert_eq!(
        session.step(&alive, Reply::Launched(LaunchOutcome::Started { pid: 31 })),
        Turn {
            notices: vec![record(true, ReplayMode::Manual)],
            request: Request::PushStatus(status(true, Some("Replay recorder started"), "manual")),
        }
    );
    assert_eq!(session.step(&alive, sent()), ask(Request::AwaitEvent { tick_seconds: 5 }));
    // A second switch-on finds the recorder running: no second launch.
    assert_eq!(
        session.step(&alive, act(CaptureActionPayload::Toggle { enable: true })),
        Turn {
            notices: vec![record(true, ReplayMode::Manual)],
            request: Request::PushStatus(status(true, Some("Replay recorder started"), "manual")),
        }
    );
    assert_eq!(session.controller().current_pid(), Some(31));
    assert_eq!(session.step(&alive, sent()), ask(Request::AwaitEvent { tick_seconds: 5 }));
    assert_eq!(
        session.step(&alive, act(CaptureActionPayload::Toggle { enable: false })),
        Turn {
            notices: vec![Notice::Interrupt { pid: 31 }, record(false, ReplayMode::Manual)],
            request: Request::PushStatus(status(false, Some("Replay recorder stopped"), "manual")),
        }
    );
    assert_eq!(session.step(&alive, sent()), ask(Request::AwaitEvent { tick_seconds: 5 }));
    // Switching off again lets nothing go.
    assert_eq!(
        session.step(&alive, act(CaptureActionPayload::Toggle { enable: false })),
        Turn {
            notices: vec![record(false, ReplayMode::Manual)],
            request: Request::PushStatus(status(false, Some("Replay recorder stopped"), "manual")),
        }
    );
}

#[test]
fn failed_toggle_is_reported() {
    let mut session = idle_manual(FailedUploadsList::default());
    let alive = ChildPoll::Alive;
    let _ = session.step(&alive, act(CaptureActionPayload::Toggle { enable: true }));
    assert_eq!(
        session.step(
            &alive,
            Reply::Launched(LaunchOutcome::SpawnFailed { reason: "boom".to_string() })
        ),
        Turn {
            notices: vec![record(true, ReplayMode::Manual)],
            request: Request::PushStatus(status(
                false,
                Some("Failed to enable replay: failed to spawn gpu-screen-recorder: boom"),
                "manual"
            )),
        }
    );
}

#[test]
fn toggle_is_not_honoured_in_automatic_mode() {
    let mut session = running_auto();
    let alive = ChildPoll::Alive;
    for enable in [false, true] {
        assert_eq!(
            session.step(&alive, act(CaptureActionPayload::Toggle { enable })),
            ask(Request::PushStatus(status(true, Some("Toggle disabled in auto mode"), "auto")))
        );
        assert_eq!(session.controller().current_pid(), Some(7));
        assert_eq!(session.step(&alive, sent()), ask(Request::AwaitEvent { tick_seconds: 5 }));
    }
}

#[test]
fn save_hands_the_clip_over() {
    let mut session = running_manual();
    let alive = ChildPoll::Alive;
    let mut saving = status(true, Some("Saving replay clip..."), "manual");
    saving.is_saving = true;
    assert_eq!(
        session.step(&alive, act(CaptureActionPayload::Save { duration_secs: 30 })),
        ask(Request::PushStatus(saving))
    );
    assert_eq!(
        session.step(&alive, sent()),
        ask(Request::TriggerSave(SavePlan { pid: 100, signal: 36, grace_seconds: 2, fell_back: false }))
    );
    let entries = vec![
        OutputEntry { path: "/raw/old.mp4".to_string(), is_file: true, modified: Some(10) },
        OutputEntry { path: "/raw/new.mp4".to_string(), is_file: true, modified: Some(20) },
    ];
    assert_eq!(
        session.step(&alive, Reply::Saved(SaveOutcome::Scanned { entries })),
        ask(Request::SetVisible { visible: true })
    );
    let mut saved = status(true, Some("Replay saved"), "manual");
    saved.last_saved = Some("/raw/new.mp4".to_string());
    assert_eq!(session.step(&alive, sent()), ask(Request::PushStatus(saved)));
    assert_eq!(
        session.controller().snapshot().message,
        Some("Processing clip\u{2026}".to_string())
    );
    assert_eq!(
        session.step(&alive, sent()),
        ask(Request::ProcessClip { path: "/raw/new.mp4".to_string() })
    );
    // The pipeline is done, whatever came of it: the session goes on.
    assert_eq!(
        session.step(&alive, Reply::ClipDone { failed_upload: None }),
        ask(Request::PushStatus(status(true, Some("Replay recorder ready"), "manual")))
    );
    assert_eq!(
        session.step(&alive, sent()),
        ask(Request::ShowCapture(status(true, Some("Replay recorder ready"), "manual")))
    );
    assert_eq!(session.step(&alive, sent()), ask(Request::AwaitEvent { tick_seconds: 5 }));
}

#[test]
fn save_of_the_whole_buffer() {
    let mut session = running_manual();
    let alive = ChildPoll::Alive;
    let _ = session.step(&alive, act(CaptureActionPayload::Save { duration_secs: 0 }));
    assert_eq!(
        session.step(&alive, sent()),
        ask(Request::TriggerSave(SavePlan { pid: 100, signal: 10, grace_seconds: 2, fell_back: false }))
    );
}

#[test]
fn save_without_recorder_names_the_cause() {
    let mut session = idle_manual(FailedUploadsList::default());
    let alive = ChildPoll::Alive;
    let mut saving = status(false, Some("Saving replay clip..."), "manual");
    saving.is_saving = true;
    assert_eq!(
        session.step(&alive, act(CaptureActionPayload::Save { duration_secs: 30 })),
        ask(Request::PushStatus(saving))
    );
    assert_eq!(
        session.step(&alive, sent()),
        ask(Request::PushStatus(status(false, Some("Saving replay clip..."), "manual")))
    );
    assert_eq!(
        session.step(&alive, sent()),
        ask(Request::PushStatus(status(
            false,
            Some("Save failed: replay recorder is not running"),
            "manual"
        )))
    );
    assert_eq!(session.step(&alive, sent()), ask(Request::AwaitEvent { tick_seconds: 5 }));
}

#[test]
fn save_that_wrote_nothing_is_reported() {
    let mut session = running_manual();
    let alive = ChildPoll::Alive;
    let _ = session.step(&alive, act(CaptureActionPayload::Save { duration_secs: 60 }));
    assert_eq!(
        session.step(&alive, sent()),
        ask(Request::TriggerSave(SavePlan { pid: 100, signal: 37, grace_seconds: 2, fell_back: false }))
    );
    assert_eq!(
        session.step(&alive, Reply::Saved(SaveOutcome::Scanned { entries: Vec::new() })),
        ask(Request::PushStatus(status(true, Some("Saving replay clip..."), "manual")))
    );
    assert_eq!(
        session.step(&alive, sent()),
        ask(Request::PushStatus(status(true, Some("No new replay file generated"), "manual")))
    );
    assert_eq!(session.step(&alive, sent()), ask(Request::AwaitEvent { tick_seconds: 5 }));
}

#[test]
fn save_whose_signal_failed_is_reported() {
    let mut session = running_manual();
    let alive = ChildPoll::Alive;
    let _ = session.step(&alive, act(CaptureActionPayload::Save { duration_secs: 60 }));
    let _ = session.step(&alive, sent());
    let _ = session
        .step(&alive, Reply::Saved(SaveOutcome::SignalFailed { reason: "ESRCH".to_string() }));
    assert_eq!(
        session.step(&alive, sent()),
        ask(Request::PushStatus(status(
            true,
            Some("Save failed: failed to signal gpu-screen-recorder: ESRCH"),
            "manual"
        )))
    );
}

#[test]
fn failed_upload_of_a_clip_is_listed() {
    let mut session = running_manual();
    let alive = ChildPoll::Alive;
    let _ = session.step(&alive, act(CaptureActionPayload::Save { duration_secs: 0 }));
    let _ = session.step(&alive, sent());
    let entries =
        vec![OutputEntry { path: "/raw/a.mp4".to_string(), is_file: true, modified: Some(1) }];
    let _ = session.step(&alive, Reply::Saved(SaveOutcome::Scanned { entries }));
    let _ = session.step(&alive, sent());
    let _ = session.step(&alive, sent());
    let mut list = FailedUploadsList::default();
    list.add(upload("one", 1));
    let mut expected = status(true, Some("Replay recorder ready"), "manual");
    expected.failed_uploads = vec![FailedUploadEntry {
        id: "1-one".to_string(),
        display_name: "one [Quake]".to_string(),
    }];
    assert_eq!(
        session.step(&alive, Reply::ClipDone { failed_upload: Some(upload("one", 1)) }),
        Turn {
            notices: vec![Notice::SaveFailedUploads(list.clone())],
            request: Request::PushStatus(expected),
        }
    );
    assert_eq!(session.failed_uploads(), &list);
}

#[test]
fn same_mode_twice_has_no_side_effect() {
    let mut session = running_manual();
    let alive = ChildPoll::Alive;
    for _ in 0..2 {
        assert_eq!(
            session
                .step(&alive, act(CaptureActionPayload::UpdateMode { mode: "manual".to_string() })),
            ask(Request::PushStatus(status(true, Some("Replay recorder started"), "manual")))
        );
        assert_eq!(session.controller().current_pid(), Some(100));
        assert_eq!(session.step(&alive, sent()), ask(Request::AwaitEvent { tick_seconds: 5 }));
    }
    let mut session = running_auto();
    for _ in 0..2 {
        assert_eq!(
            session.step(&alive, act(CaptureActionPayload::UpdateMode { mode: "auto".to_string() })),
            ask(Request::PushStatus(status(true, Some("Replay started (Quake)"), "auto")))
        );
        assert_eq!(session.controller().current_pid(), Some(7));
        assert_eq!(session.step(&alive, sent()), ask(Request::AwaitEvent { tick_seconds: 5 }));
    }
    // The game's exit is still noticed: the look before was not forgotten.
    let _ = session.step(&alive, Reply::Event(LoopEvent::Tick));
    assert_eq!(session.step(&alive, game("")).notices, vec![Notice::Interrupt { pid: 7 }]);
}

#[test]
fn manual_mode_always_stops_the_recorder() {
    let mut session = running_auto();
    let alive = ChildPoll::Alive;
    assert_eq!(
        session.step(&alive, act(CaptureActionPayload::UpdateMode { mode: "manual".to_string() })),
        Turn {
            notices: vec![Notice::Interrupt { pid: 7 }, record(false, ReplayMode::Manual)],
            request: Request::PushStatus(status(false, Some("Manual mode enabled"), "manual")),
        }
    );
    assert_eq!(session.mode(), ReplayMode::Manual);
    assert_eq!(session.controller().current_pid(), None);
}

#[test]
fn any_other_word_means_manual_mode() {
    let mut session = running_auto();
    let turn = session.step(
        &ChildPoll::Alive,
        act(CaptureActionPayload::UpdateMode { mode: "Auto".to_string() }),
    );
    assert_eq!(turn.notices[0], Notice::Interrupt { pid: 7 });
    assert_eq!(session.mode(), ReplayMode::Manual);
}

#[test]
fn automatic_mode_looks_for_a_game_at_once() {
    let mut session = idle_manual(FailedUploadsList::default());
    let alive = ChildPoll::Alive;
    assert_eq!(
        session.step(&alive, act(CaptureActionPayload::UpdateMode { mode: "auto".to_string() })),
        ask(Request::DetectGame)
    );
    assert_eq!(
        session.controller().snapshot().message,
        Some("Auto mode enabled".to_string())
    );
    // No game: the mode is written down with the recorder not running.
    assert_eq!(
        session.step(&alive, game("")),
        Turn {
            notices: vec![record(false, ReplayMode::AutoWithGame)],
            request: Request::PushStatus(status(false, Some("Auto mode enabled"), "auto")),
        }
    );
}

#[test]
fn automatic_mode_starts_for_a_running_game() {
    let mut session = idle_manual(FailedUploadsList::default());
    let alive = ChildPoll::Alive;
    let _ = session
        .step(&alive, act(CaptureActionPayload::UpdateMode { mode: "auto".to_string() }));
    assert!(matches!(session.step(&alive, game("Doom")).request, Request::Launch(_)));
    assert_eq!(
        session.step(&alive, Reply::Launched(LaunchOutcome::Started { pid: 55 })),
        Turn {
            notices: vec![record(true, ReplayMode::AutoWithGame)],
            request: Request::PushStatus(status(true, Some("Replay started (Doom)"), "auto")),
        }
    );
}

#[test]
fn settings_are_merged_and_stored() {
    let mut session = idle_manual(FailedUploadsList::default());
    let alive = ChildPoll::Alive;
    let request = CaptureSettingsPayload {
        buffer_seconds: 120,
        bitrate: 0,
        fps: 30,
        target: "  ".to_string(),
        audio_tracks: Vec::new(),
    };
    let mut merged = settings();
    merged.buffer_seconds = 120;
    merged.bitrate = 0;
    merged.fps = 30;
    let mut expected = status(false, Some("Settings updated"), "manual");
    expected.buffer_seconds = 120;
    expected.bitrate = 60_000;
    expected.fps = 30;
    assert_eq!(
        session.step(&alive, act(CaptureActionPayload::UpdateSettings { settings: request })),
        Turn {
            notices: vec![Notice::SaveSettings(PersistedSettings::from_replay_settings(
                &merged,
                ReplayMode::Manual,
                false
            ))],
            request: Request::PushStatus(expected),
        }
    );
    assert_eq!(session.controller().settings().bitrate, 60_000);
}

#[test]
fn settings_restart_a_running_recorder() {
    let mut session = running_manual();
    let alive = ChildPoll::Alive;
    let request = CaptureSettingsPayload {
        buffer_seconds: 60,
        bitrate: 8_000,
        fps: 30,
        target: "screen".to_string(),
        audio_tracks: vec!["mic".to_string()],
    };
    let mut merged = settings();
    merged.buffer_seconds = 60;
    merged.bitrate = 8_000;
    merged.fps = 30;
    merged.target = "screen".to_string();
    merged.audio_tracks = vec!["mic".to_string()];
    assert_eq!(
        session.step(&alive, act(CaptureActionPayload::UpdateSettings { settings: request })),
        Turn {
            notices: vec![Notice::Interrupt { pid: 100 }],
            request: Request::Launch(merged.build_command()),
        }
    );
    assert_eq!(session.controller().current_pid(), None);
    let turn = session.step(&alive, Reply::Launched(LaunchOutcome::Started { pid: 101 }));
    assert_eq!(
        turn.notices,
        vec![Notice::SaveSettings(PersistedSettings::from_replay_settings(
            &merged,
            ReplayMode::Manual,
            true
        ))]
    );
    match turn.request {
        Request::PushStatus(payload) => {
            assert!(payload.running);
            assert_eq!(payload.message, Some("Settings updated".to_string()));
            assert_eq!(payload.target, "screen");
            assert_eq!(payload.audio_tracks, vec!["mic".to_string()]);
            assert_eq!((payload.buffer_seconds, payload.bitrate, payload.fps), (60, 8_000, 30));
        }
        other => panic!("unexpected request {other:?}"),
    }
    assert_eq!(session.controller().current_pid(), Some(101));
}

#[test]
fn failed_restart_is_reported() {
    let mut session = running_manual();
    let alive = ChildPoll::Alive;
    let request = CaptureSettingsPayload {
        buffer_seconds: 60,
        bitrate: 8_000,
        fps: 30,
        target: String::new(),
        audio_tracks: Vec::new(),
    };
    let _ = session.step(&alive, act(CaptureActionPayload::UpdateSettings { settings: request }));
    let turn = session
        .step(&alive, Reply::Launched(LaunchOutcome::SpawnFailed { reason: "gone".to_string() }));
    assert!(turn.notices.is_empty());
    match turn.request {
        Request::PushStatus(payload) => {
            assert!(!payload.running);
            assert_eq!(
                payload.message,
                Some("Apply failed: failed to spawn gpu-screen-recorder: gone".to_string())
            );
        }
        other => panic!("unexpected request {other:?}"),
    }
}

#[test]
fn ignore_removes_only_the_record() {
    let mut session = idle_manual(uploads());
    let mut rest = FailedUploadsList::default();
    rest.add(upload("two", 2));
    let turn = session.step(
        &ChildPoll::Alive,
        act(CaptureActionPayload::FailedUpload {
            upload_action: "ignore".to_string(),
            id: "1-one".to_string(),
        }),
    );
    assert_eq!(turn.notices, vec![Notice::SaveFailedUploads(rest.clone())]);
    assert_eq!(session.failed_uploads(), &rest);
    match turn.request {
        Request::PushStatus(payload) => {
            assert_eq!(payload.message, Some("Upload removed from list".to_string()));
            assert_eq!(payload.failed_uploads, failed_uploads_to_entries(&rest));
        }
        other => panic!("unexpected request {other:?}"),
    }
}

#[test]
fn discard_removes_the_record_and_both_files() {
    let mut session = idle_manual(uploads());
    let mut rest = FailedUploadsList::default();
    rest.add(upload("one", 1));
    let turn = session.step(
        &ChildPoll::Alive,
        act(CaptureActionPayload::FailedUpload {
            upload_action: "discard".to_string(),
            id: "2-two".to_string(),
        }),
    );
    assert_eq!(
        turn.notices,
        vec![
            Notice::DeleteFiles {
                processed_path: "/done/two/two [Quake].mp4".to_string(),
                full_path: "/done/two/two_raw.mp4".to_string(),
            },
            Notice::SaveFailedUploads(rest.clone()),
        ]
    );
    assert_eq!(session.failed_uploads(), &rest);
    assert_eq!(
        session.controller().snapshot().message,
        Some("Upload discarded".to_string())
    );
}

#[test]
fn discard_of_an_unknown_record_does_nothing() {
    let mut session = idle_manual(uploads());
    let turn = session.step(
        &ChildPoll::Alive,
        act(CaptureActionPayload::FailedUpload {
            upload_action: "discard".to_string(),
            id: "3-three".to_string(),
        }),
    );
    assert!(turn.notices.is_empty());
    assert_eq!(session.failed_uploads(), &uploads());
    assert_eq!(session.controller().snapshot().message, None);
}

#[test]
fn retry_that_succeeds_removes_the_record_and_moves_the_files() {
    let mut session = idle_manual(uploads());
    let alive = ChildPoll::Alive;
    assert_eq!(
        session.step(
            &alive,
            act(CaptureActionPayload::FailedUpload {
                upload_action: "retry".to_string(),
                id: "1-one".to_string(),
            })
        ),
        ask(Request::RetryUpload(upload("one", 1)))
    );
    assert_eq!(session.failed_uploads(), &uploads());
    assert_eq!(
        session.controller().snapshot().message,
        Some("Retrying upload...".to_string())
    );
    let mut rest = FailedUploadsList::default();
    rest.add(upload("two", 2));
    let turn = session.step(
        &alive,
        Reply::Upload(UploadOutcome::Uploaded { video_id: "dQw4w9WgXcQ".to_string() }),
    );
    assert_eq!(
        turn.notices,
        vec![
            Notice::Relocate {
                upload: upload("one", 1),
                video_id: "dQw4w9WgXcQ".to_string(),
                destination: Destination {
                    dir: "/done/one [Quake] [dQw4w9WgXcQ]".to_string(),
                    processed: "/done/one [Quake] [dQw4w9WgXcQ]/one [Quake] [dQw4w9WgXcQ].mp4"
                        .to_string(),
                    raw: "/done/one [Quake] [dQw4w9WgXcQ]/one_raw.mp4".to_string(),
                },
            },
            Notice::SaveFailedUploads(rest.clone()),
        ]
    );
    assert_eq!(session.failed_uploads(), &rest);
    assert_eq!(
        session.controller().snapshot().message,
        Some("Retry successful!".to_string())
    );
}

#[test]
fn retry_that_fails_keeps_the_record() {
    let alive = ChildPoll::Alive;
    for (outcome, message) in [
        (UploadOutcome::NoVideoId, "Retry failed: no video id"),
        (UploadOutcome::Failed { reason: "quota".to_string() }, "Retry failed: quota"),
    ] {
        let mut session = idle_manual(uploads());
        let _ = session.step(
            &alive,
            act(CaptureActionPayload::FailedUpload {
                upload_action: "retry".to_string(),
                id: "2-two".to_string(),
            }),
        );
        let turn = session.step(&alive, Reply::Upload(outcome));
        assert!(turn.notices.is_empty());
        assert_eq!(session.failed_uploads(), &uploads());
        assert_eq!(session.controller().snapshot().message, Some(message.to_string()));
    }
}

#[test]
fn unknown_upload_action_only_sends_the_status() {
    let mut session = idle_manual(uploads());
    let turn = session.step(
        &ChildPoll::Alive,
        act(CaptureActionPayload::FailedUpload {
            upload_action: "explode".to_string(),
            id: "1-one".to_string(),
        }),
    );
    assert!(turn.notices.is_empty());
    assert!(matches!(turn.request, Request::PushStatus(_)));
    assert_eq!(session.failed_uploads(), &uploads());
}

#[test]
fn closed_stream_ends_the_session() {
    let mut session = running_manual();
    let alive = ChildPoll::Alive;
    assert_eq!(session.step(&alive, Reply::Event(LoopEvent::Closed)), ask(Request::Exit));
    assert!(session.is_finished());
    assert_eq!(
        session.step(&alive, Reply::Event(LoopEvent::Tick)),
        ask(Request::Abort { reason: "reply does not answer the request".to_string() })
    );
    assert!(session.is_finished());
}

#[test]
fn unreadable_message_does_not_end_the_session() {
    let mut session = running_manual();
    let alive = ChildPoll::Alive;
    assert_eq!(
        session.step(
            &alive,
            Reply::Event(LoopEvent::ReceiveFailed { reason: "expected value at line 1".to_string() })
        ),
        ask(Request::PushStatus(status(
            true,
            Some("Overlay message rejected: expected value at line 1"),
            "manual"
        )))
    );
    assert_eq!(session.step(&alive, sent()), ask(Request::AwaitEvent { tick_seconds: 5 }));
    assert!(!session.is_finished());
}

#[test]
fn answer_of_the_wrong_kind_ends_the_session() {
    let mut session = session_with(ReplayMode::Manual, false, FailedUploadsList::default());
    assert_eq!(
        session.step(&ChildPoll::Alive, sent()),
        ask(Request::Abort { reason: "reply does not answer the request".to_string() })
    );
    assert!(session.is_finished());
}

#[test]
fn panel_that_cannot_be_reached_ends_the_session() {
    let mut session = session_with(ReplayMode::Manual, false, FailedUploadsList::default());
    let alive = ChildPoll::Alive;
    let _ = session.step(&alive, Reply::Begin);
    assert_eq!(
        session.step(&alive, Reply::Sent { error: Some("Broken pipe".to_string()) }),
        ask(Request::Abort { reason: "failed to show capture panel: Broken pipe".to_string() })
    );
    let mut session = running_manual();
    let _ = session.step(&alive, act(CaptureActionPayload::Toggle { enable: true }));
    assert_eq!(
        session.step(&alive, Reply::Sent { error: Some("Broken pipe".to_string()) }),
        ask(Request::Abort { reason: "failed to update capture status: Broken pipe".to_string() })
    );
    let mut session = running_manual();
    let _ = session.step(&alive, act(CaptureActionPayload::Save { duration_secs: 10 }));
    assert_eq!(
        session.step(&alive, Reply::Sent { error: Some("Broken pipe".to_string()) }),
        ask(Request::Abort { reason: "failed to update saving status: Broken pipe".to_string() })
    );
}

#[test]
fn look_that_failed_ends_the_session() {
    let mut session = running_manual();
    let failed = ChildPoll::Failed { reason: "ECHILD".to_string() };
    assert_eq!(
        session.step(&failed, act(CaptureActionPayload::Toggle { enable: true })),
        Turn {
            notices: vec![record(true, ReplayMode::Manual)],
            request: Request::Abort { reason: "ECHILD".to_string() },
        }
    );
    assert!(session.is_finished());
}

#[test]
fn exit_of_the_recorder_is_noticed_with_the_next_status() {
    let mut session = running_manual();
    let exited = ChildPoll::Exited { status: "exit status: 1".to_string() };
    assert_eq!(
        session.step(&exited, act(CaptureActionPayload::UpdateMode { mode: "manual".to_string() })),
        ask(Request::PushStatus(status(
            false,
            Some("Replay recorder exited: exit status: 1"),
            "manual"
        )))
    );
    assert_eq!(session.controller().current_pid(), None);
}

#[test]
fn mode_words() {
    assert_eq!(mode_name(ReplayMode::Manual), "manual");
    assert_eq!(mode_name(ReplayMode::AutoWithGame), "auto");
    assert_eq!(parse_mode("auto"), ReplayMode::AutoWithGame);
    assert_eq!(parse_mode("manual"), ReplayMode::Manual);
    assert_eq!(parse_mode(""), ReplayMode::Manual);
    assert_eq!(parse_mode("AUTO"), ReplayMode::Manual);
    for mode in [ReplayMode::Manual, ReplayMode::AutoWithGame] {
        assert_eq!(parse_mode(mode_name(mode)), mode);
    }
}

#[test]
fn game_edges() {
    assert_eq!(detect_transition(false, true), GameTransition::Appeared);
    assert_eq!(detect_transition(true, true), GameTransition::Steady);
    assert_eq!(detect_transition(true, false), GameTransition::Vanished);
    assert_eq!(detect_transition(false, false), GameTransition::Steady);
}

#[test]
fn merge_takes_numbers_always_and_texts_when_given() {
    let current = settings();
    let request = CaptureSettingsPayload {
        buffer_seconds: 0,
        bitrate: 1,
        fps: 2,
        target: "\t".to_string(),
        audio_tracks: Vec::new(),
    };
    let merged = merge_settings(&current, &request);
    assert_eq!((merged.buffer_seconds, merged.bitrate, merged.fps), (0, 1, 2));
    assert_eq!(merged.target, "portal");
    assert_eq!(merged.audio_tracks, vec!["default_input".to_string()]);
    assert_eq!(merged.binary, "/bin/rec");
    assert_eq!(merged.output_dir, "/raw");
    let request = CaptureSettingsPayload {
        buffer_seconds: 9,
        bitrate: 9,
        fps: 9,
        target: " window ".to_string(),
        audio_tracks: vec![String::new()],
    };
    let merged = merge_settings(&current, &request);
    assert_eq!(merged.target, " window ");
    assert_eq!(merged.audio_tracks, vec![String::new()]);
}

#[test]
fn capture_status_is_built_from_all_parts() {
    let mut session = running_manual();
    let _ = session.step(&ChildPoll::Alive, act(CaptureActionPayload::Toggle { enable: true }));
    let snapshot = session.controller().snapshot();
    let payload = build_capture_status(&snapshot, "Ctrl+S", &uploads(), ReplayMode::AutoWithGame);
    assert_eq!(
        payload,
        CaptureStatusPayload {
            running: true,
            buffer_seconds: 300,
            bitrate: 60_000,
            fps: 60,
            target: "portal".to_string(),
            audio_tracks: vec!["default_input".to_string()],
            last_saved: None,
            hotkey: "Ctrl+S".to_string(),
            message: Some("Replay recorder started".to_string()),
            is_saving: false,
            failed_uploads: vec![
                FailedUploadEntry {
                    id: "1-one".to_string(),
                    display_name: "one [Quake]".to_string()
                },
                FailedUploadEntry {
                    id: "2-two".to_string(),
                    display_name: "two [Quake]".to_string()
                },
            ],
            replay_mode: "auto".to_string(),
        }
    );
}

/// A small generator of numbers that gives the same run every time.
struct Dice(u64);

impl Dice {
    fn roll(&mut self, sides: u64) -> u64 {
        self.0 = self.0.wrapping_mul(6364136223846793005).wrapping_add(1442695040888963407);
        (self.0 >> 33) % sides
    }
}

fn random_action(dice: &mut Dice) -> CaptureActionPayload {
    match dice.roll(6) {
        0 => CaptureActionPayload::Toggle { enable: dice.roll(2) == 0 },
        1 => CaptureActionPayload::Save { duration_secs: [0, 30, 60, 45][dice.roll(4) as usize] },
        2 => CaptureActionPayload::UpdateSettings {
            settings: CaptureSettingsPayload {
                buffer_seconds: dice.roll(3) as u32 * 60,
                bitrate: dice.roll(3) as u32 * 1000,
                fps: dice.roll(3) as u32 * 30,
                target: ["", "screen", "portal"][dice.roll(3) as usize].to_string(),
                audio_tracks: vec![["", "mic"][dice.roll(2) as usize].to_string()],
            },
        },
        3 => CaptureActionPayload::UpdateMode {
            mode: ["auto", "manual"][dice.roll(2) as usize].to_string(),
        },
        _ => CaptureActionPayload::FailedUpload {
            upload_action: ["retry", "ignore", "discard", "other"][dice.roll(4) as usize]
                .to_string(),
            id: format!("{}-clip", dice.roll(40)),
        },
    }
}

#[test]
fn there_is_never_a_second_recorder() {
    for seed in 1..=8u64 {
        let mut dice = Dice(seed);
        let mode = if seed % 2 == 0 { ReplayMode::Manual } else { ReplayMode::AutoWithGame };
        let mut session = session_with(mode, seed % 3 == 0, FailedUploadsList::default());
        let mut live: Option<u32> = None;
        let mut next_pid = 1000u32;
        let mut next_upload = 0u64;
        let mut reply = Reply::Begin;
        let mut launches = 0;
        for _ in 0..4000 {
            // Now and then the recorder dies of its own accord.
            let poll = if live.is_some() && dice.roll(50) == 0 {
                live = None;
                ChildPoll::Exited { status: "killed".to_string() }
            } else if live.is_none() && session.controller().is_running() {
                ChildPoll::Exited { status: "killed".to_string() }
            } else {
                ChildPoll::Alive
            };
            let turn = session.step(&poll, reply);
            for notice in &turn.notices {
                if let Notice::Interrupt { pid } = notice {
                    // Only the process that runs is ever let go, unless it died before.
                    assert!(live.is_none() || live == Some(*pid));
                    live = None;
                }
            }
            reply = match turn.request {
                Request::Launch(command) => {
                    assert_eq!(live, None, "a recorder is launched while another runs");
                    assert_eq!(session.controller().current_pid(), None);
                    assert_eq!(command.program, "/bin/rec");
                    launches += 1;
                    if dice.roll(5) == 0 {
                        Reply::Launched(LaunchOutcome::SpawnFailed { reason: "no".to_string() })
                    } else {
                        next_pid += 1;
                        live = Some(next_pid);
                        Reply::Launched(LaunchOutcome::Started { pid: next_pid })
                    }
                }
                Request::TriggerSave(plan) => {
                    assert_eq!(Some(plan.pid), session.controller().current_pid());
                    let entries = if dice.roll(2) == 0 {
                        Vec::new()
                    } else {
                        vec![OutputEntry {
                            path: "/raw/clip.mp4".to_string(),
                            is_file: true,
                            modified: Some(1),
                        }]
                    };
                    Reply::Saved(SaveOutcome::Scanned { entries })
                }
                Request::ShowCapture(status) | Request::PushStatus(status) => {
                    assert_eq!(status.running, session.controller().is_running());
                    assert_eq!(status.replay_mode, mode_name(session.mode()));
                    assert_eq!(status.failed_uploads.len(), session.failed_uploads().uploads.len());
                    sent()
                }
                Request::SetVisible { .. } => sent(),
                Request::DetectGame => {
                    assert_eq!(session.mode(), ReplayMode::AutoWithGame);
                    match dice.roll(4) {
                        0 => Reply::Game { name: None },
                        1 => game(""),
                        _ => game("Quake"),
                    }
                }
                Request::RetryUpload(_) => Reply::Upload(match dice.roll(3) {
                    0 => UploadOutcome::Uploaded { video_id: "v".to_string() },
                    1 => UploadOutcome::NoVideoId,
                    _ => UploadOutcome::Failed { reason: "no".to_string() },
                }),
                Request::AwaitEvent { tick_seconds } => {
                    assert_eq!(tick_seconds, 5);
                    if dice.roll(3) == 0 {
                        Reply::Event(LoopEvent::Tick)
                    } else {
                        act(random_action(&mut dice))
                    }
                }
                Request::ProcessClip { path } => {
                    assert_eq!(path, "/raw/clip.mp4");
                    next_upload += 1;
                    let failed_upload = if dice.roll(2) == 0 {
                        None
                    } else {
                        Some(FailedUpload::new(
                            "clip".to_string(),
                            String::new(),
                            "/done/a".to_string(),
                            "/done/b".to_string(),
                            next_upload % 40,
                        ))
                    };
                    Reply::ClipDone { failed_upload }
                }
                Request::Exit | Request::Abort { .. } => {
                    panic!("the session ended though every answer fitted: {:?}", turn.request)
                }
            };
            // What the session holds is what runs, or what it has not yet seen die.
            if let Some(pid) = live {
                if !matches!(reply, Reply::Launched(_)) {
                    assert_eq!(session.controller().current_pid(), Some(pid));
                }
            }
        }
        assert!(launches > 0);
        assert!(!session.is_finished());
    }
}
