use clips_app::capture::SignalNumbers;
use clips_app::overlay::{parse_action_choice, ActionChoice, CaptureSettingsPayload, CaptureStatusPayload};
use clips_app::panel::{
    format_elapsed, format_position, mode_switch_word, panel_settings, panel_state,
    picked_action_word, PanelState, SAVE_LONG_SECONDS, SAVE_SHORT_SECONDS,
};
use clips_app::session::parse_mode;
use clips_app::settings::ReplayMode;

fn status(running: bool, is_saving: bool, message: Option<&str>, mode: &str) -> CaptureStatusPayload {
    CaptureStatusPayload {
        running,
        buffer_seconds: 300,
        bitrate: 60_000,
        fps: 60,
        target: "portal".to_string(),
        audio_tracks: Vec::new(),
        last_saved: None,
        hotkey: "Alt+X".to_string(),
        message: message.map(|m| m.to_string()),
        is_saving,
        failed_uploads: Vec::new(),
        replay_mode: mode.to_string(),
    }
}

#[test]
fn elapsed_time_in_three_forms() {
    assert_eq!(format_elapsed(0), "0s");
    assert_eq!(format_elapsed(59), "59s");
    assert_eq!(format_elapsed(60), "1m 0s");
    assert_eq!(format_elapsed(125), "2m 5s");
    assert_eq!(format_elapsed(3599), "59m 59s");
    assert_eq!(format_elapsed(3600), "1h 0m");
    assert_eq!(format_elapsed(7384), "2h 3m");
    assert_eq!(format_elapsed(u64::MAX), "5124095576030431h 0m");
}

#[test]
fn position_has_two_digits_of_seconds() {
    assert_eq!(format_position(0), "0:00");
    assert_eq!(format_position(9), "0:09");
    assert_eq!(format_position(10), "0:10");
    assert_eq!(format_position(61), "1:01");
    assert_eq!(format_position(3599), "59:59");
    assert_eq!(format_position(3600), "60:00");
    for seconds in [0u64, 5, 59, 60, 600, 86_399] {
        assert_eq!(format_position(seconds), format!("{}:{:02}", seconds / 60, seconds % 60));
    }
}

#[test]
fn panel_shows_the_message() {
    assert_eq!(
        panel_state(&status(true, false, Some("Replay saved"), "manual")),
        PanelState {
            running: true,
            automatic: false,
            status_line: "Replay saved".to_string(),
            can_save: true,
        }
    );
}

#[test]
fn panel_without_message_says_ready_or_stopped() {
    assert_eq!(panel_state(&status(true, false, None, "auto")).status_line, "Replay recorder ready");
    assert_eq!(
        panel_state(&status(false, false, None, "auto")).status_line,
        "Replay recorder stopped"
    );
    assert_eq!(panel_state(&status(false, false, Some(""), "auto")).status_line, "");
}

#[test]
fn panel_allows_a_save_only_while_running_and_idle() {
    assert!(panel_state(&status(true, false, None, "manual")).can_save);
    assert!(!panel_state(&status(true, true, None, "manual")).can_save);
    assert!(!panel_state(&status(false, false, None, "manual")).can_save);
    assert!(!panel_state(&status(false, true, None, "manual")).can_save);
}

#[test]
fn panel_mode_switch_follows_the_word() {
    assert!(panel_state(&status(true, false, None, "auto")).automatic);
    assert!(!panel_state(&status(true, false, None, "manual")).automatic);
    assert!(!panel_state(&status(true, false, None, "Auto")).automatic);
}

#[test]
fn save_buttons_ask_for_known_durations() {
    let numbers = SignalNumbers::new(34, 10).unwrap();
    assert_eq!((SAVE_SHORT_SECONDS, SAVE_LONG_SECONDS), (60, 300));
    assert_eq!(numbers.signal_for(Some(SAVE_SHORT_SECONDS)), 37);
    assert_eq!(numbers.signal_for(Some(SAVE_LONG_SECONDS)), 38);
}

#[test]
fn applied_settings_drop_blank_tracks() {
    let texts = vec!["mic".to_string(), String::new(), "  ".to_string(), "app:game".to_string()];
    assert_eq!(
        panel_settings(120, 8_000, 30, Some("portal".to_string()), &texts),
        CaptureSettingsPayload {
            buffer_seconds: 120,
            bitrate: 8_000,
            fps: 30,
            target: "portal".to_string(),
            audio_tracks: vec!["mic".to_string(), "app:game".to_string()],
        }
    );
    let none = panel_settings(0, 0, 0, None, &vec![String::new()]);
    assert_eq!(none.target, "screen");
    assert!(none.audio_tracks.is_empty());
}

#[test]
fn mode_switch_speaks_the_words_of_the_session() {
    assert_eq!(mode_switch_word(true), "auto");
    assert_eq!(mode_switch_word(false), "manual");
    assert_eq!(parse_mode(mode_switch_word(true)), ReplayMode::AutoWithGame);
    assert_eq!(parse_mode(mode_switch_word(false)), ReplayMode::Manual);
}

#[test]
fn picker_buttons_speak_the_words_of_the_picker() {
    assert_eq!(picked_action_word(true, false, false), "upload");
    assert_eq!(picked_action_word(false, true, false), "move");
    assert_eq!(picked_action_word(false, false, true), "discard");
    assert_eq!(picked_action_word(false, false, false), "upload");
    assert_eq!(picked_action_word(true, true, true), "upload");
    assert_eq!(parse_action_choice(picked_action_word(false, true, true)), Some(ActionChoice::Move));
}
