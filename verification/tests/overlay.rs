use clips_app::overlay::{
    classify_read, frame_message, parse_action_choice, picker_result, trimmer_result,
    wait_for_action, ActionChoice, CaptureActionPayload, CaptureSettingsPayload, Dialog, LineRead,
    OverlayError, OverlayResponse, PickerResult, SessionStep, TrimTime, TrimmerResult,
};

fn picker(action: &str) -> OverlayResponse {
    OverlayResponse::PickerResult {
        title: "Ace".to_string(),
        game: "Quake".to_string(),
        action: action.to_string(),
        channels: vec!["voice".to_string(), "game".to_string()],
    }
}

fn trimmer() -> OverlayResponse {
    OverlayResponse::TrimmerResult {
        start_time: TrimTime { bits: 1.5f64.to_bits() },
        end_time: TrimTime { bits: 9.25f64.to_bits() },
    }
}

fn toggle() -> OverlayResponse {
    OverlayResponse::CaptureAction { action: CaptureActionPayload::Toggle { enable: true } }
}

#[test]
fn action_words() {
    assert_eq!(parse_action_choice("upload"), Some(ActionChoice::Upload));
    assert_eq!(parse_action_choice("move"), Some(ActionChoice::Move));
    assert_eq!(parse_action_choice("discard"), Some(ActionChoice::Discard));
    assert_eq!(parse_action_choice("Upload"), None);
    assert_eq!(parse_action_choice(""), None);
    assert_eq!(parse_action_choice("upload "), None);
}

#[test]
fn picker_result_is_read() {
    assert_eq!(
        picker_result(Some(picker("move"))),
        Ok(Some(PickerResult {
            title: "Ace".to_string(),
            game: "Quake".to_string(),
            action: ActionChoice::Move,
            channels: vec!["voice".to_string(), "game".to_string()],
        }))
    );
}

#[test]
fn picker_cancelled_is_nothing() {
    assert_eq!(picker_result(Some(OverlayResponse::Cancelled)), Ok(None));
}

#[test]
fn picker_errors() {
    let closed = picker_result(None).unwrap_err();
    assert_eq!(closed, OverlayError::Closed { dialog: Dialog::Picker });
    assert_eq!(closed.message(), "overlay closed while waiting for picker response");
    let unknown = picker_result(Some(picker("keep"))).unwrap_err();
    assert_eq!(unknown, OverlayError::UnknownAction { action: "keep".to_string() });
    assert_eq!(unknown.message(), "overlay returned unknown picker action: keep");
    let foreign = picker_result(Some(trimmer())).unwrap_err();
    assert_eq!(
        foreign,
        OverlayError::Unexpected { dialog: Dialog::Picker, tag: "trimmer_result".to_string() }
    );
    assert_eq!(foreign.message(), "overlay returned unexpected picker response: trimmer_result");
    let action = picker_result(Some(toggle())).unwrap_err();
    assert_eq!(action.message(), "overlay returned unexpected picker response: capture_action");
}

#[test]
fn trimmer_result_is_read() {
    let result = trimmer_result(Some(trimmer())).unwrap().unwrap();
    assert_eq!(
        result,
        TrimmerResult {
            start_time: TrimTime { bits: 1.5f64.to_bits() },
            end_time: TrimTime { bits: 9.25f64.to_bits() },
        }
    );
    assert_eq!(f64::from_bits(result.start_time.bits), 1.5);
    assert_eq!(f64::from_bits(result.end_time.bits), 9.25);
    assert_eq!(trimmer_result(Some(OverlayResponse::Cancelled)), Ok(None));
}

#[test]
fn trimmer_errors() {
    assert_eq!(
        trimmer_result(None).unwrap_err().message(),
        "overlay closed while waiting for trimmer response"
    );
    assert_eq!(
        trimmer_result(Some(picker("move"))).unwrap_err().message(),
        "overlay returned unexpected trimmer response: picker_result"
    );
}

#[test]
fn response_tags() {
    assert_eq!(picker("move").tag(), "picker_result");
    assert_eq!(trimmer().tag(), "trimmer_result");
    assert_eq!(toggle().tag(), "capture_action");
    assert_eq!(OverlayResponse::Cancelled.tag(), "cancelled");
}

#[test]
fn session_delivers_actions() {
    assert_eq!(
        wait_for_action(Some(toggle())),
        SessionStep::Action(CaptureActionPayload::Toggle { enable: true })
    );
    let settings = CaptureActionPayload::UpdateSettings {
        settings: CaptureSettingsPayload {
            buffer_seconds: 1,
            bitrate: 2,
            fps: 3,
            target: "t".to_string(),
            audio_tracks: Vec::new(),
        },
    };
    assert!(matches!(
        wait_for_action(Some(OverlayResponse::CaptureAction { action: settings })),
        SessionStep::Action(CaptureActionPayload::UpdateSettings { .. })
    ));
}

#[test]
fn session_ends_on_cancel_and_close() {
    assert_eq!(wait_for_action(Some(OverlayResponse::Cancelled)), SessionStep::Closed);
    assert_eq!(wait_for_action(None), SessionStep::Closed);
}

#[test]
fn session_skips_foreign_results() {
    assert_eq!(wait_for_action(Some(picker("upload"))), SessionStep::Skip);
    assert_eq!(wait_for_action(Some(trimmer())), SessionStep::Skip);
}

#[test]
fn messages_are_framed_by_one_line_feed() {
    assert_eq!(frame_message("{\"type\":\"quit\"}"), "{\"type\":\"quit\"}\n");
    assert_eq!(frame_message(""), "\n");
}

#[test]
fn empty_read_is_a_closed_stream() {
    assert_eq!(classify_read(0, String::new()), LineRead::Closed);
    assert_eq!(classify_read(0, "ignored".to_string()), LineRead::Closed);
    assert_eq!(classify_read(1, "\n".to_string()), LineRead::Line("\n".to_string()));
    assert_eq!(
        classify_read(22, "{\"type\":\"cancelled\"}\n".to_string()),
        LineRead::Line("{\"type\":\"cancelled\"}\n".to_string())
    );
}
