use clips_app::clip::{move_destination, upload_destination};
use clips_app::config::AppConfig;
use clips_app::failed_uploads::FailedUpload;
use clips_app::ffmpeg::{mix_args, probe_args};
use clips_app::overlay::{CaptureActionPayload, OverlayResponse, TrimTime};
use clips_app::pipeline::{
    ClipNotice, ClipPipeline, ClipReply, ClipRequest, ClipTurn, FinalisedFiles,
};
use clips_app::process::{build_filter_chain, AudioWeights};
use clips_app::progress::Stage;

fn config(source: &str) -> AppConfig {
    AppConfig {
        source: source.to_string(),
        unprocessed_dir: "/raw".to_string(),
        processed_dir: "/done".to_string(),
        youtube_uploader: "/bin/up".to_string(),
        secrets_path: "/cfg/secrets.json".to_string(),
        overlay_bin: "/bin/overlay".to_string(),
    }
}

fn pipeline() -> ClipPipeline {
    ClipPipeline::new(config("/raw/clip.mp4"), "0.891251".to_string(), weights())
}

fn weights() -> AudioWeights {
    AudioWeights::new(None, Some("0.5".to_string()), None)
}

fn progress(stage: Stage, permille: u32, detail: &str) -> ClipNotice {
    ClipNotice::Progress { stage, permille, detail: detail.to_string(), required: true }
}

fn picker(title: &str, game: &str, action: &str) -> ClipReply {
    ClipReply::Answered(Ok(Some(OverlayResponse::PickerResult {
        title: title.to_string(),
        game: game.to_string(),
        action: action.to_string(),
        channels: vec!["game".to_string(), "Discord".to_string()],
    })))
}

fn stretch() -> ClipReply {
    ClipReply::Answered(Ok(Some(OverlayResponse::TrimmerResult {
        start_time: TrimTime { bits: 2.0f64.to_bits() },
        end_time: TrimTime { bits: 9.5f64.to_bits() },
    })))
}

fn done() -> ClipReply {
    ClipReply::Encoded { error: None }
}

fn files() -> ClipReply {
    ClipReply::Finalised(Ok(FinalisedFiles {
        out_full: "/done/My Ace_full.mp4".to_string(),
        out_processed: "/done/My Ace-1.mp4".to_string(),
    }))
}

/// A pipeline that waits for the answer of the picker.
fn at_picker() -> ClipPipeline {
    let mut p = pipeline();
    let _ = p.step(ClipReply::Begin);
    let _ = p.step(ClipReply::Game { configured: None, detected: None });
    p
}

/// A pipeline that waits for the answer of the trimmer.
fn at_trimmer(action: &str) -> ClipPipeline {
    let mut p = at_picker();
    let _ = p.step(picker("My: Ace", "Quake", action));
    let _ = p.step(done());
    let _ = p.step(ClipReply::Probed(Ok(TrimTime { bits: 12.0f64.to_bits() })));
    p
}

/// A pipeline whose files are in place and that waits for what follows.
fn at_filed(action: &str) -> (ClipPipeline, ClipTurn) {
    let mut p = at_trimmer(action);
    let _ = p.step(stretch());
    let _ = p.step(done());
    let turn = p.step(files());
    (p, turn)
}

#[test]
fn clip_is_announced_and_the_game_looked_for() {
    let mut p = pipeline();
    assert_eq!(
        p.step(ClipReply::Begin),
        ClipTurn {
            notices: vec![ClipNotice::Show, progress(Stage::Detected, 0, "Detected: clip.mp4")],
            request: ClipRequest::DetectGame,
        }
    );
    assert_eq!(
        p.step(ClipReply::Game {
            configured: Some(String::new()),
            detected: Some("Quake".to_string())
        }),
        ClipTurn {
            notices: Vec::new(),
            request: ClipRequest::ShowPicker {
                preview_path: "/raw/clip.mp4".to_string(),
                default_title: "clip.mp4".to_string(),
                default_game: "Quake".to_string(),
                available_channels: vec![
                    "voice".to_string(),
                    "discord".to_string(),
                    "game".to_string()
                ],
            },
        }
    );
    assert!(!p.is_finished());
}

#[test]
fn named_clip_is_mixed_probed_and_offered_for_trimming() {
    let mut p = at_picker();
    let filter = build_filter_chain(
        &vec!["discord".to_string(), "game".to_string()],
        "0.891251",
        &weights(),
    );
    assert_eq!(
        p.step(picker("My: Ace", "Quake", "upload")),
        ClipTurn {
            notices: vec![ClipNotice::Progress {
                stage: Stage::Transform,
                permille: 0,
                detail: "Preparing ffmpeg\u{2026}".to_string(),
                required: false,
            }],
            request: ClipRequest::MixAudio {
                args: mix_args("/raw/clip.mp4", &filter, "/raw/clip_transformed.mp4"),
                source: "/raw/clip.mp4".to_string(),
                output: "/raw/clip_transformed.mp4".to_string(),
            },
        }
    );
    assert_eq!(
        p.step(done()),
        ClipTurn {
            notices: vec![progress(Stage::AwaitExport, 0, "Probing video duration...")],
            request: ClipRequest::ProbeDuration { args: probe_args("/raw/clip_transformed.mp4") },
        }
    );
    assert_eq!(
        p.step(ClipReply::Probed(Ok(TrimTime { bits: 12.0f64.to_bits() }))),
        ClipTurn {
            notices: vec![progress(Stage::AwaitExport, 50, "Waiting for trim selection...")],
            request: ClipRequest::ShowTrimmer {
                video_path: "/raw/clip_transformed.mp4".to_string(),
                duration: TrimTime { bits: 12.0f64.to_bits() },
            },
        }
    );
}

#[test]
fn chosen_stretch_is_cut_and_filed() {
    let mut p = at_trimmer("move");
    assert_eq!(
        p.step(stretch()),
        ClipTurn {
            notices: vec![progress(Stage::AwaitExport, 100, "Preparing trim\u{2026}")],
            request: ClipRequest::TrimVideo {
                input: "/raw/clip_transformed.mp4".to_string(),
                output: "/raw/clip_trimmed.mp4".to_string(),
                start_time: TrimTime { bits: 2.0f64.to_bits() },
                end_time: TrimTime { bits: 9.5f64.to_bits() },
            },
        }
    );
    assert_eq!(
        p.step(done()),
        ClipTurn {
            notices: vec![
                progress(Stage::AwaitExport, 1000, "Trim complete"),
                progress(Stage::Finalise, 0, "Finalising files\u{2026}"),
            ],
            request: ClipRequest::Finalise {
                source: "/raw/clip.mp4".to_string(),
                trimmed: "/raw/clip_trimmed.mp4".to_string(),
                transformed: "/raw/clip_transformed.mp4".to_string(),
                full_name: "/done/My Ace_full.mp4".to_string(),
                processed_name: "/done/My Ace.mp4".to_string(),
            },
        }
    );
}

#[test]
fn kept_clip_is_moved_and_done() {
    let (mut p, turn) = at_filed("move");
    assert_eq!(
        turn,
        ClipTurn {
            notices: vec![progress(Stage::Finalise, 1000, "Files ready")],
            request: ClipRequest::Relocate {
                out_full: "/done/My Ace_full.mp4".to_string(),
                out_processed: "/done/My Ace-1.mp4".to_string(),
                destination: move_destination("/done", "My Ace [Quake]", "My Ace"),
            },
        }
    );
    assert_eq!(
        p.step(ClipReply::Relocated { error: None, now: 7 }),
        ClipTurn {
            notices: vec![progress(Stage::Done, 1000, "Saved (no upload)")],
            request: ClipRequest::Finish { failed_upload: None },
        }
    );
    assert!(p.is_finished());
}

#[test]
fn uploaded_clip_is_moved_under_its_video_id_and_opened() {
    let (mut p, turn) = at_filed("upload");
    assert_eq!(
        turn,
        ClipTurn {
            notices: vec![progress(Stage::Finalise, 1000, "Files ready")],
            request: ClipRequest::Upload {
                processed_path: "/done/My Ace-1.mp4".to_string(),
                title_with_game: "My Ace [Quake]".to_string(),
                game_label: "Quake".to_string(),
            },
        }
    );
    assert_eq!(
        p.step(ClipReply::Uploaded(Ok(Some("dQw4".to_string())))),
        ClipTurn {
            notices: vec![progress(Stage::Done, 1000, "Upload complete")],
            request: ClipRequest::Relocate {
                out_full: "/done/My Ace_full.mp4".to_string(),
                out_processed: "/done/My Ace-1.mp4".to_string(),
                destination: upload_destination("/done", "My Ace [Quake]", "My Ace", "dQw4"),
            },
        }
    );
    assert_eq!(
        p.step(ClipReply::Relocated { error: None, now: 7 }),
        ClipTurn {
            notices: vec![ClipNotice::OpenVideo { video_id: "dQw4".to_string() }],
            request: ClipRequest::Finish { failed_upload: None },
        }
    );
}

#[test]
fn upload_without_video_is_kept_and_recorded() {
    let (mut p, _) = at_filed("upload");
    let destination = move_destination("/done", "My Ace [Quake]", "My Ace");
    assert_eq!(
        p.step(ClipReply::Uploaded(Ok(None))),
        ClipTurn {
            notices: vec![progress(Stage::Done, 1000, "Upload failed - saved locally")],
            request: ClipRequest::Relocate {
                out_full: "/done/My Ace_full.mp4".to_string(),
                out_processed: "/done/My Ace-1.mp4".to_string(),
                destination: move_destination("/done", "My Ace [Quake]", "My Ace"),
            },
        }
    );
    let record = FailedUpload::new(
        "My Ace".to_string(),
        "Quake".to_string(),
        destination.processed,
        destination.raw,
        1_700_000_000,
    );
    assert_eq!(record.id, "1700000000-My Ace");
    assert_eq!(record.processed_path, "/done/My Ace [Quake]/My Ace [Quake].mp4");
    assert_eq!(record.full_path, "/done/My Ace [Quake]/My Ace_raw.mp4");
    assert_eq!(
        p.step(ClipReply::Relocated { error: None, now: 1_700_000_000 }),
        ClipTurn { notices: Vec::new(), request: ClipRequest::Finish { failed_upload: Some(record) } }
    );
}

#[test]
fn cancelled_picker_deletes_the_clip() {
    let mut p = at_picker();
    assert_eq!(
        p.step(ClipReply::Answered(Ok(Some(OverlayResponse::Cancelled)))),
        ClipTurn {
            notices: vec![
                ClipNotice::RemoveFile { path: "/raw/clip.mp4".to_string() },
                progress(Stage::Done, 1000, "Cancelled"),
            ],
            request: ClipRequest::Finish { failed_upload: None },
        }
    );
    assert!(p.is_finished());
}

#[test]
fn closed_picker_fails_and_keeps_the_clip() {
    let mut p = at_picker();
    assert_eq!(
        p.step(ClipReply::Answered(Ok(None))),
        ClipTurn {
            notices: Vec::new(),
            request: ClipRequest::Fail {
                reason: "overlay closed while waiting for picker response".to_string()
            },
        }
    );
    assert!(p.is_finished());
}

#[test]
fn discarded_clip_is_deleted() {
    let mut p = at_picker();
    assert_eq!(
        p.step(picker("whatever", "", "discard")),
        ClipTurn {
            notices: vec![
                ClipNotice::RemoveFile { path: "/raw/clip.mp4".to_string() },
                progress(Stage::Done, 1000, "Discarded"),
            ],
            request: ClipRequest::Finish { failed_upload: None },
        }
    );
}

#[test]
fn cancelled_trimmer_deletes_the_clip_and_its_mix() {
    let mut p = at_trimmer("upload");
    assert_eq!(
        p.step(ClipReply::Answered(Ok(Some(OverlayResponse::Cancelled)))),
        ClipTurn {
            notices: vec![
                ClipNotice::RemoveFile { path: "/raw/clip.mp4".to_string() },
                ClipNotice::RemoveFile { path: "/raw/clip_transformed.mp4".to_string() },
                progress(Stage::Done, 1000, "Cancelled"),
            ],
            request: ClipRequest::Finish { failed_upload: None },
        }
    );
}

#[test]
fn unknown_choice_and_foreign_answers_fail() {
    let mut p = at_picker();
    assert_eq!(
        p.step(picker("a", "b", "keep")).request,
        ClipRequest::Fail { reason: "overlay returned unknown picker action: keep".to_string() }
    );
    let mut p = at_picker();
    assert_eq!(
        p.step(stretch()).request,
        ClipRequest::Fail {
            reason: "overlay returned unexpected picker response: trimmer_result".to_string()
        }
    );
    let mut p = at_trimmer("move");
    let toggle = OverlayResponse::CaptureAction {
        action: CaptureActionPayload::Toggle { enable: true },
    };
    assert_eq!(
        p.step(ClipReply::Answered(Ok(Some(toggle)))).request,
        ClipRequest::Fail {
            reason: "overlay returned unexpected trimmer response: capture_action".to_string()
        }
    );
    let mut p = at_trimmer("move");
    assert_eq!(
        p.step(ClipReply::Answered(Ok(None))).request,
        ClipRequest::Fail {
            reason: "overlay closed while waiting for trimmer response".to_string()
        }
    );
}

#[test]
fn step_that_failed_ends_the_pipeline() {
    let fail = |reason: &str| ClipTurn {
        notices: Vec::new(),
        request: ClipRequest::Fail { reason: reason.to_string() },
    };
    let mut p = at_picker();
    assert_eq!(p.step(ClipReply::Answered(Err("pipe".to_string()))), fail("pipe"));
    let mut p = at_picker();
    let _ = p.step(picker("a", "b", "move"));
    assert_eq!(p.step(ClipReply::Encoded { error: Some("ffmpeg".to_string()) }), fail("ffmpeg"));
    let mut p = at_picker();
    let _ = p.step(picker("a", "b", "move"));
    let _ = p.step(done());
    assert_eq!(p.step(ClipReply::Probed(Err("ffprobe".to_string()))), fail("ffprobe"));
    let mut p = at_trimmer("move");
    assert_eq!(p.step(ClipReply::Answered(Err("pipe".to_string()))), fail("pipe"));
    let mut p = at_trimmer("move");
    let _ = p.step(stretch());
    assert_eq!(p.step(ClipReply::Encoded { error: Some("cut".to_string()) }), fail("cut"));
    let mut p = at_trimmer("move");
    let _ = p.step(stretch());
    let _ = p.step(done());
    assert_eq!(p.step(ClipReply::Finalised(Err("rename".to_string()))), fail("rename"));
    let (mut p, _) = at_filed("move");
    assert_eq!(
        p.step(ClipReply::Relocated { error: Some("mkdir".to_string()), now: 0 }),
        fail("mkdir")
    );
    let (mut p, _) = at_filed("upload");
    assert_eq!(p.step(ClipReply::Uploaded(Err("quota".to_string()))), fail("quota"));
    assert!(p.is_finished());
    assert_eq!(p.step(ClipReply::Begin), fail("reply does not answer the request"));
}

#[test]
fn answer_of_the_wrong_kind_ends_the_pipeline() {
    let mut p = pipeline();
    assert_eq!(
        p.step(done()).request,
        ClipRequest::Fail { reason: "reply does not answer the request".to_string() }
    );
    assert!(p.is_finished());
}

#[test]
fn source_without_a_place_cannot_be_cut() {
    let mut p = ClipPipeline::new(config("/"), "1".to_string(), weights());
    let _ = p.step(ClipReply::Begin);
    let _ = p.step(ClipReply::Game { configured: None, detected: None });
    let _ = p.step(picker("a", "b", "move"));
    let _ = p.step(done());
    let _ = p.step(ClipReply::Probed(Ok(TrimTime { bits: 0 })));
    assert_eq!(
        p.step(stretch()),
        ClipTurn {
            notices: vec![progress(Stage::AwaitExport, 100, "Preparing trim\u{2026}")],
            request: ClipRequest::Fail { reason: "source file has no parent directory".to_string() },
        }
    );
    let mut p = ClipPipeline::new(config("/raw/.."), "1".to_string(), weights());
    let _ = p.step(ClipReply::Begin);
    let _ = p.step(ClipReply::Game { configured: None, detected: None });
    let _ = p.step(picker("a", "b", "move"));
    let _ = p.step(done());
    let _ = p.step(ClipReply::Probed(Ok(TrimTime { bits: 0 })));
    assert_eq!(
        p.step(stretch()).request,
        ClipRequest::Fail { reason: "source file has no stem".to_string() }
    );
}

#[test]
fn cut_clip_lies_beside_the_source() {
    for (source, output) in [
        ("/raw/Replay_1.mkv", "/raw/Replay_1_trimmed.mp4"),
        ("Replay.mp4", "Replay_trimmed.mp4"),
        ("/raw/a.b.c", "/raw/a.b_trimmed.mp4"),
    ] {
        let mut p = ClipPipeline::new(config(source), "1".to_string(), weights());
        let _ = p.step(ClipReply::Begin);
        let _ = p.step(ClipReply::Game { configured: None, detected: None });
        let _ = p.step(picker("a", "b", "move"));
        let _ = p.step(done());
        let _ = p.step(ClipReply::Probed(Ok(TrimTime { bits: 0 })));
        match p.step(stretch()).request {
            ClipRequest::TrimVideo { output: found, .. } => assert_eq!(found, output),
            other => panic!("unexpected request {other:?}"),
        }
    }
}

#[test]
fn empty_names_become_clip() {
    let mut p = at_picker();
    let _ = p.step(picker("??", "", "upload"));
    let _ = p.step(done());
    let _ = p.step(ClipReply::Probed(Ok(TrimTime { bits: 0 })));
    let _ = p.step(stretch());
    let turn = p.step(done());
    match turn.request {
        ClipRequest::Finalise { full_name, processed_name, .. } => {
            assert_eq!(full_name, "/done/clip_full.mp4");
            assert_eq!(processed_name, "/done/clip.mp4");
        }
        other => panic!("unexpected request {other:?}"),
    }
    assert_eq!(
        p.step(files()).request,
        ClipRequest::Upload {
            processed_path: "/done/My Ace-1.mp4".to_string(),
            title_with_game: "clip [clip]".to_string(),
            game_label: "clip".to_string(),
        }
    );
}
