use vstd::prelude::*;
use crate::clip::{
    destination_of, finalised_names, move_destination, sanitize_text, sanitized, transformed_path,
    transformed_path_of, trim_place, trim_place_of, upload_destination, Destination,
    DestinationView, TrimPlace, TrimPlaceView,
};
use crate::config::{AppConfig, AppConfigView};
use crate::failed_uploads::{listed_name, upload_id, FailedUpload, FailedUploadView};
use crate::ffmpeg::{mix_args, mix_args_of, probe_args, probe_args_of};
use crate::model::result_view;
use crate::overlay::{
    picker_outcome, picker_result, trimmer_outcome, trimmer_result, ActionChoice, OverlayResponse,
    OverlayResponseView, TrimTime,
};
use crate::paths::{file_name_of, file_stem, file_stem_of, join, joined_path, parent, parent_of};
use crate::process::{
    build_filter_chain, channel_names, channel_options, filter_chain, select_channels,
    selected_channels, AudioWeights, AudioWeightsView,
};
use crate::progress::Stage;
use crate::steam::{default_game, detect_game_name};
use crate::text::{join2, join3};

verus! {

/// Something to be done for a clip whose result the pipeline does not wait for.
#[derive(Debug, PartialEq, Eq)]
pub enum ClipNotice {
    /// Show the overlay. Where that fails, the pipeline is given up.
    Show,
    /// Show this progress, given in thousandths. Where `required` is set and the
    /// progress cannot be shown, the pipeline is given up.
    Progress { stage: Stage, permille: u32, detail: String, required: bool },
    /// Delete this file; a failure is passed over.
    RemoveFile { path: String },
    /// Open the uploaded video in the browser.
    OpenVideo { video_id: String },
}

pub enum ClipNoticeView {
    Show,
    Progress { stage: Stage, permille: u32, detail: Seq<char>, required: bool },
    RemoveFile { path: Seq<char> },
    OpenVideo { video_id: Seq<char> },
}

impl View for ClipNotice {
    type V = ClipNoticeView;

    open spec fn view(&self) -> ClipNoticeView {
        match self {
            ClipNotice::Show => ClipNoticeView::Show,
            ClipNotice::Progress { stage, permille, detail, required } => ClipNoticeView::Progress {
                stage: *stage,
                permille: *permille,
                detail: detail@,
                required: *required,
            },
            ClipNotice::RemoveFile { path } => ClipNoticeView::RemoveFile { path: path@ },
            ClipNotice::OpenVideo { video_id } => ClipNoticeView::OpenVideo { video_id: video_id@ },
        }
    }
}

impl DeepView for ClipNotice {
    type V = ClipNoticeView;

    open spec fn deep_view(&self) -> ClipNoticeView {
        self@
    }
}

/// What the pipeline waits for next.
#[derive(Debug, PartialEq, Eq)]
pub enum ClipRequest {
    /// Find out which game the clip is of: what the user has set, and what runs.
    DetectGame,
    /// Let the user name the clip and choose what becomes of it.
    ShowPicker {
        preview_path: String,
        default_title: String,
        default_game: String,
        available_channels: Vec<String>,
    },
    /// Run the encoder with these arguments to mix the audio into `output`.
    MixAudio { args: Vec<String>, source: String, output: String },
    /// Run the prober with these arguments to learn the clip's length.
    ProbeDuration { args: Vec<String> },
    /// Let the user choose the stretch of the clip to keep.
    ShowTrimmer { video_path: String, duration: TrimTime },
    /// Cut `input` to the stretch from `start_time` to `end_time` into `output`.
    TrimVideo { input: String, output: String, start_time: TrimTime, end_time: TrimTime },
    /// Put the raw capture and the cut clip into the directory of processed
    /// clips, under these names or, where they are taken, the next free ones,
    /// and delete the clip with the mixed audio.
    Finalise {
        source: String,
        trimmed: String,
        transformed: String,
        full_name: String,
        processed_name: String,
    },
    /// Move the two files to their destination, each under the next free name.
    Relocate { out_full: String, out_processed: String, destination: Destination },
    /// Upload the clip.
    Upload { processed_path: String, title_with_game: String, game_label: String },
    /// The clip is dealt with; where its upload failed, this is the record of it.
    Finish { failed_upload: Option<FailedUpload> },
    /// The pipeline cannot go on.
    Fail { reason: String },
}

pub enum ClipRequestView {
    DetectGame,
    ShowPicker {
        preview_path: Seq<char>,
        default_title: Seq<char>,
        default_game: Seq<char>,
        available_channels: Seq<Seq<char>>,
    },
    MixAudio { args: Seq<Seq<char>>, source: Seq<char>, output: Seq<char> },
    ProbeDuration { args: Seq<Seq<char>> },
    ShowTrimmer { video_path: Seq<char>, duration: TrimTime },
    TrimVideo { input: Seq<char>, output: Seq<char>, start_time: TrimTime, end_time: TrimTime },
    Finalise {
        source: Seq<char>,
        trimmed: Seq<char>,
        transformed: Seq<char>,
        full_name: Seq<char>,
        processed_name: Seq<char>,
    },
    Relocate { out_full: Seq<char>, out_processed: Seq<char>, destination: DestinationView },
    Upload { processed_path: Seq<char>, title_with_game: Seq<char>, game_label: Seq<char> },
    Finish { failed_upload: Option<FailedUploadView> },
    Fail { reason: Seq<char> },
}

impl View for ClipRequest {
    type V = ClipRequestView;

    open spec fn view(&self) -> ClipRequestView {
        match self {
            ClipRequest::DetectGame => ClipRequestView::DetectGame,
            ClipRequest::ShowPicker {
                preview_path,
                default_title,
                default_game,
                available_channels,
            } => ClipRequestView::ShowPicker {
                preview_path: preview_path@,
                default_title: default_title@,
                default_game: default_game@,
                available_channels: available_channels.deep_view(),
            },
            ClipRequest::MixAudio { args, source, output } => ClipRequestView::MixAudio {
                args: args.deep_view(),
                source: source@,
                output: output@,
            },
            ClipRequest::ProbeDuration { args } => ClipRequestView::ProbeDuration {
                args: args.deep_view(),
            },
            ClipRequest::ShowTrimmer { video_path, duration } => ClipRequestView::ShowTrimmer {
                video_path: video_path@,
                duration: *duration,
            },
            ClipRequest::TrimVideo { input, output, start_time, end_time } =>
                ClipRequestView::TrimVideo {
                    input: input@,
                    output: output@,
                    start_time: *start_time,
                    end_time: *end_time,
                },
            ClipRequest::Finalise { source, trimmed, transformed, full_name, processed_name } =>
                ClipRequestView::Finalise {
                    source: source@,
                    trimmed: trimmed@,
                    transformed: transformed@,
                    full_name: full_name@,
                    processed_name: processed_name@,
                },
            ClipRequest::Relocate { out_full, out_processed, destination } =>
                ClipRequestView::Relocate {
                    out_full: out_full@,
                    out_processed: out_processed@,
                    destination: destination@,
                },
            ClipRequest::Upload { processed_path, title_with_game, game_label } =>
                ClipRequestView::Upload {
                    processed_path: processed_path@,
                    title_with_game: title_with_game@,
                    game_label: game_label@,
                },
            ClipRequest::Finish { failed_upload } => ClipRequestView::Finish {
                failed_upload: failed_upload.deep_view(),
            },
            ClipRequest::Fail { reason } => ClipRequestView::Fail { reason: reason@ },
        }
    }
}

/// The two files of a clip as they lie in the directory of processed clips.
#[derive(Debug, PartialEq, Eq)]
pub struct FinalisedFiles {
    pub out_full: String,
    pub out_processed: String,
}

pub struct FinalisedFilesView {
    pub out_full: Seq<char>,
    pub out_processed: Seq<char>,
}

impl View for FinalisedFiles {
    type V = FinalisedFilesView;

    open spec fn view(&self) -> FinalisedFilesView {
        FinalisedFilesView { out_full: self.out_full@, out_processed: self.out_processed@ }
    }
}

impl DeepView for FinalisedFiles {
    type V = FinalisedFilesView;

    open spec fn deep_view(&self) -> FinalisedFilesView {
        self@
    }
}

impl View for TrimTime {
    type V = TrimTime;

    open spec fn view(&self) -> TrimTime {
        *self
    }
}

impl DeepView for TrimTime {
    type V = TrimTime;

    open spec fn deep_view(&self) -> TrimTime {
        *self
    }
}

/// The answer to the request of the turn before. An `Err` carries the reason
/// why what was asked for could not be done.
#[derive(Debug, PartialEq, Eq)]
pub enum ClipReply {
    /// Answers nothing: opens the pipeline.
    Begin,
    /// Answers `DetectGame`.
    Game { configured: Option<String>, detected: Option<String> },
    /// Answers `ShowPicker` and `ShowTrimmer`: the message that came back, or
    /// nothing where the peer closed its stream.
    Answered(Result<Option<OverlayResponse>, String>),
    /// Answers `MixAudio` and `TrimVideo`.
    Encoded { error: Option<String> },
    /// Answers `ProbeDuration`.
    Probed(Result<TrimTime, String>),
    /// Answers `Finalise`.
    Finalised(Result<FinalisedFiles, String>),
    /// Answers `Relocate`; `now` is the time in seconds since the Unix epoch.
    Relocated { error: Option<String>, now: u64 },
    /// Answers `Upload`: the id of the video, where the upload tool named one.
    Uploaded(Result<Option<String>, String>),
}

pub enum ClipReplyView {
    Begin,
    Game { configured: Option<Seq<char>>, detected: Option<Seq<char>> },
    Answered(Result<Option<OverlayResponseView>, Seq<char>>),
    Encoded { error: Option<Seq<char>> },
    Probed(Result<TrimTime, Seq<char>>),
    Finalised(Result<FinalisedFilesView, Seq<char>>),
    Relocated { error: Option<Seq<char>>, now: u64 },
    Uploaded(Result<Option<Seq<char>>, Seq<char>>),
}

impl View for ClipReply {
    type V = ClipReplyView;

    open spec fn view(&self) -> ClipReplyView {
        match self {
            ClipReply::Begin => ClipReplyView::Begin,
            ClipReply::Game { configured, detected } => ClipReplyView::Game {
                configured: configured.deep_view(),
                detected: detected.deep_view(),
            },
            ClipReply::Answered(answer) => ClipReplyView::Answered(result_view(*answer)),
            ClipReply::Encoded { error } => ClipReplyView::Encoded { error: error.deep_view() },
            ClipReply::Probed(duration) => ClipReplyView::Probed(result_view(*duration)),
            ClipReply::Finalised(files) => ClipReplyView::Finalised(result_view(*files)),
            ClipReply::Relocated { error, now } => ClipReplyView::Relocated {
                error: error.deep_view(),
                now: *now,
            },
            ClipReply::Uploaded(id) => ClipReplyView::Uploaded(result_view(*id)),
        }
    }
}

/// One turn of the pipeline.
#[derive(Debug, PartialEq, Eq)]
pub struct ClipTurn {
    pub notices: Vec<ClipNotice>,
    pub request: ClipRequest,
}

pub struct ClipTurnView {
    pub notices: Seq<ClipNoticeView>,
    pub request: ClipRequestView,
}

impl View for ClipTurn {
    type V = ClipTurnView;

    open spec fn view(&self) -> ClipTurnView {
        ClipTurnView { notices: self.notices.deep_view(), request: self.request@ }
    }
}

/// What becomes of the files once they are moved.
#[derive(Debug, Clone, Copy, PartialEq, Eq, Structural)]
pub enum AfterMove {
    /// The clip was to be kept without an upload.
    Kept,
    /// The clip was uploaded.
    Uploaded,
    /// The upload named no video: the clip is kept and the upload recorded as failed.
    Unlisted,
}

/// Where the pipeline stands.
#[derive(Debug, Clone, Copy, PartialEq, Eq, Structural)]
pub enum ClipPhase {
    Starting,
    Detecting,
    Picking,
    Mixing,
    Probing,
    Selecting,
    Cutting,
    Finalising,
    Uploading,
    Moving(AfterMove),
    Finished,
}

/// What the pipeline has learned of the clip so far.
#[derive(Debug, PartialEq, Eq)]
pub struct ClipWork {
    pub safe_title: String,
    pub safe_game: String,
    /// Whether the user chose to upload the clip.
    pub upload: bool,
    pub transformed: String,
    pub trimmed: String,
    pub out_full: String,
    pub out_processed: String,
    pub video_id: String,
}

pub struct ClipWorkView {
    pub safe_title: Seq<char>,
    pub safe_game: Seq<char>,
    pub upload: bool,
    pub transformed: Seq<char>,
    pub trimmed: Seq<char>,
    pub out_full: Seq<char>,
    pub out_processed: Seq<char>,
    pub video_id: Seq<char>,
}

impl View for ClipWork {
    type V = ClipWorkView;

    open spec fn view(&self) -> ClipWorkView {
        ClipWorkView {
            safe_title: self.safe_title@,
            safe_game: self.safe_game@,
            upload: self.upload,
            transformed: self.transformed@,
            trimmed: self.trimmed@,
            out_full: self.out_full@,
            out_processed: self.out_processed@,
            video_id: self.video_id@,
        }
    }
}

/// The pipeline that finishes one clip: the user names it and chooses what
/// becomes of it, its audio is mixed, it is cut, filed away, and uploaded if
/// the user wished so. The pipeline does none of this itself: each turn says
/// what is to be done, and the next takes in how it went.
#[derive(Debug, PartialEq, Eq)]
pub struct ClipPipeline {
    config: AppConfig,
    limiter: String,
    weights: AudioWeights,
    work: ClipWork,
    phase: ClipPhase,
}

pub struct ClipPipelineView {
    pub config: AppConfigView,
    /// The limit of the audio mix, as the filter graph writes it.
    pub limiter: Seq<char>,
    pub weights: AudioWeightsView,
    pub work: ClipWorkView,
    pub phase: ClipPhase,
}

impl View for ClipPipeline {
    type V = ClipPipelineView;

    closed spec fn view(&self) -> ClipPipelineView {
        ClipPipelineView {
            config: self.config@,
            limiter: self.limiter@,
            weights: self.weights@,
            work: self.work@,
            phase: self.phase,
        }
    }
}

/// A step of progress that must be shown.
pub open spec fn progress(stage: Stage, permille: u32, detail: Seq<char>) -> ClipNoticeView {
    ClipNoticeView::Progress { stage, permille, detail, required: true }
}

impl ClipPipelineView {
    /// The name under which the clip is shown.
    pub open spec fn source_name(self) -> Seq<char> {
        match file_name_of(self.config.source) {
            Some(name) => name,
            None => "<unknown>"@,
        }
    }

    /// The name of the finished clip: its title, with the game in brackets.
    pub open spec fn title_with_game(self) -> Seq<char> {
        listed_name(self.work.safe_title, self.work.safe_game)
    }

    /// Where the clip goes when it is kept without the id of a video.
    pub open spec fn kept_destination(self) -> DestinationView {
        destination_of(self.config.processed_dir, self.title_with_game(), self.work.safe_title)
    }

    pub open spec fn in_phase(self, phase: ClipPhase) -> ClipPipelineView {
        ClipPipelineView { phase, ..self }
    }

    /// The pipeline ends: the clip is dealt with.
    pub open spec fn finish(
        self,
        notices: Seq<ClipNoticeView>,
        failed_upload: Option<FailedUploadView>,
    ) -> (ClipPipelineView, ClipTurnView) {
        (
            self.in_phase(ClipPhase::Finished),
            ClipTurnView { notices, request: ClipRequestView::Finish { failed_upload } },
        )
    }

    /// The pipeline ends: it cannot go on.
    pub open spec fn fail(self, notices: Seq<ClipNoticeView>, reason: Seq<char>) -> (
        ClipPipelineView,
        ClipTurnView,
    ) {
        (
            self.in_phase(ClipPhase::Finished),
            ClipTurnView { notices, request: ClipRequestView::Fail { reason } },
        )
    }

    /// The clip is announced and the game looked for.
    #[verifier::opaque]
    pub open spec fn begin(self) -> (ClipPipelineView, ClipTurnView) {
        (
            self.in_phase(ClipPhase::Detecting),
            ClipTurnView {
                notices: seq![
                    ClipNoticeView::Show,
                    progress(Stage::Detected, 0, "Detected: "@ + self.source_name()),
                ],
                request: ClipRequestView::DetectGame,
            },
        )
    }

    /// The user is asked to name the clip, the game that was found being proposed.
    #[verifier::opaque]
    pub open spec fn detected(self, configured: Option<Seq<char>>, detected: Option<Seq<char>>) -> (
        ClipPipelineView,
        ClipTurnView,
    ) {
        (
            self.in_phase(ClipPhase::Picking),
            ClipTurnView {
                notices: Seq::empty(),
                request: ClipRequestView::ShowPicker {
                    preview_path: self.config.source,
                    default_title: self.source_name(),
                    default_game: default_game(configured, detected),
                    available_channels: channel_names(),
                },
            },
        )
    }

    /// What the user entered is taken in. A clip that the user cancelled or
    /// discarded is deleted; of any other the audio is mixed.
    #[verifier::opaque]
    pub open spec fn picked(self, answer: Result<Option<OverlayResponseView>, Seq<char>>) -> (
        ClipPipelineView,
        ClipTurnView,
    ) {
        match answer {
            Err(reason) => self.fail(Seq::empty(), reason),
            Ok(response) => match picker_outcome(response) {
                Err(error) => self.fail(Seq::empty(), error.message()),
                Ok(None) => self.finish(
                    seq![
                        ClipNoticeView::RemoveFile { path: self.config.source },
                        progress(Stage::Done, 1000, "Cancelled"@),
                    ],
                    None,
                ),
                Ok(Some(result)) => if result.action == ActionChoice::Discard {
                    self.finish(
                        seq![
                            ClipNoticeView::RemoveFile { path: self.config.source },
                            progress(Stage::Done, 1000, "Discarded"@),
                        ],
                        None,
                    )
                } else {
                    let transformed = transformed_path_of(self.config.source);
                    (
                        ClipPipelineView {
                            work: ClipWorkView {
                                safe_title: sanitized(result.title),
                                safe_game: sanitized(result.game),
                                upload: result.action == ActionChoice::Upload,
                                transformed,
                                ..self.work
                            },
                            phase: ClipPhase::Mixing,
                            ..self
                        },
                        ClipTurnView {
                            notices: seq![
                                ClipNoticeView::Progress {
                                    stage: Stage::Transform,
                                    permille: 0,
                                    detail: "Preparing ffmpeg\u{2026}"@,
                                    required: false,
                                },
                            ],
                            request: ClipRequestView::MixAudio {
                                args: mix_args_of(
                                    self.config.source,
                                    filter_chain(
                                        selected_channels(result.channels),
                                        self.limiter,
                                        self.weights,
                                    ),
                                    transformed,
                                ),
                                source: self.config.source,
                                output: transformed,
                            },
                        },
                    )
                },
            },
        }
    }

    /// The audio is mixed: the length of the clip is asked for.
    #[verifier::opaque]
    pub open spec fn mixed(self, error: Option<Seq<char>>) -> (ClipPipelineView, ClipTurnView) {
        match error {
            Some(reason) => self.fail(Seq::empty(), reason),
            None => (
                self.in_phase(ClipPhase::Probing),
                ClipTurnView {
                    notices: seq![progress(Stage::AwaitExport, 0, "Probing video duration..."@)],
                    request: ClipRequestView::ProbeDuration {
                        args: probe_args_of(self.work.transformed),
                    },
                },
            ),
        }
    }

    /// The length is known: the user is asked which stretch to keep.
    #[verifier::opaque]
    pub open spec fn probed(self, duration: Result<TrimTime, Seq<char>>) -> (
        ClipPipelineView,
        ClipTurnView,
    ) {
        match duration {
            Err(reason) => self.fail(Seq::empty(), reason),
            Ok(duration) => (
                self.in_phase(ClipPhase::Selecting),
                ClipTurnView {
                    notices: seq![
                        progress(Stage::AwaitExport, 50, "Waiting for trim selection..."@),
                    ],
                    request: ClipRequestView::ShowTrimmer {
                        video_path: self.work.transformed,
                        duration,
                    },
                },
            ),
        }
    }

    /// The stretch that the user chose is taken in. A clip that the user
    /// cancelled is deleted with its mix; any other is cut.
    #[verifier::opaque]
    pub open spec fn selected(self, answer: Result<Option<OverlayResponseView>, Seq<char>>) -> (
        ClipPipelineView,
        ClipTurnView,
    ) {
        match answer {
            Err(reason) => self.fail(Seq::empty(), reason),
            Ok(response) => match trimmer_outcome(response) {
                Err(error) => self.fail(Seq::empty(), error.message()),
                Ok(None) => self.finish(
                    seq![
                        ClipNoticeView::RemoveFile { path: self.config.source },
                        ClipNoticeView::RemoveFile { path: self.work.transformed },
                        progress(Stage::Done, 1000, "Cancelled"@),
                    ],
                    None,
                ),
                Ok(Some(stretch)) => {
                    let notices = seq![
                        progress(Stage::AwaitExport, 100, "Preparing trim\u{2026}"@),
                    ];
                    match trim_place_of(
                        parent_of(self.config.source),
                        file_stem_of(self.config.source),
                    ) {
                        TrimPlaceView::Nowhere { reason } => self.fail(notices, reason),
                        TrimPlaceView::Beside { dir, name } => {
                            let trimmed = joined_path(dir, name);
                            (
                                ClipPipelineView {
                                    work: ClipWorkView { trimmed, ..self.work },
                                    phase: ClipPhase::Cutting,
                                    ..self
                                },
                                ClipTurnView {
                                    notices,
                                    request: ClipRequestView::TrimVideo {
                                        input: self.work.transformed,
                                        output: trimmed,
                                        start_time: stretch.start_time,
                                        end_time: stretch.end_time,
                                    },
                                },
                            )
                        },
                    }
                },
            },
        }
    }

    /// The clip is cut: the files are put into the directory of processed clips.
    #[verifier::opaque]
    pub open spec fn cut(self, error: Option<Seq<char>>) -> (ClipPipelineView, ClipTurnView) {
        match error {
            Some(reason) => self.fail(Seq::empty(), reason),
            None => (
                self.in_phase(ClipPhase::Finalising),
                ClipTurnView {
                    notices: seq![
                        progress(Stage::AwaitExport, 1000, "Trim complete"@),
                        progress(Stage::Finalise, 0, "Finalising files\u{2026}"@),
                    ],
                    request: ClipRequestView::Finalise {
                        source: self.config.source,
                        trimmed: self.work.trimmed,
                        transformed: self.work.transformed,
                        full_name: joined_path(
                            self.config.processed_dir,
                            self.work.safe_title + "_full.mp4"@,
                        ),
                        processed_name: joined_path(
                            self.config.processed_dir,
                            self.work.safe_title + ".mp4"@,
                        ),
                    },
                },
            ),
        }
    }

    /// The files are in place: the clip is uploaded where the user wished so,
    /// and moved to its destination at once where not.
    #[verifier::opaque]
    pub open spec fn finalised(self, files: Result<FinalisedFilesView, Seq<char>>) -> (
        ClipPipelineView,
        ClipTurnView,
    ) {
        match files {
            Err(reason) => self.fail(Seq::empty(), reason),
            Ok(files) => {
                let kept = ClipPipelineView {
                    work: ClipWorkView {
                        out_full: files.out_full,
                        out_processed: files.out_processed,
                        ..self.work
                    },
                    ..self
                };
                let notices = seq![progress(Stage::Finalise, 1000, "Files ready"@)];
                if self.work.upload {
                    (
                        kept.in_phase(ClipPhase::Uploading),
                        ClipTurnView {
                            notices,
                            request: ClipRequestView::Upload {
                                processed_path: files.out_processed,
                                title_with_game: self.title_with_game(),
                                game_label: self.work.safe_game,
                            },
                        },
                    )
                } else {
                    (
                        kept.in_phase(ClipPhase::Moving(AfterMove::Kept)),
                        ClipTurnView {
                            notices,
                            request: ClipRequestView::Relocate {
                                out_full: files.out_full,
                                out_processed: files.out_processed,
                                destination: self.kept_destination(),
                            },
                        },
                    )
                }
            },
        }
    }

    /// The upload is over. A clip whose video is named goes where uploaded
    /// clips go; one whose video is not is kept like one that was never uploaded.
    #[verifier::opaque]
    pub open spec fn uploaded(self, id: Result<Option<Seq<char>>, Seq<char>>) -> (
        ClipPipelineView,
        ClipTurnView,
    ) {
        match id {
            Err(reason) => self.fail(Seq::empty(), reason),
            Ok(Some(video_id)) => (
                ClipPipelineView {
                    work: ClipWorkView { video_id, ..self.work },
                    phase: ClipPhase::Moving(AfterMove::Uploaded),
                    ..self
                },
                ClipTurnView {
                    notices: seq![progress(Stage::Done, 1000, "Upload complete"@)],
                    request: ClipRequestView::Relocate {
                        out_full: self.work.out_full,
                        out_processed: self.work.out_processed,
                        destination: destination_of(
                            self.config.processed_dir,
                            self.title_with_game() + " ["@ + video_id + "]"@,
                            self.work.safe_title,
                        ),
                    },
                },
            ),
            Ok(None) => (
                self.in_phase(ClipPhase::Moving(AfterMove::Unlisted)),
                ClipTurnView {
                    notices: seq![progress(Stage::Done, 1000, "Upload failed - saved locally"@)],
                    request: ClipRequestView::Relocate {
                        out_full: self.work.out_full,
                        out_processed: self.work.out_processed,
                        destination: self.kept_destination(),
                    },
                },
            ),
        }
    }

    /// The record of an upload that failed at `now`: it names the files where
    /// they were wished to lie.
    pub open spec fn failed_record(self, now: u64) -> FailedUploadView {
        FailedUploadView {
            id: upload_id(now, self.work.safe_title),
            title: self.work.safe_title,
            game: self.work.safe_game,
            processed_path: self.kept_destination().processed,
            full_path: self.kept_destination().raw,
            timestamp: now,
        }
    }

    /// The files are moved: the pipeline ends, with the record of the upload
    /// where it failed.
    #[verifier::opaque]
    pub open spec fn moved(self, after: AfterMove, error: Option<Seq<char>>, now: u64) -> (
        ClipPipelineView,
        ClipTurnView,
    ) {
        match error {
            Some(reason) => self.fail(Seq::empty(), reason),
            None => match after {
                AfterMove::Kept => self.finish(
                    seq![progress(Stage::Done, 1000, "Saved (no upload)"@)],
                    None,
                ),
                AfterMove::Uploaded => self.finish(
                    seq![ClipNoticeView::OpenVideo { video_id: self.work.video_id }],
                    None,
                ),
                AfterMove::Unlisted => self.finish(Seq::empty(), Some(self.failed_record(now))),
            },
        }
    }

    /// An answer that does not fit the request ends the pipeline.
    pub open spec fn mismatch(self) -> (ClipPipelineView, ClipTurnView) {
        self.fail(Seq::empty(), "reply does not answer the request"@)
    }

    /// One turn: the answer `reply` to the request of the turn before gives the
    /// next state and the next turn.
    pub open spec fn step(self, reply: ClipReplyView) -> (ClipPipelineView, ClipTurnView) {
        let m = self.in_phase(ClipPhase::Finished);
        match self.phase {
            ClipPhase::Starting => match reply {
                ClipReplyView::Begin => m.begin(),
                _ => m.mismatch(),
            },
            ClipPhase::Detecting => match reply {
                ClipReplyView::Game { configured, detected } => m.detected(configured, detected),
                _ => m.mismatch(),
            },
            ClipPhase::Picking => match reply {
                ClipReplyView::Answered(answer) => m.picked(answer),
                _ => m.mismatch(),
            },
            ClipPhase::Mixing => match reply {
                ClipReplyView::Encoded { error } => m.mixed(error),
                _ => m.mismatch(),
            },
            ClipPhase::Probing => match reply {
                ClipReplyView::Probed(duration) => m.probed(duration),
                _ => m.mismatch(),
            },
            ClipPhase::Selecting => match reply {
                ClipReplyView::Answered(answer) => m.selected(answer),
                _ => m.mismatch(),
            },
            ClipPhase::Cutting => match reply {
                ClipReplyView::Encoded { error } => m.cut(error),
                _ => m.mismatch(),
            },
            ClipPhase::Finalising => match reply {
                ClipReplyView::Finalised(files) => m.finalised(files),
                _ => m.mismatch(),
            },
            ClipPhase::Uploading => match reply {
                ClipReplyView::Uploaded(id) => m.uploaded(id),
                _ => m.mismatch(),
            },
            ClipPhase::Moving(after) => match reply {
                ClipReplyView::Relocated { error, now } => m.moved(after, error, now),
                _ => m.mismatch(),
            },
            ClipPhase::Finished => m.mismatch(),
        }
    }
}

fn no_clip_notices() -> (notices: Vec<ClipNotice>)
    ensures
        notices.deep_view() == Seq::<ClipNoticeView>::empty(),
{
    let notices: Vec<ClipNotice> = Vec::new();
    assert(notices.deep_view() =~= Seq::<ClipNoticeView>::empty());
    notices
}

fn add_clip_notice(notices: &mut Vec<ClipNotice>, notice: ClipNotice)
    ensures
        final(notices).deep_view() == old(notices).deep_view().push(notice@),
{
    notices.push(notice);
    assert(notices.deep_view() =~= old(notices).deep_view().push(notice@));
}

fn progress_notice(stage: Stage, permille: u32, detail: &str) -> (notice: ClipNotice)
    ensures
        notice@ == progress(stage, permille, detail@),
{
    ClipNotice::Progress { stage, permille, detail: detail.to_string(), required: true }
}

fn one_notice(notice: ClipNotice) -> (notices: Vec<ClipNotice>)
    ensures
        notices.deep_view() == seq![notice@],
{
    let mut notices = no_clip_notices();
    add_clip_notice(&mut notices, notice);
    assert(notices.deep_view() =~= seq![notice@]);
    notices
}

impl ClipPipeline {
    /// A pipeline for the clip of `config`. `limiter` is the limit of the audio
    /// mix as the filter graph writes it, `weights` how loud each channel is mixed.
    pub fn new(config: AppConfig, limiter: String, weights: AudioWeights) -> (pipeline: Self)
        ensures
            pipeline@ == (ClipPipelineView {
                config: config@,
                limiter: limiter@,
                weights: weights@,
                work: ClipWorkView {
                    safe_title: Seq::empty(),
                    safe_game: Seq::empty(),
                    upload: false,
                    transformed: Seq::empty(),
                    trimmed: Seq::empty(),
                    out_full: Seq::empty(),
                    out_processed: Seq::empty(),
                    video_id: Seq::empty(),
                },
                phase: ClipPhase::Starting,
            }),
    {
        ClipPipeline {
            config,
            limiter,
            weights,
            work: ClipWork {
                safe_title: String::new(),
                safe_game: String::new(),
                upload: false,
                transformed: String::new(),
                trimmed: String::new(),
                out_full: String::new(),
                out_processed: String::new(),
                video_id: String::new(),
            },
            phase: ClipPhase::Starting,
        }
    }

    /// Whether the pipeline is over.
    pub fn is_finished(&self) -> (finished: bool)
        ensures
            finished == (self@.phase == ClipPhase::Finished),
    {
        match self.phase {
            ClipPhase::Finished => true,
            _ => false,
        }
    }

    fn source_name(&self) -> (name: String)
        ensures
            name@ == self@.source_name(),
    {
        self.config.source_file_name()
    }

    fn title_with_game(&self) -> (name: String)
        ensures
            name@ == self@.title_with_game(),
    {
        if self.work.safe_game.as_str().is_empty() {
            self.work.safe_title.clone()
        } else {
            let mut name = join3(
                self.work.safe_title.as_str(),
                " [",
                self.work.safe_game.as_str(),
            );
            name.append("]");
            name
        }
    }

    fn kept_destination(&self) -> (destination: Destination)
        ensures
            destination@ == self@.kept_destination(),
    {
        move_destination(
            self.config.processed_dir.as_str(),
            self.title_with_game().as_str(),
            self.work.safe_title.as_str(),
        )
    }

    fn finish(&mut self, notices: Vec<ClipNotice>, failed_upload: Option<FailedUpload>) -> (turn:
        ClipTurn)
        ensures
            (final(self)@, turn@) == old(self)@.finish(
                notices.deep_view(),
                failed_upload.deep_view(),
            ),
    {
        self.phase = ClipPhase::Finished;
        ClipTurn { notices, request: ClipRequest::Finish { failed_upload } }
    }

    fn fail(&mut self, notices: Vec<ClipNotice>, reason: String) -> (turn: ClipTurn)
        ensures
            (final(self)@, turn@) == old(self)@.fail(notices.deep_view(), reason@),
    {
        self.phase = ClipPhase::Finished;
        ClipTurn { notices, request: ClipRequest::Fail { reason } }
    }

    fn begin(&mut self) -> (turn: ClipTurn)
        ensures
            (final(self)@, turn@) == old(self)@.begin(),
    {
        proof {
            reveal(ClipPipelineView::begin);
        }
        let mut notices = no_clip_notices();
        add_clip_notice(&mut notices, ClipNotice::Show);
        let detail = join2("Detected: ", self.source_name().as_str());
        add_clip_notice(&mut notices, progress_notice(Stage::Detected, 0, detail.as_str()));
        assert(notices.deep_view() =~= seq![
            ClipNoticeView::Show,
            progress(Stage::Detected, 0, "Detected: "@ + self@.source_name()),
        ]);
        self.phase = ClipPhase::Detecting;
        ClipTurn { notices, request: ClipRequest::DetectGame }
    }

    fn detected(&mut self, configured: Option<String>, detected: Option<String>) -> (turn: ClipTurn)
        ensures
            (final(self)@, turn@) == old(self)@.detected(
                configured.deep_view(),
                detected.deep_view(),
            ),
    {
        proof {
            reveal(ClipPipelineView::detected);
        }
        self.phase = ClipPhase::Picking;
        ClipTurn {
            notices: no_clip_notices(),
            request: ClipRequest::ShowPicker {
                preview_path: self.config.source.clone(),
                default_title: self.source_name(),
                default_game: detect_game_name(configured, detected),
                available_channels: channel_options(),
            },
        }
    }

    fn removal_of_source(&self, detail: &str) -> (notices: Vec<ClipNotice>)
        ensures
            notices.deep_view() == seq![
                ClipNoticeView::RemoveFile { path: self@.config.source },
                progress(Stage::Done, 1000, detail@),
            ],
    {
        let mut notices = no_clip_notices();
        add_clip_notice(&mut notices, ClipNotice::RemoveFile { path: self.config.source.clone() });
        add_clip_notice(&mut notices, progress_notice(Stage::Done, 1000, detail));
        assert(notices.deep_view() =~= seq![
            ClipNoticeView::RemoveFile { path: self@.config.source },
            progress(Stage::Done, 1000, detail@),
        ]);
        notices
    }

    fn picked(&mut self, answer: Result<Option<OverlayResponse>, String>) -> (turn: ClipTurn)
        ensures
            (final(self)@, turn@) == old(self)@.picked(result_view(answer)),
    {
        proof {
            reveal(ClipPipelineView::picked);
        }
        let response = match answer {
            Ok(response) => response,
            Err(reason) => {
                return self.fail(no_clip_notices(), reason);
            },
        };
        let result = match picker_result(response) {
            Ok(Some(result)) => result,
            Ok(None) => {
                let notices = self.removal_of_source("Cancelled");
                return self.finish(notices, None);
            },
            Err(error) => {
                return self.fail(no_clip_notices(), error.message());
            },
        };
        match result.action {
            ActionChoice::Discard => {
                let notices = self.removal_of_source("Discarded");
                self.finish(notices, None)
            },
            _ => {
                let transformed = transformed_path(self.config.source.as_str());
                let selected = select_channels(&result.channels);
                let filter = build_filter_chain(&selected, self.limiter.as_str(), &self.weights);
                let args = mix_args(
                    self.config.source.as_str(),
                    filter.as_str(),
                    transformed.as_str(),
                );
                self.work.safe_title = sanitize_text(result.title.as_str());
                self.work.safe_game = sanitize_text(result.game.as_str());
                self.work.upload = match result.action {
                    ActionChoice::Upload => true,
                    _ => false,
                };
                self.work.transformed = transformed.clone();
                self.phase = ClipPhase::Mixing;
                ClipTurn {
                    notices: one_notice(
                        ClipNotice::Progress {
                            stage: Stage::Transform,
                            permille: 0,
                            detail: "Preparing ffmpeg\u{2026}".to_string(),
                            required: false,
                        },
                    ),
                    request: ClipRequest::MixAudio {
                        args,
                        source: self.config.source.clone(),
                        output: transformed,
                    },
                }
            },
        }
    }

    fn mixed(&mut self, error: Option<String>) -> (turn: ClipTurn)
        ensures
            (final(self)@, turn@) == old(self)@.mixed(error.deep_view()),
    {
        proof {
            reveal(ClipPipelineView::mixed);
        }
        match error {
            Some(reason) => self.fail(no_clip_notices(), reason),
            None => {
                self.phase = ClipPhase::Probing;
                ClipTurn {
                    notices: one_notice(
                        progress_notice(Stage::AwaitExport, 0, "Probing video duration..."),
                    ),
                    request: ClipRequest::ProbeDuration {
                        args: probe_args(self.work.transformed.as_str()),
                    },
                }
            },
        }
    }

    fn probed(&mut self, duration: Result<TrimTime, String>) -> (turn: ClipTurn)
        ensures
            (final(self)@, turn@) == old(self)@.probed(result_view(duration)),
    {
        proof {
            reveal(ClipPipelineView::probed);
        }
        match duration {
            Err(reason) => self.fail(no_clip_notices(), reason),
            Ok(duration) => {
                self.phase = ClipPhase::Selecting;
                ClipTurn {
                    notices: one_notice(
                        progress_notice(Stage::AwaitExport, 50, "Waiting for trim selection..."),
                    ),
                    request: ClipRequest::ShowTrimmer {
                        video_path: self.work.transformed.clone(),
                        duration,
                    },
                }
            },
        }
    }

    fn selected(&mut self, answer: Result<Option<OverlayResponse>, String>) -> (turn: ClipTurn)
        ensures
            (final(self)@, turn@) == old(self)@.selected(result_view(answer)),
    {
        proof {
            reveal(ClipPipelineView::selected);
        }
        let response = match answer {
            Ok(response) => response,
            Err(reason) => {
                return self.fail(no_clip_notices(), reason);
            },
        };
        let stretch = match trimmer_result(response) {
            Ok(Some(stretch)) => stretch,
            Ok(None) => {
                let mut notices = no_clip_notices();
                add_clip_notice(
                    &mut notices,
                    ClipNotice::RemoveFile { path: self.config.source.clone() },
                );
                add_clip_notice(
                    &mut notices,
                    ClipNotice::RemoveFile { path: self.work.transformed.clone() },
                );
                add_clip_notice(&mut notices, progress_notice(Stage::Done, 1000, "Cancelled"));
                assert(notices.deep_view() =~= seq![
                    ClipNoticeView::RemoveFile { path: self@.config.source },
                    ClipNoticeView::RemoveFile { path: self@.work.transformed },
                    progress(Stage::Done, 1000, "Cancelled"@),
                ]);
                return self.finish(notices, None);
            },
            Err(error) => {
                return self.fail(no_clip_notices(), error.message());
            },
        };
        let notices = one_notice(progress_notice(Stage::AwaitExport, 100, "Preparing trim\u{2026}"));
        let output = match trim_place(
            parent(self.config.source.as_str()),
            file_stem(self.config.source.as_str()),
        ) {
            TrimPlace::Beside { dir, name } => join(dir.as_str(), name.as_str()),
            TrimPlace::Nowhere { reason } => {
                return self.fail(notices, reason);
            },
        };
        self.work.trimmed = output.clone();
        self.phase = ClipPhase::Cutting;
        ClipTurn {
            notices,
            request: ClipRequest::TrimVideo {
                input: self.work.transformed.clone(),
                output,
                start_time: stretch.start_time,
                end_time: stretch.end_time,
            },
        }
    }

    fn cut(&mut self, error: Option<String>) -> (turn: ClipTurn)
        ensures
            (final(self)@, turn@) == old(self)@.cut(error.deep_view()),
    {
        proof {
            reveal(ClipPipelineView::cut);
        }
        match error {
            Some(reason) => self.fail(no_clip_notices(), reason),
            None => {
                let mut notices = no_clip_notices();
                add_clip_notice(
                    &mut notices,
                    progress_notice(Stage::AwaitExport, 1000, "Trim complete"),
                );
                add_clip_notice(
                    &mut notices,
                    progress_notice(Stage::Finalise, 0, "Finalising files\u{2026}"),
                );
                assert(notices.deep_view() =~= seq![
                    progress(Stage::AwaitExport, 1000, "Trim complete"@),
                    progress(Stage::Finalise, 0, "Finalising files\u{2026}"@),
                ]);
                let (full_name, processed_name) = finalised_names(
                    self.config.processed_dir.as_str(),
                    self.work.safe_title.as_str(),
                );
                self.phase = ClipPhase::Finalising;
                ClipTurn {
                    notices,
                    request: ClipRequest::Finalise {
                        source: self.config.source.clone(),
                        trimmed: self.work.trimmed.clone(),
                        transformed: self.work.transformed.clone(),
                        full_name,
                        processed_name,
                    },
                }
            },
        }
    }

    fn finalised(&mut self, files: Result<FinalisedFiles, String>) -> (turn: ClipTurn)
        ensures
            (final(self)@, turn@) == old(self)@.finalised(result_view(files)),
    {
        proof {
            reveal(ClipPipelineView::finalised);
        }
        match files {
            Err(reason) => self.fail(no_clip_notices(), reason),
            Ok(files) => {
                let notices = one_notice(progress_notice(Stage::Finalise, 1000, "Files ready"));
                let title_with_game = self.title_with_game();
                let destination = self.kept_destination();
                self.work.out_full = files.out_full.clone();
                self.work.out_processed = files.out_processed.clone();
                if self.work.upload {
                    self.phase = ClipPhase::Uploading;
                    ClipTurn {
                        notices,
                        request: ClipRequest::Upload {
                            processed_path: files.out_processed,
                            title_with_game,
                            game_label: self.work.safe_game.clone(),
                        },
                    }
                } else {
                    self.phase = ClipPhase::Moving(AfterMove::Kept);
                    ClipTurn {
                        notices,
                        request: ClipRequest::Relocate {
                            out_full: files.out_full,
                            out_processed: files.out_processed,
                            destination,
                        },
                    }
                }
            },
        }
    }

    fn uploaded(&mut self, id: Result<Option<String>, String>) -> (turn: ClipTurn)
        ensures
            (final(self)@, turn@) == old(self)@.uploaded(result_view(id)),
    {
        proof {
            reveal(ClipPipelineView::uploaded);
        }
        match id {
            Err(reason) => self.fail(no_clip_notices(), reason),
            Ok(Some(video_id)) => {
                let destination = upload_destination(
                    self.config.processed_dir.as_str(),
                    self.title_with_game().as_str(),
                    self.work.safe_title.as_str(),
                    video_id.as_str(),
                );
                self.work.video_id = video_id;
                self.phase = ClipPhase::Moving(AfterMove::Uploaded);
                ClipTurn {
                    notices: one_notice(progress_notice(Stage::Done, 1000, "Upload complete")),
                    request: ClipRequest::Relocate {
                        out_full: self.work.out_full.clone(),
                        out_processed: self.work.out_processed.clone(),
                        destination,
                    },
                }
            },
            Ok(None) => {
                let destination = self.kept_destination();
                self.phase = ClipPhase::Moving(AfterMove::Unlisted);
                ClipTurn {
                    notices: one_notice(
                        progress_notice(Stage::Done, 1000, "Upload failed - saved locally"),
                    ),
                    request: ClipRequest::Relocate {
                        out_full: self.work.out_full.clone(),
                        out_processed: self.work.out_processed.clone(),
                        destination,
                    },
                }
            },
        }
    }

    fn moved(&mut self, after: AfterMove, error: Option<String>, now: u64) -> (turn: ClipTurn)
        ensures
            (final(self)@, turn@) == old(self)@.moved(after, error.deep_view(), now),
    {
        proof {
            reveal(ClipPipelineView::moved);
        }
        if let Some(reason) = error {
            return self.fail(no_clip_notices(), reason);
        }
        match after {
            AfterMove::Kept => self.finish(
                one_notice(progress_notice(Stage::Done, 1000, "Saved (no upload)")),
                None,
            ),
            AfterMove::Uploaded => {
                let notices = one_notice(
                    ClipNotice::OpenVideo { video_id: self.work.video_id.clone() },
                );
                self.finish(notices, None)
            },
            AfterMove::Unlisted => {
                let destination = self.kept_destination();
                let record = FailedUpload::new(
                    self.work.safe_title.clone(),
                    self.work.safe_game.clone(),
                    destination.processed,
                    destination.raw,
                    now,
                );
                self.finish(no_clip_notices(), Some(record))
            },
        }
    }

    fn mismatch(&mut self) -> (turn: ClipTurn)
        ensures
            (final(self)@, turn@) == old(self)@.mismatch(),
    {
        self.fail(no_clip_notices(), "reply does not answer the request".to_string())
    }

    /// One turn of the pipeline. `reply` answers the request of the turn before;
    /// `ClipReply::Begin` opens the pipeline.
    ///
    /// What each phase makes of its answer is an opaque function of the model:
    /// `reveal` the one in question to reason about a particular turn.
    pub fn step(&mut self, reply: ClipReply) -> (turn: ClipTurn)
        ensures
            (final(self)@, turn@) == old(self)@.step(reply@),
    {
        let phase = self.phase;
        self.phase = ClipPhase::Finished;
        match phase {
            ClipPhase::Starting => match reply {
                ClipReply::Begin => self.begin(),
                _ => self.mismatch(),
            },
            ClipPhase::Detecting => match reply {
                ClipReply::Game { configured, detected } => self.detected(configured, detected),
                _ => self.mismatch(),
            },
            ClipPhase::Picking => match reply {
                ClipReply::Answered(answer) => self.picked(answer),
                _ => self.mismatch(),
            },
            ClipPhase::Mixing => match reply {
                ClipReply::Encoded { error } => self.mixed(error),
                _ => self.mismatch(),
            },
            ClipPhase::Probing => match reply {
                ClipReply::Probed(duration) => self.probed(duration),
                _ => self.mismatch(),
            },
            ClipPhase::Selecting => match reply {
                ClipReply::Answered(answer) => self.selected(answer),
                _ => self.mismatch(),
            },
            ClipPhase::Cutting => match reply {
                ClipReply::Encoded { error } => self.cut(error),
                _ => self.mismatch(),
            },
            ClipPhase::Finalising => match reply {
                ClipReply::Finalised(files) => self.finalised(files),
                _ => self.mismatch(),
            },
            ClipPhase::Uploading => match reply {
                ClipReply::Uploaded(id) => self.uploaded(id),
                _ => self.mismatch(),
            },
            ClipPhase::Moving(after) => match reply {
                ClipReply::Relocated { error, now } => self.moved(after, error, now),
                _ => self.mismatch(),
            },
            ClipPhase::Finished => self.mismatch(),
        }
    }
}

/// The answer that a request waits for is the one that the phase will take.
pub open spec fn clip_awaits(phase: ClipPhase, request: ClipRequestView) -> bool {
    match request {
        ClipRequestView::DetectGame => phase == ClipPhase::Detecting,
        ClipRequestView::ShowPicker { .. } => phase == ClipPhase::Picking,
        ClipRequestView::MixAudio { .. } => phase == ClipPhase::Mixing,
        ClipRequestView::ProbeDuration { .. } => phase == ClipPhase::Probing,
        ClipRequestView::ShowTrimmer { .. } => phase == ClipPhase::Selecting,
        ClipRequestView::TrimVideo { .. } => phase == ClipPhase::Cutting,
        ClipRequestView::Finalise { .. } => phase == ClipPhase::Finalising,
        ClipRequestView::Relocate { .. } => phase is Moving,
        ClipRequestView::Upload { .. } => phase == ClipPhase::Uploading,
        ClipRequestView::Finish { .. } => phase == ClipPhase::Finished,
        ClipRequestView::Fail { .. } => phase == ClipPhase::Finished,
    }
}

/// Whether some notice of `notices` deletes a file.
pub open spec fn removes_a_file(notices: Seq<ClipNoticeView>) -> bool {
    exists|i: int| 0 <= i < notices.len() && (#[trigger] notices[i]) is RemoveFile
}

/// Every turn leaves the pipeline in the phase that takes the answer to the
/// turn's request, and an answer of the wrong kind ends it.
pub proof fn lemma_clip_turns_fit(pipeline: ClipPipelineView, reply: ClipReplyView)
    ensures
        clip_awaits(pipeline.step(reply).0.phase, pipeline.step(reply).1.request),
        pipeline.step(reply).0.config == pipeline.config,
{
    reveal(ClipPipelineView::begin);
    reveal(ClipPipelineView::detected);
    reveal(ClipPipelineView::picked);
    reveal(ClipPipelineView::mixed);
    reveal(ClipPipelineView::probed);
    reveal(ClipPipelineView::selected);
    reveal(ClipPipelineView::cut);
    reveal(ClipPipelineView::finalised);
    reveal(ClipPipelineView::uploaded);
    reveal(ClipPipelineView::moved);
}

/// A step that could not be done ends the pipeline: nothing more is asked for.
pub proof fn lemma_failure_ends_the_pipeline(pipeline: ClipPipelineView, reply: ClipReplyView)
    requires
        reply matches ClipReplyView::Answered(Err(_)) || reply matches ClipReplyView::Encoded {
            error: Some(_),
        } || reply matches ClipReplyView::Probed(Err(_)) || reply matches ClipReplyView::Finalised(
            Err(_),
        ) || reply matches ClipReplyView::Relocated { error: Some(_), .. }
            || reply matches ClipReplyView::Uploaded(Err(_)),
    ensures
        pipeline.step(reply).1.request is Fail,
        pipeline.step(reply).1.notices.len() == 0,
        pipeline.step(reply).0.phase == ClipPhase::Finished,
{
    reveal(ClipPipelineView::picked);
    reveal(ClipPipelineView::mixed);
    reveal(ClipPipelineView::probed);
    reveal(ClipPipelineView::selected);
    reveal(ClipPipelineView::cut);
    reveal(ClipPipelineView::finalised);
    reveal(ClipPipelineView::uploaded);
    reveal(ClipPipelineView::moved);
}

/// Files are deleted only when the user cancels or discards the clip: the
/// source where the picker was answered so, the source and its mix where the
/// trimmer was cancelled. The pipeline then ends without a record.
pub proof fn lemma_files_are_removed_on_request_only(
    pipeline: ClipPipelineView,
    reply: ClipReplyView,
)
    requires
        removes_a_file(pipeline.step(reply).1.notices),
    ensures
        pipeline.step(reply).1.request == (ClipRequestView::Finish { failed_upload: None }),
        pipeline.phase == ClipPhase::Picking || pipeline.phase == ClipPhase::Selecting,
        reply matches ClipReplyView::Answered(Ok(response)) && {
            ||| response == Some(crate::overlay::OverlayResponseView::Cancelled)
            ||| (pipeline.phase == ClipPhase::Picking && (picker_outcome(response) matches Ok(
                Some(result),
            ) && result.action == ActionChoice::Discard))
        },
        pipeline.step(reply).1.notices[0] == (ClipNoticeView::RemoveFile {
            path: pipeline.config.source,
        }),
{
    reveal(ClipPipelineView::begin);
    reveal(ClipPipelineView::detected);
    reveal(ClipPipelineView::picked);
    reveal(ClipPipelineView::mixed);
    reveal(ClipPipelineView::probed);
    reveal(ClipPipelineView::selected);
    reveal(ClipPipelineView::cut);
    reveal(ClipPipelineView::finalised);
    reveal(ClipPipelineView::uploaded);
    reveal(ClipPipelineView::moved);
    let turn = pipeline.step(reply).1;
    let i = choose|i: int| 0 <= i < turn.notices.len() && (#[trigger] turn.notices[i]) is RemoveFile;
    assert(turn.notices[i] is RemoveFile);
}

/// The pipeline ends with the record of a failed upload exactly when the upload
/// named no video and the clip was then moved to where kept clips go; the
/// record names the clip and the two files there.
pub proof fn lemma_record_of_a_failed_upload(pipeline: ClipPipelineView, reply: ClipReplyView)
    ensures
        pipeline.step(reply).1.request matches ClipRequestView::Finish { failed_upload: Some(_) }
            <==> (pipeline.phase == ClipPhase::Moving(AfterMove::Unlisted)
            && reply matches ClipReplyView::Relocated { error: None, .. }),
        pipeline.phase == ClipPhase::Moving(AfterMove::Unlisted) ==> (
        reply matches ClipReplyView::Relocated { error: None, now } ==> pipeline.step(
            reply,
        ).1.request == (ClipRequestView::Finish {
            failed_upload: Some(pipeline.failed_record(now)),
        })),
{
    reveal(ClipPipelineView::begin);
    reveal(ClipPipelineView::detected);
    reveal(ClipPipelineView::picked);
    reveal(ClipPipelineView::mixed);
    reveal(ClipPipelineView::probed);
    reveal(ClipPipelineView::selected);
    reveal(ClipPipelineView::cut);
    reveal(ClipPipelineView::finalised);
    reveal(ClipPipelineView::uploaded);
    reveal(ClipPipelineView::moved);
}

/// An upload is asked for only where the user chose it, and a clip is moved
/// to where uploaded clips go only once its video is named.
pub proof fn lemma_upload_only_when_chosen(pipeline: ClipPipelineView, reply: ClipReplyView)
    ensures
        pipeline.step(reply).1.request is Upload ==> pipeline.phase == ClipPhase::Finalising
            && pipeline.work.upload,
        pipeline.step(reply).0.phase == ClipPhase::Moving(AfterMove::Uploaded) ==> (
        pipeline.phase == ClipPhase::Uploading && (reply matches ClipReplyView::Uploaded(
            Ok(Some(video_id)),
        ) && pipeline.step(reply).0.work.video_id == video_id)),
{
    reveal(ClipPipelineView::begin);
    reveal(ClipPipelineView::detected);
    reveal(ClipPipelineView::picked);
    reveal(ClipPipelineView::mixed);
    reveal(ClipPipelineView::probed);
    reveal(ClipPipelineView::selected);
    reveal(ClipPipelineView::cut);
    reveal(ClipPipelineView::finalised);
    reveal(ClipPipelineView::uploaded);
    reveal(ClipPipelineView::moved);
}



/// A clip whose upload goes through on a later try is moved to the very place
/// it would have gone to had the first upload gone through with that video.
pub proof fn lemma_retry_goes_where_uploads_go(
    pipeline: ClipPipelineView,
    upload: FailedUploadView,
    video_id: Seq<char>,
)
    requires
        pipeline.work.safe_title == upload.title,
        pipeline.work.safe_game == upload.game,
    ensures
        pipeline.uploaded(Ok(Some(video_id))).1.request matches ClipRequestView::Relocate {
            destination,
            ..
        } && destination == crate::clip::retry_destination_of(
            pipeline.config.processed_dir,
            upload,
            video_id,
        ),
{
    reveal(ClipPipelineView::uploaded);
}

/// The record that the pipeline makes of a failed upload names the clip as the
/// user named it, so a later retry finds the title and the game it needs.
pub proof fn lemma_record_carries_the_names(pipeline: ClipPipelineView, now: u64)
    ensures
        pipeline.failed_record(now).title == pipeline.work.safe_title,
        pipeline.failed_record(now).game == pipeline.work.safe_game,
        pipeline.failed_record(now).display_name() == pipeline.title_with_game(),
{
}

} // verus!
