use vstd::prelude::*;
use crate::capture::{
    clone_text, ChildPoll, ChildPollView, LaunchOutcome, LaunchOutcomeView, RecorderCommand,
    RecorderCommandView, ReplayController, ReplayControllerView, ReplaySettings,
    ReplaySettingsView, ReplayStatus, ReplayStatusView, SaveOutcome, SaveOutcomeView, SavePlan,
    SignalNumbers, StartPlan, StartPlanView, ApplyPlan, ApplyPlanView,
};
use crate::clip::{retry_destination, retry_destination_of, Destination, DestinationView};
use crate::failed_uploads::{
    lookup, without, FailedUpload, FailedUploadView, FailedUploadsList,
};
use crate::overlay::{
    CaptureActionPayload, CaptureActionPayloadView, CaptureSettingsPayload,
    CaptureSettingsPayloadView, CaptureStatusPayload, CaptureStatusPayloadView, FailedUploadEntry,
    FailedUploadEntryView,
};
use crate::settings::{PersistedSettings, PersistedSettingsView, ReplayMode};
use crate::text::{blank, is_blank, join2, join3, same_text};

verus! {

/// How often the session looks for a running game, in seconds.
pub const DETECTION_INTERVAL_SECONDS: u64 = 5;

/// The word that stands for `mode` on the wire.
pub open spec fn mode_word(mode: ReplayMode) -> Seq<char> {
    match mode {
        ReplayMode::Manual => "manual"@,
        ReplayMode::AutoWithGame => "auto"@,
    }
}

/// The mode that a word from the wire asks for: the automatic one for its own
/// word, the manual one for any other.
pub open spec fn mode_of_word(word: Seq<char>) -> ReplayMode {
    if word == "auto"@ {
        ReplayMode::AutoWithGame
    } else {
        ReplayMode::Manual
    }
}

pub fn mode_name(mode: ReplayMode) -> (word: &'static str)
    ensures
        word@ == mode_word(mode),
{
    match mode {
        ReplayMode::Manual => "manual",
        ReplayMode::AutoWithGame => "auto",
    }
}

pub fn parse_mode(word: &str) -> (mode: ReplayMode)
    ensures
        mode == mode_of_word(word@),
{
    if same_text(word, "auto") {
        ReplayMode::AutoWithGame
    } else {
        ReplayMode::Manual
    }
}

/// Each mode is read back from its own word.
pub proof fn lemma_mode_word_round_trip(mode: ReplayMode)
    ensures
        mode_of_word(mode_word(mode)) == mode,
{
    reveal_strlit("manual");
    reveal_strlit("auto");
    assert("manual"@.len() != "auto"@.len());
}

/// The duration that a save request names: zero stands for the whole buffer.
pub open spec fn requested_duration(duration_secs: u32) -> Option<u32> {
    if duration_secs == 0 {
        None
    } else {
        Some(duration_secs)
    }
}

/// What a look for a running game means for the recorder.
#[derive(Debug, Clone, Copy, PartialEq, Eq, Structural)]
pub enum GameTransition {
    /// A game runs that did not before: the recorder is to run.
    Appeared,
    /// No game runs where one did before: the recorder is to stop.
    Vanished,
    /// Nothing changed: the recorder is left alone.
    Steady,
}

/// The recorder is started and stopped on the edges of a game's presence only.
pub open spec fn game_transition(was_running: bool, present: bool) -> GameTransition {
    if present && !was_running {
        GameTransition::Appeared
    } else if !present && was_running {
        GameTransition::Vanished
    } else {
        GameTransition::Steady
    }
}

pub fn detect_transition(was_running: bool, present: bool) -> (transition: GameTransition)
    ensures
        transition == game_transition(was_running, present),
{
    if present && !was_running {
        GameTransition::Appeared
    } else if !present && was_running {
        GameTransition::Vanished
    } else {
        GameTransition::Steady
    }
}

/// The settings that a request from the panel leaves: the numbers are taken
/// over, the target unless it is blank, the tracks unless there are none.
pub open spec fn merged_settings(
    current: ReplaySettingsView,
    request: CaptureSettingsPayloadView,
) -> ReplaySettingsView {
    ReplaySettingsView {
        target: if is_blank(request.target) {
            current.target
        } else {
            request.target
        },
        buffer_seconds: request.buffer_seconds,
        bitrate: request.bitrate,
        fps: request.fps,
        audio_tracks: if request.audio_tracks.len() == 0 {
            current.audio_tracks
        } else {
            request.audio_tracks
        },
        ..current
    }
}

pub fn merge_settings(current: &ReplaySettings, request: &CaptureSettingsPayload) -> (merged:
    ReplaySettings)
    ensures
        merged@ == merged_settings(current@, request@),
{
    let mut merged = current.clone();
    if !blank(request.target.as_str()) {
        merged.target = request.target.clone();
    }
    merged.buffer_seconds = request.buffer_seconds;
    merged.bitrate = request.bitrate;
    merged.fps = request.fps;
    if request.audio_tracks.len() != 0 {
        merged.audio_tracks = request.audio_tracks.clone();
    }
    merged
}

/// The line of the failed-uploads list that stands for `upload`.
pub open spec fn entry_of(upload: FailedUploadView) -> FailedUploadEntryView {
    FailedUploadEntryView { id: upload.id, display_name: upload.display_name() }
}

pub fn failed_uploads_to_entries(uploads: &FailedUploadsList) -> (entries: Vec<FailedUploadEntry>)
    ensures
        entries.deep_view() == uploads@.map_values(|u: FailedUploadView| entry_of(u)),
{
    let mut entries: Vec<FailedUploadEntry> = Vec::new();
    let mut i: usize = 0;
    while i < uploads.uploads.len()
        invariant
            i <= uploads.uploads.len(),
            entries.len() == i,
            forall|j: int| 0 <= j < i ==> (#[trigger] entries[j])@ == entry_of(uploads@[j]),
        decreases uploads.uploads.len() - i,
    {
        let upload = &uploads.uploads[i];
        assert(uploads@[i as int] == upload@);
        entries.push(
            FailedUploadEntry { id: upload.id.clone(), display_name: upload.display_name() },
        );
        i = i + 1;
    }
    assert(entries.deep_view() =~= uploads@.map_values(|u: FailedUploadView| entry_of(u)));
    entries
}

/// The snapshot that the panel is sent: the recorder's status, the hotkey, the
/// failed uploads and the mode, with no save under way.
pub open spec fn capture_status(
    status: ReplayStatusView,
    hotkey: Seq<char>,
    uploads: Seq<FailedUploadView>,
    mode: ReplayMode,
) -> CaptureStatusPayloadView {
    CaptureStatusPayloadView {
        running: status.running,
        buffer_seconds: status.buffer_seconds,
        bitrate: status.bitrate,
        fps: status.fps,
        target: status.target,
        audio_tracks: status.audio_tracks,
        last_saved: status.last_saved,
        hotkey,
        message: status.message,
        is_saving: false,
        failed_uploads: uploads.map_values(|u: FailedUploadView| entry_of(u)),
        replay_mode: mode_word(mode),
    }
}

pub fn build_capture_status(
    status: &ReplayStatus,
    hotkey: &str,
    failed_uploads: &FailedUploadsList,
    replay_mode: ReplayMode,
) -> (payload: CaptureStatusPayload)
    ensures
        payload@ == capture_status(status@, hotkey@, failed_uploads@, replay_mode),
{
    CaptureStatusPayload {
        running: status.running,
        buffer_seconds: status.buffer_seconds,
        bitrate: status.bitrate,
        fps: status.fps,
        target: status.target.clone(),
        audio_tracks: status.audio_tracks.clone(),
        last_saved: clone_text(&status.last_saved),
        hotkey: hotkey.to_string(),
        message: clone_text(&status.message),
        is_saving: false,
        failed_uploads: failed_uploads_to_entries(failed_uploads),
        replay_mode: mode_name(replay_mode).to_string(),
    }
}

/// How a session begins.
#[derive(Debug, PartialEq, Eq)]
pub struct SessionStart {
    pub settings: ReplaySettings,
    pub mode: ReplayMode,
    /// Whether the recorder is started before the first look at the panel.
    pub start_now: bool,
}

pub struct SessionStartView {
    pub settings: ReplaySettingsView,
    pub mode: ReplayMode,
    pub start_now: bool,
}

impl View for SessionStart {
    type V = SessionStartView;

    open spec fn view(&self) -> SessionStartView {
        SessionStartView { settings: self.settings@, mode: self.mode, start_now: self.start_now }
    }
}

/// The start of a session from the configured defaults and what was persisted:
/// without a record, manual mode and the configured wish to start; with one, its
/// settings and mode, and in manual mode its enabled flag. Only manual mode
/// starts the recorder at once.
pub open spec fn restored_start(
    defaults: ReplaySettingsView,
    auto_start: bool,
    persisted: Option<PersistedSettingsView>,
) -> SessionStartView {
    match persisted {
        Some(record) => SessionStartView {
            settings: record.applied_to(defaults),
            mode: record.replay_mode,
            start_now: record.replay_mode == ReplayMode::Manual && record.replay_enabled,
        },
        None => SessionStartView {
            settings: defaults,
            mode: ReplayMode::Manual,
            start_now: auto_start,
        },
    }
}

pub fn restore_session(
    defaults: ReplaySettings,
    auto_start: bool,
    persisted: Option<&PersistedSettings>,
) -> (start: SessionStart)
    ensures
        start@ == restored_start(defaults@, auto_start, persisted.deep_view()),
{
    let mut settings = defaults;
    match persisted {
        Some(record) => {
            record.apply_to_replay_settings(&mut settings);
            let start_now = match record.replay_mode {
                ReplayMode::Manual => record.replay_enabled,
                ReplayMode::AutoWithGame => false,
            };
            SessionStart { settings, mode: record.replay_mode, start_now }
        },
        None => SessionStart { settings, mode: ReplayMode::Manual, start_now: auto_start },
    }
}

/// How an upload that was tried again went.
#[derive(Debug, PartialEq, Eq)]
pub enum UploadOutcome {
    Uploaded { video_id: String },
    /// The upload tool succeeded but named no video.
    NoVideoId,
    Failed { reason: String },
}

pub enum UploadOutcomeView {
    Uploaded { video_id: Seq<char> },
    NoVideoId,
    Failed { reason: Seq<char> },
}

impl View for UploadOutcome {
    type V = UploadOutcomeView;

    open spec fn view(&self) -> UploadOutcomeView {
        match self {
            UploadOutcome::Uploaded { video_id } => UploadOutcomeView::Uploaded {
                video_id: video_id@,
            },
            UploadOutcome::NoVideoId => UploadOutcomeView::NoVideoId,
            UploadOutcome::Failed { reason } => UploadOutcomeView::Failed { reason: reason@ },
        }
    }
}

/// What the session was woken by.
#[derive(Debug, PartialEq, Eq)]
pub enum LoopEvent {
    /// The user acted on the panel.
    Action(CaptureActionPayload),
    /// The peer cancelled or closed its stream.
    Closed,
    /// A message arrived that could not be read.
    ReceiveFailed { reason: String },
    /// The detection interval has passed.
    Tick,
}

pub enum LoopEventView {
    Action(CaptureActionPayloadView),
    Closed,
    ReceiveFailed { reason: Seq<char> },
    Tick,
}

impl View for LoopEvent {
    type V = LoopEventView;

    open spec fn view(&self) -> LoopEventView {
        match self {
            LoopEvent::Action(action) => LoopEventView::Action(action@),
            LoopEvent::Closed => LoopEventView::Closed,
            LoopEvent::ReceiveFailed { reason } => LoopEventView::ReceiveFailed {
                reason: reason@,
            },
            LoopEvent::Tick => LoopEventView::Tick,
        }
    }
}

/// The answer to the request of the turn before.
#[derive(Debug, PartialEq, Eq)]
pub enum Reply {
    /// Answers nothing: opens the session.
    Begin,
    /// Answers `Launch`.
    Launched(LaunchOutcome),
    /// Answers `TriggerSave`.
    Saved(SaveOutcome),
    /// Answers `ShowCapture`, `PushStatus` and `SetVisible`: the error, if the
    /// message could not be sent.
    Sent { error: Option<String> },
    /// Answers `DetectGame`: the name of the running game, empty where none
    /// runs, or nothing where the look failed, which counts as no game.
    Game { name: Option<String> },
    /// Answers `RetryUpload`.
    Upload(UploadOutcome),
    /// Answers `AwaitEvent`.
    Event(LoopEvent),
    /// Answers `ProcessClip`: the clip has been dealt with, and where its upload
    /// failed, this is the record of it.
    ClipDone { failed_upload: Option<FailedUpload> },
}

pub enum ReplyView {
    Begin,
    Launched(LaunchOutcomeView),
    Saved(SaveOutcomeView),
    Sent { error: Option<Seq<char>> },
    Game { name: Option<Seq<char>> },
    Upload(UploadOutcomeView),
    Event(LoopEventView),
    ClipDone { failed_upload: Option<FailedUploadView> },
}

impl View for Reply {
    type V = ReplyView;

    open spec fn view(&self) -> ReplyView {
        match self {
            Reply::Begin => ReplyView::Begin,
            Reply::Launched(outcome) => ReplyView::Launched(outcome@),
            Reply::Saved(outcome) => ReplyView::Saved(outcome@),
            Reply::Sent { error } => ReplyView::Sent { error: error.deep_view() },
            Reply::Game { name } => ReplyView::Game { name: name.deep_view() },
            Reply::Upload(outcome) => ReplyView::Upload(outcome@),
            Reply::Event(event) => ReplyView::Event(event@),
            Reply::ClipDone { failed_upload } => ReplyView::ClipDone {
                failed_upload: failed_upload.deep_view(),
            },
        }
    }
}

/// Something to be done whose result the session does not wait for. A failure
/// is for the caller to log.
#[derive(Debug, PartialEq, Eq)]
pub enum Notice {
    /// Interrupt the recorder process `pid` and wait until it is gone.
    Interrupt { pid: u32 },
    /// Write the session settings to their file.
    SaveSettings(PersistedSettings),
    /// Write the failed-uploads list to its file.
    SaveFailedUploads(FailedUploadsList),
    /// Delete the two files of a discarded upload, where they exist.
    DeleteFiles { processed_path: String, full_path: String },
    /// Move the files of an upload that went through on a later try to where an
    /// uploaded clip belongs: to `destination`, each under the next free name.
    Relocate { upload: FailedUpload, video_id: String, destination: Destination },
}

pub enum NoticeView {
    Interrupt { pid: u32 },
    SaveSettings(PersistedSettingsView),
    SaveFailedUploads(Seq<FailedUploadView>),
    DeleteFiles { processed_path: Seq<char>, full_path: Seq<char> },
    Relocate { upload: FailedUploadView, video_id: Seq<char>, destination: DestinationView },
}

impl View for Notice {
    type V = NoticeView;

    open spec fn view(&self) -> NoticeView {
        match self {
            Notice::Interrupt { pid } => NoticeView::Interrupt { pid: *pid },
            Notice::SaveSettings(settings) => NoticeView::SaveSettings(settings@),
            Notice::SaveFailedUploads(list) => NoticeView::SaveFailedUploads(list@),
            Notice::DeleteFiles { processed_path, full_path } => NoticeView::DeleteFiles {
                processed_path: processed_path@,
                full_path: full_path@,
            },
            Notice::Relocate { upload, video_id, destination } => NoticeView::Relocate {
                upload: upload@,
                video_id: video_id@,
                destination: destination@,
            },
        }
    }
}

impl DeepView for Notice {
    type V = NoticeView;

    open spec fn deep_view(&self) -> NoticeView {
        self@
    }
}

/// What the session waits for next. The caller does it and answers with the
/// matching `Reply`.
#[derive(Debug, PartialEq, Eq)]
pub enum Request {
    /// Make the output directory if it is missing, start the recorder and drain
    /// its output.
    Launch(RecorderCommand),
    /// Deliver the signal, wait out the grace interval, list the output directory.
    TriggerSave(SavePlan),
    /// Open the capture panel with this status.
    ShowCapture(CaptureStatusPayload),
    /// Send this status to the panel.
    PushStatus(CaptureStatusPayload),
    /// Show or hide the overlay, unless it is so already.
    SetVisible { visible: bool },
    /// Look for a running game.
    DetectGame,
    /// Try the upload of this record again.
    RetryUpload(FailedUpload),
    /// Wait for the user's next action or for the next tick of the detection
    /// interval, which is so many seconds long, whichever comes first. A tick
    /// that was missed while the session was busy is dropped.
    AwaitEvent { tick_seconds: u64 },
    /// Hand the saved clip to the clip-finishing pipeline.
    ProcessClip { path: String },
    /// The session is over: the peer is gone.
    Exit,
    /// The session is over: it cannot go on.
    Abort { reason: String },
}

pub enum RequestView {
    Launch(RecorderCommandView),
    TriggerSave(SavePlan),
    ShowCapture(CaptureStatusPayloadView),
    PushStatus(CaptureStatusPayloadView),
    SetVisible { visible: bool },
    DetectGame,
    RetryUpload(FailedUploadView),
    AwaitEvent { tick_seconds: u64 },
    ProcessClip { path: Seq<char> },
    Exit,
    Abort { reason: Seq<char> },
}

impl View for Request {
    type V = RequestView;

    open spec fn view(&self) -> RequestView {
        match self {
            Request::Launch(command) => RequestView::Launch(command@),
            Request::TriggerSave(plan) => RequestView::TriggerSave(*plan),
            Request::ShowCapture(status) => RequestView::ShowCapture(status@),
            Request::PushStatus(status) => RequestView::PushStatus(status@),
            Request::SetVisible { visible } => RequestView::SetVisible { visible: *visible },
            Request::DetectGame => RequestView::DetectGame,
            Request::RetryUpload(upload) => RequestView::RetryUpload(upload@),
            Request::AwaitEvent { tick_seconds } => RequestView::AwaitEvent {
                tick_seconds: *tick_seconds,
            },
            Request::ProcessClip { path } => RequestView::ProcessClip { path: path@ },
            Request::Exit => RequestView::Exit,
            Request::Abort { reason } => RequestView::Abort { reason: reason@ },
        }
    }
}

/// One turn of the session: what to do without waiting, in this order, and
/// then what to do and answer.
#[derive(Debug, PartialEq, Eq)]
pub struct Turn {
    pub notices: Vec<Notice>,
    pub request: Request,
}

pub struct TurnView {
    pub notices: Seq<NoticeView>,
    pub request: RequestView,
}

impl View for Turn {
    type V = TurnView;

    open spec fn view(&self) -> TurnView {
        TurnView { notices: self.notices.deep_view(), request: self.request@ }
    }
}

/// Why the game was looked for.
#[derive(Debug, Clone, Copy, PartialEq, Eq, Structural)]
pub enum DetectReason {
    /// The panel was just opened.
    Entry,
    /// The detection interval has passed.
    Tick,
    /// The user has switched to the automatic mode.
    ModeSwitch,
}

/// Why the recorder is being launched.
#[derive(Debug, PartialEq, Eq)]
pub enum LaunchPurpose {
    Startup,
    Toggle,
    Detection { game: String, reason: DetectReason },
    Apply { merged: ReplaySettings },
}

pub enum LaunchPurposeView {
    Startup,
    Toggle,
    Detection { game: Seq<char>, reason: DetectReason },
    Apply { merged: ReplaySettingsView },
}

impl View for LaunchPurpose {
    type V = LaunchPurposeView;

    open spec fn view(&self) -> LaunchPurposeView {
        match self {
            LaunchPurpose::Startup => LaunchPurposeView::Startup,
            LaunchPurpose::Toggle => LaunchPurposeView::Toggle,
            LaunchPurpose::Detection { game, reason } => LaunchPurposeView::Detection {
                game: game@,
                reason: *reason,
            },
            LaunchPurpose::Apply { merged } => LaunchPurposeView::Apply { merged: merged@ },
        }
    }
}

/// What follows once a status has been sent.
#[derive(Debug, PartialEq, Eq)]
pub enum AfterPush {
    /// The wait for the next event.
    Await,
    /// The save that the status announced.
    Trigger { duration: Option<u32> },
    /// Another status, made afresh.
    Fresh,
    /// The hand-over of the saved clip.
    Finish { path: String },
    /// The capture panel, opened again.
    Show,
}

pub enum AfterPushView {
    Await,
    Trigger { duration: Option<u32> },
    Fresh,
    Finish { path: Seq<char> },
    Show,
}

impl View for AfterPush {
    type V = AfterPushView;

    open spec fn view(&self) -> AfterPushView {
        match self {
            AfterPush::Await => AfterPushView::Await,
            AfterPush::Trigger { duration } => AfterPushView::Trigger { duration: *duration },
            AfterPush::Fresh => AfterPushView::Fresh,
            AfterPush::Finish { path } => AfterPushView::Finish { path: path@ },
            AfterPush::Show => AfterPushView::Show,
        }
    }
}

/// Where the session stands: which answer it waits for, and what it will do
/// with it.
#[derive(Debug, PartialEq, Eq)]
pub enum Phase {
    Starting { start_now: bool },
    Launching(LaunchPurpose),
    Showing,
    Detecting(DetectReason),
    Pushing(AfterPush),
    Waiting,
    Saving,
    Revealing { path: String, status: CaptureStatusPayload },
    Retrying { upload: FailedUpload },
    Processing,
    Finished,
}

pub enum PhaseView {
    Starting { start_now: bool },
    Launching(LaunchPurposeView),
    Showing,
    Detecting(DetectReason),
    Pushing(AfterPushView),
    Waiting,
    Saving,
    Revealing { path: Seq<char>, status: CaptureStatusPayloadView },
    Retrying { upload: FailedUploadView },
    Processing,
    Finished,
}

impl View for Phase {
    type V = PhaseView;

    open spec fn view(&self) -> PhaseView {
        match self {
            Phase::Starting { start_now } => PhaseView::Starting { start_now: *start_now },
            Phase::Launching(purpose) => PhaseView::Launching(purpose@),
            Phase::Showing => PhaseView::Showing,
            Phase::Detecting(reason) => PhaseView::Detecting(*reason),
            Phase::Pushing(after) => PhaseView::Pushing(after@),
            Phase::Waiting => PhaseView::Waiting,
            Phase::Saving => PhaseView::Saving,
            Phase::Revealing { path, status } => PhaseView::Revealing {
                path: path@,
                status: status@,
            },
            Phase::Retrying { upload } => PhaseView::Retrying { upload: upload@ },
            Phase::Processing => PhaseView::Processing,
            Phase::Finished => PhaseView::Finished,
        }
    }
}


/// One capture session: the mode, the recorder's supervisor, the failed
/// uploads, and where the session stands. It never does anything itself: each
/// turn says what is to be done, and the next turn takes in how it went.
#[derive(Debug, PartialEq, Eq)]
pub struct CaptureLoop {
    hotkey: String,
    processed_dir: String,
    signals: SignalNumbers,
    mode: ReplayMode,
    game_was_running: bool,
    controller: ReplayController,
    failed_uploads: FailedUploadsList,
    phase: Phase,
}

pub struct CaptureLoopView {
    pub hotkey: Seq<char>,
    /// The directory below which finished clips are kept.
    pub processed_dir: Seq<char>,
    pub signals: SignalNumbers,
    pub mode: ReplayMode,
    /// Whether a game ran at the last look in automatic mode.
    pub game_was_running: bool,
    pub controller: ReplayControllerView,
    pub failed_uploads: Seq<FailedUploadView>,
    pub phase: PhaseView,
}

impl View for CaptureLoop {
    type V = CaptureLoopView;

    closed spec fn view(&self) -> CaptureLoopView {
        CaptureLoopView {
            hotkey: self.hotkey@,
            processed_dir: self.processed_dir@,
            signals: self.signals,
            mode: self.mode,
            game_was_running: self.game_was_running,
            controller: self.controller@,
            failed_uploads: self.failed_uploads@,
            phase: self.phase@,
        }
    }
}

/// The game that a look found running: the empty name where none runs, and
/// where the look failed.
pub open spec fn seen_game(name: Option<Seq<char>>) -> Seq<char> {
    match name {
        Some(game) => game,
        None => Seq::empty(),
    }
}

/// The notice that lets a process go, where there is one.
pub open spec fn interrupt_notices(child: Option<u32>) -> Seq<NoticeView> {
    match child {
        Some(pid) => seq![NoticeView::Interrupt { pid }],
        None => Seq::empty(),
    }
}

impl CaptureLoopView {
    pub open spec fn with_message(self, text: Seq<char>) -> CaptureLoopView {
        CaptureLoopView {
            controller: ReplayControllerView { last_message: Some(text), ..self.controller },
            ..self
        }
    }

    pub open spec fn with_controller(self, controller: ReplayControllerView) -> CaptureLoopView {
        CaptureLoopView { controller, ..self }
    }

    pub open spec fn in_phase(self, phase: PhaseView) -> CaptureLoopView {
        CaptureLoopView { phase, ..self }
    }

    /// The status that the panel is sent in this state.
    pub open spec fn payload(self, saving: bool) -> CaptureStatusPayloadView {
        CaptureStatusPayloadView {
            is_saving: saving,
            ..capture_status(
                self.controller.snapshot(),
                self.hotkey,
                self.failed_uploads,
                self.mode,
            )
        }
    }

    /// Whether the recorder runs, as far as the look `poll` can tell.
    pub open spec fn running_after(self, poll: ChildPollView) -> bool {
        match self.controller.status(poll) {
            Ok(status) => status.running,
            Err(_) => false,
        }
    }

    /// The record that is written when the settings, the mode or the running
    /// state changed.
    pub open spec fn persisted(self, enabled: bool) -> NoticeView {
        NoticeView::SaveSettings(
            PersistedSettingsView::of(self.controller.settings, self.mode, enabled),
        )
    }

    pub open spec fn abort(self, notices: Seq<NoticeView>, reason: Seq<char>) -> (
        CaptureLoopView,
        TurnView,
    ) {
        (
            self.in_phase(PhaseView::Finished),
            TurnView { notices, request: RequestView::Abort { reason } },
        )
    }

    pub open spec fn wait(self, notices: Seq<NoticeView>) -> (CaptureLoopView, TurnView) {
        (
            self.in_phase(PhaseView::Waiting),
            TurnView {
                notices,
                request: RequestView::AwaitEvent { tick_seconds: DETECTION_INTERVAL_SECONDS },
            },
        )
    }

    /// Sends the status of the refreshed state; a look that failed ends the session.
    pub open spec fn push(
        self,
        poll: ChildPollView,
        notices: Seq<NoticeView>,
        after: AfterPushView,
        saving: bool,
    ) -> (CaptureLoopView, TurnView) {
        let m = self.with_controller(self.controller.refreshed(poll));
        match self.controller.refresh_error(poll) {
            Some(error) => m.abort(notices, error.message()),
            None => (
                m.in_phase(PhaseView::Pushing(after)),
                TurnView { notices, request: RequestView::PushStatus(m.payload(saving)) },
            ),
        }
    }

    /// Opens the capture panel with the status of the refreshed state.
    pub open spec fn show(self, poll: ChildPollView, notices: Seq<NoticeView>) -> (
        CaptureLoopView,
        TurnView,
    ) {
        let m = self.with_controller(self.controller.refreshed(poll));
        match self.controller.refresh_error(poll) {
            Some(error) => m.abort(notices, error.message()),
            None => (
                m.in_phase(PhaseView::Showing),
                TurnView { notices, request: RequestView::ShowCapture(m.payload(false)) },
            ),
        }
    }

    /// The opening turn: in manual mode the recorder is started at once where
    /// that is wished; then the panel is opened.
    #[verifier::opaque]
    pub open spec fn begin(self, poll: ChildPollView, start_now: bool) -> (
        CaptureLoopView,
        TurnView,
    ) {
        if self.mode == ReplayMode::Manual && start_now {
            let m = self.with_controller(self.controller.refreshed(poll));
            match self.controller.start_plan(poll) {
                Ok(StartPlanView::Launch(command)) => (
                    m.in_phase(PhaseView::Launching(LaunchPurposeView::Startup)),
                    TurnView { notices: Seq::empty(), request: RequestView::Launch(command) },
                ),
                Ok(StartPlanView::AlreadyRunning) => m.show(poll, Seq::empty()),
                Err(error) => m.with_message("Failed to start replay: "@ + error.message()).show(
                    poll,
                    Seq::empty(),
                ),
            }
        } else {
            self.show(poll, Seq::empty())
        }
    }

    /// The state once a launch was taken in: `started` is the message where it
    /// started, `failed` what stands before the error where it did not.
    pub open spec fn after_launch(
        self,
        outcome: LaunchOutcomeView,
        started: Seq<char>,
        failed: Seq<char>,
    ) -> CaptureLoopView {
        let m = self.with_controller(self.controller.launched(outcome));
        match self.controller.launch_error(outcome) {
            Some(error) => m.with_message(failed + error.message()),
            None => m.with_message(started),
        }
    }

    /// The panel is open: the session proper begins, with a look for a game in
    /// automatic mode.
    pub open spec fn enter(self) -> (CaptureLoopView, TurnView) {
        let m = CaptureLoopView { game_was_running: false, ..self };
        if m.mode == ReplayMode::AutoWithGame {
            (
                m.in_phase(PhaseView::Detecting(DetectReason::Entry)),
                TurnView { notices: Seq::empty(), request: RequestView::DetectGame },
            )
        } else {
            m.wait(Seq::empty())
        }
    }

    /// What follows a look for a game, according to why it was made.
    pub open spec fn after_detection(
        self,
        poll: ChildPollView,
        reason: DetectReason,
        changed: bool,
        notices: Seq<NoticeView>,
    ) -> (CaptureLoopView, TurnView) {
        match reason {
            DetectReason::ModeSwitch => self.persist_mode(poll, notices),
            _ => if changed {
                self.push(poll, notices, AfterPushView::Await, false)
            } else {
                self.wait(notices)
            },
        }
    }

    /// Writes down the mode with the running state, then sends the status.
    pub open spec fn persist_mode(self, poll: ChildPollView, notices: Seq<NoticeView>) -> (
        CaptureLoopView,
        TurnView,
    ) {
        let m = self.with_controller(self.controller.refreshed(poll));
        m.push(poll, notices.push(m.persisted(self.running_after(poll))), AfterPushView::Await, false)
    }

    /// Takes in a look for a game: the recorder is started when a game appeared
    /// and let go of when it vanished. A look that failed counts as no game.
    /// Whether the start succeeds or not, the game counts as running from then
    /// on: a start that failed is reported and not tried again for that game.
    #[verifier::opaque]
    pub open spec fn detected(
        self,
        poll: ChildPollView,
        reason: DetectReason,
        name: Option<Seq<char>>,
    ) -> (CaptureLoopView, TurnView) {
        let game = seen_game(name);
        match game_transition(self.game_was_running, game.len() > 0) {
            GameTransition::Appeared => {
                let m = self.with_controller(self.controller.refreshed(poll));
                match self.controller.start_plan(poll) {
                    Ok(StartPlanView::Launch(command)) => (
                        m.in_phase(
                            PhaseView::Launching(LaunchPurposeView::Detection { game, reason }),
                        ),
                        TurnView { notices: Seq::empty(), request: RequestView::Launch(command) },
                    ),
                    Ok(StartPlanView::AlreadyRunning) => (CaptureLoopView {
                        game_was_running: true,
                        ..m.with_message("Replay started ("@ + game + ")"@)
                    }).after_detection(poll, reason, true, Seq::empty()),
                    Err(error) => (CaptureLoopView {
                        game_was_running: true,
                        ..m.with_message("Failed to start replay: "@ + error.message())
                    }).after_detection(poll, reason, true, Seq::empty()),
                }
            },
            GameTransition::Vanished => (CaptureLoopView {
                game_was_running: false,
                ..self.with_controller(self.controller.stopped()).with_message(
                    "Replay stopped (game exited)"@,
                )
            }).after_detection(poll, reason, true, interrupt_notices(self.controller.child)),
            GameTransition::Steady => self.after_detection(poll, reason, false, Seq::empty()),
        }
    }

    /// Takes in the launch that a game's appearance called for. The game counts
    /// as running whether the launch started or not.
    pub open spec fn launched_for_game(
        self,
        poll: ChildPollView,
        outcome: LaunchOutcomeView,
        game: Seq<char>,
        reason: DetectReason,
    ) -> (CaptureLoopView, TurnView) {
        let m = self.after_launch(
            outcome,
            "Replay started ("@ + game + ")"@,
            "Failed to start replay: "@,
        );
        (CaptureLoopView { game_was_running: true, ..m }).after_detection(
            poll,
            reason,
            true,
            Seq::empty(),
        )
    }

    /// Writes down the settings with the wish of the toggle, then sends the status.
    pub open spec fn persist_toggle(
        self,
        poll: ChildPollView,
        notices: Seq<NoticeView>,
        enable: bool,
    ) -> (CaptureLoopView, TurnView) {
        self.push(poll, notices.push(self.persisted(enable)), AfterPushView::Await, false)
    }

    /// The user's switch: honoured in manual mode only.
    pub open spec fn toggle(self, poll: ChildPollView, enable: bool) -> (CaptureLoopView, TurnView) {
        if self.mode == ReplayMode::Manual {
            if enable {
                let m = self.with_controller(self.controller.refreshed(poll));
                match self.controller.start_plan(poll) {
                    Ok(StartPlanView::Launch(command)) => (
                        m.in_phase(PhaseView::Launching(LaunchPurposeView::Toggle)),
                        TurnView { notices: Seq::empty(), request: RequestView::Launch(command) },
                    ),
                    Ok(StartPlanView::AlreadyRunning) => m.with_message(
                        "Replay recorder started"@,
                    ).persist_toggle(poll, Seq::empty(), true),
                    Err(error) => m.with_message(
                        "Failed to enable replay: "@ + error.message(),
                    ).persist_toggle(poll, Seq::empty(), true),
                }
            } else {
                self.with_controller(self.controller.stopped()).with_message(
                    "Replay recorder stopped"@,
                ).persist_toggle(poll, interrupt_notices(self.controller.child), false)
            }
        } else {
            self.with_message("Toggle disabled in auto mode"@).push(
                poll,
                Seq::empty(),
                AfterPushView::Await,
                false,
            )
        }
    }

    /// The settings are in force: says so, writes them down, sends the status.
    pub open spec fn settings_applied(self, poll: ChildPollView, merged: ReplaySettingsView) -> (
        CaptureLoopView,
        TurnView,
    ) {
        let m = self.with_message("Settings updated"@);
        let record = NoticeView::SaveSettings(
            PersistedSettingsView::of(merged, self.mode, m.running_after(poll)),
        );
        m.with_controller(m.controller.refreshed(poll)).push(
            poll,
            seq![record],
            AfterPushView::Await,
            false,
        )
    }

    /// New settings from the panel: merged into the current ones and applied; a
    /// running recorder is restarted with them.
    pub open spec fn update_settings(
        self,
        poll: ChildPollView,
        request: CaptureSettingsPayloadView,
    ) -> (CaptureLoopView, TurnView) {
        let merged = merged_settings(self.controller.settings, request);
        let m = self.with_controller(self.controller.applied(merged));
        match self.controller.apply_plan(merged) {
            ApplyPlanView::Stored => m.settings_applied(poll, merged),
            ApplyPlanView::Restart { pid, command } => (
                m.in_phase(PhaseView::Launching(LaunchPurposeView::Apply { merged })),
                TurnView {
                    notices: seq![NoticeView::Interrupt { pid }],
                    request: RequestView::Launch(command),
                },
            ),
        }
    }

    /// Takes in the restart that new settings called for.
    pub open spec fn launched_for_settings(
        self,
        poll: ChildPollView,
        outcome: LaunchOutcomeView,
        merged: ReplaySettingsView,
    ) -> (CaptureLoopView, TurnView) {
        let m = self.with_controller(self.controller.launched(outcome));
        match self.controller.launch_error(outcome) {
            Some(error) => m.with_message("Apply failed: "@ + error.message()).push(
                poll,
                Seq::empty(),
                AfterPushView::Await,
                false,
            ),
            None => m.settings_applied(poll, merged),
        }
    }

    /// A mode from the panel: only a change has consequences. Manual mode lets
    /// the recorder go; automatic mode looks for a game at once.
    pub open spec fn update_mode(self, poll: ChildPollView, mode: ReplayMode) -> (
        CaptureLoopView,
        TurnView,
    ) {
        let m = CaptureLoopView { mode, ..self };
        if mode == self.mode {
            m.push(poll, Seq::empty(), AfterPushView::Await, false)
        } else {
            match mode {
                ReplayMode::Manual => (CaptureLoopView {
                    game_was_running: false,
                    ..m.with_controller(self.controller.stopped()).with_message(
                        "Manual mode enabled"@,
                    )
                }).persist_mode(poll, interrupt_notices(self.controller.child)),
                ReplayMode::AutoWithGame => (
                    (CaptureLoopView {
                        game_was_running: false,
                        ..m.with_message("Auto mode enabled"@)
                    }).in_phase(PhaseView::Detecting(DetectReason::ModeSwitch)),
                    TurnView { notices: Seq::empty(), request: RequestView::DetectGame },
                ),
            }
        }
    }

    /// What the user decided about an upload that failed.
    pub open spec fn failed_upload(self, poll: ChildPollView, word: Seq<char>, id: Seq<char>) -> (
        CaptureLoopView,
        TurnView,
    ) {
        let rest = without(self.failed_uploads, id);
        if word == "retry"@ {
            match lookup(self.failed_uploads, id) {
                Some(upload) => (
                    self.with_message("Retrying upload..."@).in_phase(
                        PhaseView::Retrying { upload },
                    ),
                    TurnView { notices: Seq::empty(), request: RequestView::RetryUpload(upload) },
                ),
                None => self.push(poll, Seq::empty(), AfterPushView::Await, false),
            }
        } else if word == "ignore"@ {
            (CaptureLoopView { failed_uploads: rest, ..self }).with_message(
                "Upload removed from list"@,
            ).push(poll, seq![NoticeView::SaveFailedUploads(rest)], AfterPushView::Await, false)
        } else if word == "discard"@ {
            match lookup(self.failed_uploads, id) {
                Some(upload) => (CaptureLoopView { failed_uploads: rest, ..self }).with_message(
                    "Upload discarded"@,
                ).push(
                    poll,
                    seq![
                        NoticeView::DeleteFiles {
                            processed_path: upload.processed_path,
                            full_path: upload.full_path,
                        },
                        NoticeView::SaveFailedUploads(rest),
                    ],
                    AfterPushView::Await,
                    false,
                ),
                None => self.push(poll, Seq::empty(), AfterPushView::Await, false),
            }
        } else {
            self.push(poll, Seq::empty(), AfterPushView::Await, false)
        }
    }

    /// Takes in how the second try of an upload went.
    #[verifier::opaque]
    pub open spec fn uploaded(
        self,
        poll: ChildPollView,
        upload: FailedUploadView,
        outcome: UploadOutcomeView,
    ) -> (CaptureLoopView, TurnView) {
        match outcome {
            UploadOutcomeView::Uploaded { video_id } => {
                let rest = without(self.failed_uploads, upload.id);
                (CaptureLoopView { failed_uploads: rest, ..self }).with_message(
                    "Retry successful!"@,
                ).push(
                    poll,
                    seq![
                        NoticeView::Relocate {
                            upload,
                            video_id,
                            destination: retry_destination_of(self.processed_dir, upload, video_id),
                        },
                        NoticeView::SaveFailedUploads(rest),
                    ],
                    AfterPushView::Await,
                    false,
                )
            },
            UploadOutcomeView::NoVideoId => self.with_message("Retry failed: no video id"@).push(
                poll,
                Seq::empty(),
                AfterPushView::Await,
                false,
            ),
            UploadOutcomeView::Failed { reason } => self.with_message(
                "Retry failed: "@ + reason,
            ).push(poll, Seq::empty(), AfterPushView::Await, false),
        }
    }

    /// What the user did on the panel.
    pub open spec fn action(self, poll: ChildPollView, action: CaptureActionPayloadView) -> (
        CaptureLoopView,
        TurnView,
    ) {
        match action {
            CaptureActionPayloadView::Toggle { enable } => self.toggle(poll, enable),
            CaptureActionPayloadView::Save { duration_secs } => self.with_message(
                "Saving replay clip..."@,
            ).push(
                poll,
                Seq::empty(),
                AfterPushView::Trigger { duration: requested_duration(duration_secs) },
                true,
            ),
            CaptureActionPayloadView::UpdateSettings { settings } => self.update_settings(
                poll,
                settings,
            ),
            CaptureActionPayloadView::UpdateMode { mode } => self.update_mode(
                poll,
                mode_of_word(mode),
            ),
            CaptureActionPayloadView::FailedUpload { upload_action, id } => self.failed_upload(
                poll,
                upload_action,
                id,
            ),
        }
    }

    /// What woke the session. A closed stream ends it; a message that could not
    /// be read is reported and the wait goes on; a tick looks for a game in
    /// automatic mode and forgets the last look in manual mode.
    #[verifier::opaque]
    pub open spec fn event(self, poll: ChildPollView, event: LoopEventView) -> (
        CaptureLoopView,
        TurnView,
    ) {
        match event {
            LoopEventView::Action(action) => self.action(poll, action),
            LoopEventView::Closed => (
                self.in_phase(PhaseView::Finished),
                TurnView { notices: Seq::empty(), request: RequestView::Exit },
            ),
            LoopEventView::ReceiveFailed { reason } => self.with_message(
                "Overlay message rejected: "@ + reason,
            ).push(poll, Seq::empty(), AfterPushView::Await, false),
            LoopEventView::Tick => if self.mode == ReplayMode::AutoWithGame {
                (
                    self.in_phase(PhaseView::Detecting(DetectReason::Tick)),
                    TurnView { notices: Seq::empty(), request: RequestView::DetectGame },
                )
            } else {
                (CaptureLoopView { game_was_running: false, ..self }).wait(Seq::empty())
            },
        }
    }

    /// The save that the panel was told of: the signal is asked for, or the
    /// failure reported.
    pub open spec fn trigger(self, poll: ChildPollView, duration: Option<u32>) -> (
        CaptureLoopView,
        TurnView,
    ) {
        let m = self.with_controller(self.controller.refreshed(poll));
        match self.controller.save_plan(poll, duration, self.signals.base(), self.signals.full()) {
            Ok(plan) => (
                m.in_phase(PhaseView::Saving),
                TurnView { notices: Seq::empty(), request: RequestView::TriggerSave(plan) },
            ),
            Err(error) => m.save_ended(poll, Err(error)),
        }
    }

    /// The end of a save: the status as it stood is sent once more, with no save
    /// under way; a file that was written is handed over after that, anything
    /// else is reported.
    pub open spec fn save_ended(
        self,
        poll: ChildPollView,
        result: Result<Option<Seq<char>>, crate::capture::ReplayErrorView>,
    ) -> (CaptureLoopView, TurnView) {
        let m = self.with_controller(self.controller.refreshed(poll));
        match self.controller.refresh_error(poll) {
            Some(error) => m.abort(Seq::empty(), error.message()),
            None => {
                let status = m.payload(false);
                match result {
                    Ok(Some(path)) => (
                        m.in_phase(PhaseView::Revealing { path, status }),
                        TurnView {
                            notices: Seq::empty(),
                            request: RequestView::SetVisible { visible: true },
                        },
                    ),
                    Ok(None) => (
                        m.with_message("No new replay file generated"@).in_phase(
                            PhaseView::Pushing(AfterPushView::Fresh),
                        ),
                        TurnView { notices: Seq::empty(), request: RequestView::PushStatus(status) },
                    ),
                    Err(error) => (
                        m.with_message("Save failed: "@ + error.message()).in_phase(
                            PhaseView::Pushing(AfterPushView::Fresh),
                        ),
                        TurnView { notices: Seq::empty(), request: RequestView::PushStatus(status) },
                    ),
                }
            },
        }
    }

    /// The overlay is visible: the clip is announced, then handed over.
    #[verifier::opaque]
    pub open spec fn revealed(
        self,
        path: Seq<char>,
        status: CaptureStatusPayloadView,
        error: Option<Seq<char>>,
    ) -> (CaptureLoopView, TurnView) {
        match error {
            Some(reason) => self.abort(Seq::empty(), reason),
            None => (
                self.with_message("Processing clip\u{2026}"@).in_phase(
                    PhaseView::Pushing(AfterPushView::Finish { path }),
                ),
                TurnView { notices: Seq::empty(), request: RequestView::PushStatus(status) },
            ),
        }
    }

    /// A status was sent, or could not be.
    #[verifier::opaque]
    pub open spec fn sent(
        self,
        poll: ChildPollView,
        after: AfterPushView,
        error: Option<Seq<char>>,
    ) -> (CaptureLoopView, TurnView) {
        match error {
            Some(reason) => self.abort(
                Seq::empty(),
                (if after is Trigger {
                    "failed to update saving status: "@
                } else {
                    "failed to update capture status: "@
                }) + reason,
            ),
            None => match after {
                AfterPushView::Await => self.wait(Seq::empty()),
                AfterPushView::Trigger { duration } => self.trigger(poll, duration),
                AfterPushView::Fresh => self.push(poll, Seq::empty(), AfterPushView::Await, false),
                AfterPushView::Finish { path } => (
                    self.in_phase(PhaseView::Processing),
                    TurnView { notices: Seq::empty(), request: RequestView::ProcessClip { path } },
                ),
                AfterPushView::Show => self.show(poll, Seq::empty()),
            },
        }
    }

    /// The clip has been dealt with: a failed upload is put on the list, the
    /// recorder is reported ready, and the panel is opened again.
    #[verifier::opaque]
    pub open spec fn clip_done(self, poll: ChildPollView, failed_upload: Option<FailedUploadView>) -> (
        CaptureLoopView,
        TurnView,
    ) {
        let uploads = match failed_upload {
            Some(upload) => self.failed_uploads.push(upload),
            None => self.failed_uploads,
        };
        let notices = match failed_upload {
            Some(_) => seq![NoticeView::SaveFailedUploads(uploads)],
            None => Seq::empty(),
        };
        (CaptureLoopView {
            failed_uploads: uploads,
            controller: ReplayControllerView {
                last_saved: None,
                last_message: Some("Replay recorder ready"@),
                ..self.controller
            },
            ..self
        }).push(poll, notices, AfterPushView::Show, false)
    }

    /// Takes in a launch, according to what it was for. A session cannot begin
    /// without its output directory; any other failure is reported and the
    /// session goes on.
    #[verifier::opaque]
    pub open spec fn launched(
        self,
        poll: ChildPollView,
        purpose: LaunchPurposeView,
        outcome: LaunchOutcomeView,
    ) -> (CaptureLoopView, TurnView) {
        match purpose {
            LaunchPurposeView::Startup => {
                let started = self.with_controller(self.controller.launched(outcome));
                match self.controller.launch_error(outcome) {
                    Some(error) => if error is CreateOutputDir {
                        started.abort(Seq::empty(), error.message())
                    } else {
                        started.with_message("Failed to start replay: "@ + error.message()).show(
                            poll,
                            Seq::empty(),
                        )
                    },
                    None => started.show(poll, Seq::empty()),
                }
            },
            LaunchPurposeView::Toggle => self.after_launch(
                outcome,
                "Replay recorder started"@,
                "Failed to enable replay: "@,
            ).persist_toggle(poll, Seq::empty(), true),
            LaunchPurposeView::Detection { game, reason } => self.launched_for_game(
                poll,
                outcome,
                game,
                reason,
            ),
            LaunchPurposeView::Apply { merged } => self.launched_for_settings(
                poll,
                outcome,
                merged,
            ),
        }
    }

    /// The panel was opened, or could not be.
    #[verifier::opaque]
    pub open spec fn shown(self, error: Option<Seq<char>>) -> (CaptureLoopView, TurnView) {
        match error {
            Some(reason) => self.abort(Seq::empty(), "failed to show capture panel: "@ + reason),
            None => self.enter(),
        }
    }

    /// Takes in how the save went.
    #[verifier::opaque]
    pub open spec fn save_taken(self, poll: ChildPollView, outcome: SaveOutcomeView) -> (
        CaptureLoopView,
        TurnView,
    ) {
        self.with_controller(self.controller.saved(outcome)).save_ended(
            poll,
            self.controller.save_result(outcome),
        )
    }

    /// One turn: the answer `reply` to the request of the turn before, together
    /// with a fresh look `poll` at the recorder process, gives the next state and
    /// the next turn. An answer that does not fit the request ends the session.
    pub open spec fn step(self, poll: ChildPollView, reply: ReplyView) -> (
        CaptureLoopView,
        TurnView,
    ) {
        let m = self.in_phase(PhaseView::Finished);
        match self.phase {
            PhaseView::Starting { start_now } => match reply {
                ReplyView::Begin => m.begin(poll, start_now),
                _ => m.mismatch(),
            },
            PhaseView::Launching(purpose) => match reply {
                ReplyView::Launched(outcome) => m.launched(poll, purpose, outcome),
                _ => m.mismatch(),
            },
            PhaseView::Showing => match reply {
                ReplyView::Sent { error } => m.shown(error),
                _ => m.mismatch(),
            },
            PhaseView::Detecting(reason) => match reply {
                ReplyView::Game { name } => m.detected(poll, reason, name),
                _ => m.mismatch(),
            },
            PhaseView::Pushing(after) => match reply {
                ReplyView::Sent { error } => m.sent(poll, after, error),
                _ => m.mismatch(),
            },
            PhaseView::Waiting => match reply {
                ReplyView::Event(event) => m.event(poll, event),
                _ => m.mismatch(),
            },
            PhaseView::Saving => match reply {
                ReplyView::Saved(outcome) => m.save_taken(poll, outcome),
                _ => m.mismatch(),
            },
            PhaseView::Revealing { path, status } => match reply {
                ReplyView::Sent { error } => m.revealed(path, status, error),
                _ => m.mismatch(),
            },
            PhaseView::Retrying { upload } => match reply {
                ReplyView::Upload(outcome) => m.uploaded(poll, upload, outcome),
                _ => m.mismatch(),
            },
            PhaseView::Processing => match reply {
                ReplyView::ClipDone { failed_upload } => m.clip_done(poll, failed_upload),
                _ => m.mismatch(),
            },
            PhaseView::Finished => m.mismatch(),
        }
    }

    /// An answer that does not fit the request ends the session.
    pub open spec fn mismatch(self) -> (CaptureLoopView, TurnView) {
        self.abort(Seq::empty(), "reply does not answer the request"@)
    }
}


fn no_notices() -> (notices: Vec<Notice>)
    ensures
        notices.deep_view() == Seq::<NoticeView>::empty(),
{
    let notices: Vec<Notice> = Vec::new();
    assert(notices.deep_view() =~= Seq::<NoticeView>::empty());
    notices
}

fn add_notice(notices: &mut Vec<Notice>, notice: Notice)
    ensures
        final(notices).deep_view() == old(notices).deep_view().push(notice@),
{
    notices.push(notice);
    assert(notices.deep_view() =~= old(notices).deep_view().push(notice@));
}

fn interrupts(child: Option<u32>) -> (notices: Vec<Notice>)
    ensures
        notices.deep_view() == interrupt_notices(child),
{
    let mut notices = no_notices();
    if let Some(pid) = child {
        add_notice(&mut notices, Notice::Interrupt { pid });
        assert(notices.deep_view() =~= interrupt_notices(child));
    }
    notices
}

impl CaptureLoop {
    /// A session that has not begun: `start` says with what settings, in which
    /// mode, and whether the recorder is to be started at once; `processed_dir`
    /// is the directory below which finished clips are kept.
    pub fn new(
        start: SessionStart,
        hotkey: String,
        processed_dir: String,
        signals: SignalNumbers,
        failed_uploads: FailedUploadsList,
    ) -> (session: Self)
        ensures
            session@ == (CaptureLoopView {
                hotkey: hotkey@,
                processed_dir: processed_dir@,
                signals,
                mode: start.mode,
                game_was_running: false,
                controller: ReplayControllerView {
                    settings: start.settings@,
                    child: None,
                    last_saved: None,
                    last_message: None,
                },
                failed_uploads: failed_uploads@,
                phase: PhaseView::Starting { start_now: start.start_now },
            }),
    {
        CaptureLoop {
            hotkey,
            processed_dir,
            signals,
            mode: start.mode,
            game_was_running: false,
            controller: ReplayController::new(start.settings),
            failed_uploads,
            phase: Phase::Starting { start_now: start.start_now },
        }
    }

    pub fn mode(&self) -> (mode: ReplayMode)
        ensures
            mode == self@.mode,
    {
        self.mode
    }

    pub fn controller(&self) -> (controller: &ReplayController)
        ensures
            controller@ == self@.controller,
    {
        &self.controller
    }

    pub fn failed_uploads(&self) -> (list: &FailedUploadsList)
        ensures
            list@ == self@.failed_uploads,
    {
        &self.failed_uploads
    }

    /// Whether the session is over.
    pub fn is_finished(&self) -> (finished: bool)
        ensures
            finished == (self@.phase is Finished),
    {
        match self.phase {
            Phase::Finished => true,
            _ => false,
        }
    }

    fn say(&mut self, text: &str)
        ensures
            final(self)@ == old(self)@.with_message(text@),
    {
        self.controller.set_message(text.to_string());
    }

    fn say_with(&mut self, head: &str, tail: &str)
        ensures
            final(self)@ == old(self)@.with_message(head@ + tail@),
    {
        self.controller.set_message(join2(head, tail));
    }

    fn persisted(&self, enabled: bool) -> (notice: Notice)
        ensures
            notice@ == self@.persisted(enabled),
    {
        Notice::SaveSettings(
            PersistedSettings::from_replay_settings(self.controller.settings(), self.mode, enabled),
        )
    }

    fn payload(&self, saving: bool) -> (payload: CaptureStatusPayload)
        ensures
            payload@ == self@.payload(saving),
    {
        let mut payload = build_capture_status(
            &self.controller.snapshot(),
            self.hotkey.as_str(),
            &self.failed_uploads,
            self.mode,
        );
        payload.is_saving = saving;
        payload
    }

    fn running_after(&mut self, poll: &ChildPoll) -> (running: bool)
        ensures
            running == old(self)@.running_after(poll@),
            final(self)@ == old(self)@.with_controller(old(self)@.controller.refreshed(poll@)),
    {
        match self.controller.status(poll) {
            Ok(status) => status.running,
            Err(_) => false,
        }
    }

    fn abort(&mut self, notices: Vec<Notice>, reason: String) -> (turn: Turn)
        ensures
            (final(self)@, turn@) == old(self)@.abort(notices.deep_view(), reason@),
    {
        self.phase = Phase::Finished;
        Turn { notices, request: Request::Abort { reason } }
    }

    fn wait(&mut self, notices: Vec<Notice>) -> (turn: Turn)
        ensures
            (final(self)@, turn@) == old(self)@.wait(notices.deep_view()),
    {
        self.phase = Phase::Waiting;
        Turn {
            notices,
            request: Request::AwaitEvent { tick_seconds: DETECTION_INTERVAL_SECONDS },
        }
    }

    fn push(
        &mut self,
        poll: &ChildPoll,
        notices: Vec<Notice>,
        after: AfterPush,
        saving: bool,
    ) -> (turn: Turn)
        ensures
            (final(self)@, turn@) == old(self)@.push(poll@, notices.deep_view(), after@, saving),
    {
        match self.controller.refresh(poll) {
            Ok(()) => {
                let payload = self.payload(saving);
                self.phase = Phase::Pushing(after);
                Turn { notices, request: Request::PushStatus(payload) }
            },
            Err(error) => self.abort(notices, error.message()),
        }
    }

    fn show(&mut self, poll: &ChildPoll, notices: Vec<Notice>) -> (turn: Turn)
        ensures
            (final(self)@, turn@) == old(self)@.show(poll@, notices.deep_view()),
    {
        match self.controller.refresh(poll) {
            Ok(()) => {
                let payload = self.payload(false);
                self.phase = Phase::Showing;
                Turn { notices, request: Request::ShowCapture(payload) }
            },
            Err(error) => self.abort(notices, error.message()),
        }
    }

    fn launch(
        &mut self,
        command: RecorderCommand,
        purpose: LaunchPurpose,
        notices: Vec<Notice>,
    ) -> (turn: Turn)
        ensures
            final(self)@ == old(self)@.in_phase(PhaseView::Launching(purpose@)),
            turn@ == (TurnView {
                notices: notices.deep_view(),
                request: RequestView::Launch(command@),
            }),
    {
        self.phase = Phase::Launching(purpose);
        Turn { notices, request: Request::Launch(command) }
    }

    fn look_for_game(&mut self, reason: DetectReason) -> (turn: Turn)
        ensures
            final(self)@ == old(self)@.in_phase(PhaseView::Detecting(reason)),
            turn@ == (TurnView { notices: Seq::empty(), request: RequestView::DetectGame }),
    {
        self.phase = Phase::Detecting(reason);
        Turn { notices: no_notices(), request: Request::DetectGame }
    }

    fn begin(&mut self, poll: &ChildPoll, start_now: bool) -> (turn: Turn)
        ensures
            (final(self)@, turn@) == old(self)@.begin(poll@, start_now),
    {
        proof {
            reveal(CaptureLoopView::begin);
        }
        let manual = match self.mode {
            ReplayMode::Manual => true,
            ReplayMode::AutoWithGame => false,
        };
        if manual && start_now {
            match self.controller.ensure_running(poll) {
                Ok(StartPlan::Launch(command)) => self.launch(
                    command,
                    LaunchPurpose::Startup,
                    no_notices(),
                ),
                Ok(StartPlan::AlreadyRunning) => self.show(poll, no_notices()),
                Err(error) => {
                    self.say_with("Failed to start replay: ", error.message().as_str());
                    self.show(poll, no_notices())
                },
            }
        } else {
            self.show(poll, no_notices())
        }
    }

    fn after_launch(&mut self, outcome: LaunchOutcome, started: &str, failed: &str) -> (ok: bool)
        ensures
            final(self)@ == old(self)@.after_launch(outcome@, started@, failed@),
            ok == (old(self)@.controller.launch_error(outcome@) is None),
    {
        match self.controller.finish_start(outcome) {
            Ok(()) => {
                self.say(started);
                true
            },
            Err(error) => {
                self.say_with(failed, error.message().as_str());
                false
            },
        }
    }

    fn enter(&mut self) -> (turn: Turn)
        ensures
            (final(self)@, turn@) == old(self)@.enter(),
    {
        self.game_was_running = false;
        match self.mode {
            ReplayMode::AutoWithGame => self.look_for_game(DetectReason::Entry),
            ReplayMode::Manual => self.wait(no_notices()),
        }
    }

    fn persist_mode(&mut self, poll: &ChildPoll, notices: Vec<Notice>) -> (turn: Turn)
        ensures
            (final(self)@, turn@) == old(self)@.persist_mode(poll@, notices.deep_view()),
    {
        let mut notices = notices;
        let running = self.running_after(poll);
        let record = self.persisted(running);
        add_notice(&mut notices, record);
        self.push(poll, notices, AfterPush::Await, false)
    }

    fn after_detection(
        &mut self,
        poll: &ChildPoll,
        reason: DetectReason,
        changed: bool,
        notices: Vec<Notice>,
    ) -> (turn: Turn)
        ensures
            (final(self)@, turn@) == old(self)@.after_detection(
                poll@,
                reason,
                changed,
                notices.deep_view(),
            ),
    {
        match reason {
            DetectReason::ModeSwitch => self.persist_mode(poll, notices),
            _ => {
                if changed {
                    self.push(poll, notices, AfterPush::Await, false)
                } else {
                    self.wait(notices)
                }
            },
        }
    }

    fn started_message(game: &str) -> (text: String)
        ensures
            text@ == "Replay started ("@ + game@ + ")"@,
    {
        join3("Replay started (", game, ")")
    }

    fn detected(&mut self, poll: &ChildPoll, reason: DetectReason, name: Option<String>) -> (turn:
        Turn)
        ensures
            (final(self)@, turn@) == old(self)@.detected(poll@, reason, name.deep_view()),
    {
        proof {
            reveal(CaptureLoopView::detected);
        }
        let game = match name {
            Some(game) => game,
            None => String::new(),
        };
        match detect_transition(self.game_was_running, !game.as_str().is_empty()) {
            GameTransition::Appeared => {
                match self.controller.ensure_running(poll) {
                    Ok(StartPlan::Launch(command)) => self.launch(
                        command,
                        LaunchPurpose::Detection { game, reason },
                        no_notices(),
                    ),
                    Ok(StartPlan::AlreadyRunning) => {
                        self.controller.set_message(Self::started_message(game.as_str()));
                        self.game_was_running = true;
                        self.after_detection(poll, reason, true, no_notices())
                    },
                    Err(error) => {
                        self.say_with("Failed to start replay: ", error.message().as_str());
                        self.game_was_running = true;
                        self.after_detection(poll, reason, true, no_notices())
                    },
                }
            },
            GameTransition::Vanished => {
                let notices = interrupts(self.controller.stop());
                self.say("Replay stopped (game exited)");
                self.game_was_running = false;
                self.after_detection(poll, reason, true, notices)
            },
            GameTransition::Steady => self.after_detection(poll, reason, false, no_notices()),
        }
    }

    fn launched_for_game(
        &mut self,
        poll: &ChildPoll,
        outcome: LaunchOutcome,
        game: String,
        reason: DetectReason,
    ) -> (turn: Turn)
        ensures
            (final(self)@, turn@) == old(self)@.launched_for_game(poll@, outcome@, game@, reason),
    {
        let started = Self::started_message(game.as_str());
        let _ = self.after_launch(outcome, started.as_str(), "Failed to start replay: ");
        self.game_was_running = true;
        self.after_detection(poll, reason, true, no_notices())
    }

    fn persist_toggle(&mut self, poll: &ChildPoll, notices: Vec<Notice>, enable: bool) -> (turn:
        Turn)
        ensures
            (final(self)@, turn@) == old(self)@.persist_toggle(poll@, notices.deep_view(), enable),
    {
        let mut notices = notices;
        let record = self.persisted(enable);
        add_notice(&mut notices, record);
        self.push(poll, notices, AfterPush::Await, false)
    }

    fn toggle(&mut self, poll: &ChildPoll, enable: bool) -> (turn: Turn)
        ensures
            (final(self)@, turn@) == old(self)@.toggle(poll@, enable),
    {
        match self.mode {
            ReplayMode::Manual => {
                if enable {
                    match self.controller.ensure_running(poll) {
                        Ok(StartPlan::Launch(command)) => self.launch(
                            command,
                            LaunchPurpose::Toggle,
                            no_notices(),
                        ),
                        Ok(StartPlan::AlreadyRunning) => {
                            self.say("Replay recorder started");
                            self.persist_toggle(poll, no_notices(), true)
                        },
                        Err(error) => {
                            self.say_with("Failed to enable replay: ", error.message().as_str());
                            self.persist_toggle(poll, no_notices(), true)
                        },
                    }
                } else {
                    let notices = interrupts(self.controller.stop());
                    self.say("Replay recorder stopped");
                    self.persist_toggle(poll, notices, false)
                }
            },
            ReplayMode::AutoWithGame => {
                self.say("Toggle disabled in auto mode");
                self.push(poll, no_notices(), AfterPush::Await, false)
            },
        }
    }

    fn settings_applied(&mut self, poll: &ChildPoll, merged: &ReplaySettings) -> (turn: Turn)
        ensures
            (final(self)@, turn@) == old(self)@.settings_applied(poll@, merged@),
    {
        self.say("Settings updated");
        let running = self.running_after(poll);
        let mut notices = no_notices();
        add_notice(
            &mut notices,
            Notice::SaveSettings(PersistedSettings::from_replay_settings(merged, self.mode, running)),
        );
        assert(notices.deep_view() =~= seq![notices[0]@]);
        self.push(poll, notices, AfterPush::Await, false)
    }

    fn update_settings(&mut self, poll: &ChildPoll, request: &CaptureSettingsPayload) -> (turn:
        Turn)
        ensures
            (final(self)@, turn@) == old(self)@.update_settings(poll@, request@),
    {
        let merged = merge_settings(self.controller.settings(), request);
        match self.controller.apply_settings(merged.clone()) {
            ApplyPlan::Stored => self.settings_applied(poll, &merged),
            ApplyPlan::Restart { pid, command } => {
                let mut notices = no_notices();
                add_notice(&mut notices, Notice::Interrupt { pid });
                assert(notices.deep_view() =~= seq![NoticeView::Interrupt { pid }]);
                self.launch(command, LaunchPurpose::Apply { merged }, notices)
            },
        }
    }

    fn launched_for_settings(
        &mut self,
        poll: &ChildPoll,
        outcome: LaunchOutcome,
        merged: ReplaySettings,
    ) -> (turn: Turn)
        ensures
            (final(self)@, turn@) == old(self)@.launched_for_settings(poll@, outcome@, merged@),
    {
        match self.controller.finish_start(outcome) {
            Ok(()) => self.settings_applied(poll, &merged),
            Err(error) => {
                self.say_with("Apply failed: ", error.message().as_str());
                self.push(poll, no_notices(), AfterPush::Await, false)
            },
        }
    }

    fn update_mode(&mut self, poll: &ChildPoll, mode: ReplayMode) -> (turn: Turn)
        ensures
            (final(self)@, turn@) == old(self)@.update_mode(poll@, mode),
    {
        let before = self.mode;
        self.mode = mode;
        if mode == before {
            return self.push(poll, no_notices(), AfterPush::Await, false);
        }
        match mode {
            ReplayMode::Manual => {
                let notices = interrupts(self.controller.stop());
                self.say("Manual mode enabled");
                self.game_was_running = false;
                self.persist_mode(poll, notices)
            },
            ReplayMode::AutoWithGame => {
                self.say("Auto mode enabled");
                self.game_was_running = false;
                self.look_for_game(DetectReason::ModeSwitch)
            },
        }
    }

    fn failed_upload(&mut self, poll: &ChildPoll, word: &str, id: &str) -> (turn: Turn)
        ensures
            (final(self)@, turn@) == old(self)@.failed_upload(poll@, word@, id@),
    {
        if same_text(word, "retry") {
            let found = match self.failed_uploads.get(id) {
                Some(upload) => Some(upload.clone()),
                None => None,
            };
            match found {
                Some(upload) => {
                    self.say("Retrying upload...");
                    self.phase = Phase::Retrying { upload: upload.clone() };
                    Turn { notices: no_notices(), request: Request::RetryUpload(upload) }
                },
                None => self.push(poll, no_notices(), AfterPush::Await, false),
            }
        } else if same_text(word, "ignore") {
            let _ = self.failed_uploads.remove(id);
            self.say("Upload removed from list");
            let mut notices = no_notices();
            add_notice(&mut notices, Notice::SaveFailedUploads(self.failed_uploads.clone()));
            assert(notices.deep_view() =~= seq![notices[0]@]);
            self.push(poll, notices, AfterPush::Await, false)
        } else if same_text(word, "discard") {
            match self.failed_uploads.remove(id) {
                Some(upload) => {
                    self.say("Upload discarded");
                    let mut notices = no_notices();
                    add_notice(
                        &mut notices,
                        Notice::DeleteFiles {
                            processed_path: upload.processed_path,
                            full_path: upload.full_path,
                        },
                    );
                    add_notice(&mut notices, Notice::SaveFailedUploads(self.failed_uploads.clone()));
                    assert(notices.deep_view() =~= seq![notices[0]@, notices[1]@]);
                    self.push(poll, notices, AfterPush::Await, false)
                },
                None => self.push(poll, no_notices(), AfterPush::Await, false),
            }
        } else {
            self.push(poll, no_notices(), AfterPush::Await, false)
        }
    }

    fn uploaded(&mut self, poll: &ChildPoll, upload: FailedUpload, outcome: UploadOutcome) -> (turn:
        Turn)
        ensures
            (final(self)@, turn@) == old(self)@.uploaded(poll@, upload@, outcome@),
    {
        proof {
            reveal(CaptureLoopView::uploaded);
        }
        match outcome {
            UploadOutcome::Uploaded { video_id } => {
                let _ = self.failed_uploads.remove(upload.id.as_str());
                self.say("Retry successful!");
                let mut notices = no_notices();
                let destination = retry_destination(
                    self.processed_dir.as_str(),
                    &upload,
                    video_id.as_str(),
                );
                add_notice(&mut notices, Notice::Relocate { upload, video_id, destination });
                add_notice(&mut notices, Notice::SaveFailedUploads(self.failed_uploads.clone()));
                assert(notices.deep_view() =~= seq![notices[0]@, notices[1]@]);
                self.push(poll, notices, AfterPush::Await, false)
            },
            UploadOutcome::NoVideoId => {
                self.say("Retry failed: no video id");
                self.push(poll, no_notices(), AfterPush::Await, false)
            },
            UploadOutcome::Failed { reason } => {
                self.say_with("Retry failed: ", reason.as_str());
                self.push(poll, no_notices(), AfterPush::Await, false)
            },
        }
    }

    fn action(&mut self, poll: &ChildPoll, action: CaptureActionPayload) -> (turn: Turn)
        ensures
            (final(self)@, turn@) == old(self)@.action(poll@, action@),
    {
        match action {
            CaptureActionPayload::Toggle { enable } => self.toggle(poll, enable),
            CaptureActionPayload::Save { duration_secs } => {
                self.say("Saving replay clip...");
                let duration = if duration_secs == 0 {
                    None
                } else {
                    Some(duration_secs)
                };
                self.push(poll, no_notices(), AfterPush::Trigger { duration }, true)
            },
            CaptureActionPayload::UpdateSettings { settings } => self.update_settings(
                poll,
                &settings,
            ),
            CaptureActionPayload::UpdateMode { mode } => self.update_mode(
                poll,
                parse_mode(mode.as_str()),
            ),
            CaptureActionPayload::FailedUpload { upload_action, id } => self.failed_upload(
                poll,
                upload_action.as_str(),
                id.as_str(),
            ),
        }
    }

    fn event(&mut self, poll: &ChildPoll, event: LoopEvent) -> (turn: Turn)
        ensures
            (final(self)@, turn@) == old(self)@.event(poll@, event@),
    {
        proof {
            reveal(CaptureLoopView::event);
        }
        match event {
            LoopEvent::Action(action) => self.action(poll, action),
            LoopEvent::Closed => {
                self.phase = Phase::Finished;
                Turn { notices: no_notices(), request: Request::Exit }
            },
            LoopEvent::ReceiveFailed { reason } => {
                self.say_with("Overlay message rejected: ", reason.as_str());
                self.push(poll, no_notices(), AfterPush::Await, false)
            },
            LoopEvent::Tick => {
                match self.mode {
                    ReplayMode::AutoWithGame => self.look_for_game(DetectReason::Tick),
                    ReplayMode::Manual => {
                        self.game_was_running = false;
                        self.wait(no_notices())
                    },
                }
            },
        }
    }

    fn trigger(&mut self, poll: &ChildPoll, duration: Option<u32>) -> (turn: Turn)
        ensures
            (final(self)@, turn@) == old(self)@.trigger(poll@, duration),
    {
        let signals = self.signals;
        match self.controller.save_recent(poll, duration, &signals) {
            Ok(plan) => {
                self.phase = Phase::Saving;
                Turn { notices: no_notices(), request: Request::TriggerSave(plan) }
            },
            Err(error) => self.save_ended(poll, Err(error)),
        }
    }

    fn save_ended(
        &mut self,
        poll: &ChildPoll,
        result: Result<Option<String>, crate::capture::ReplayError>,
    ) -> (turn: Turn)
        ensures
            (final(self)@, turn@) == old(self)@.save_ended(poll@, crate::model::result_view(result)),
    {
        match self.controller.refresh(poll) {
            Ok(()) => {},
            Err(error) => {
                return self.abort(no_notices(), error.message());
            },
        }
        let status = self.payload(false);
        match result {
            Ok(Some(path)) => {
                self.phase = Phase::Revealing { path, status };
                Turn { notices: no_notices(), request: Request::SetVisible { visible: true } }
            },
            Ok(None) => {
                self.say("No new replay file generated");
                self.phase = Phase::Pushing(AfterPush::Fresh);
                Turn { notices: no_notices(), request: Request::PushStatus(status) }
            },
            Err(error) => {
                self.say_with("Save failed: ", error.message().as_str());
                self.phase = Phase::Pushing(AfterPush::Fresh);
                Turn { notices: no_notices(), request: Request::PushStatus(status) }
            },
        }
    }

    fn revealed(&mut self, path: String, status: CaptureStatusPayload, error: Option<String>) -> (turn:
        Turn)
        ensures
            (final(self)@, turn@) == old(self)@.revealed(path@, status@, error.deep_view()),
    {
        proof {
            reveal(CaptureLoopView::revealed);
        }
        match error {
            Some(reason) => self.abort(no_notices(), reason),
            None => {
                self.say("Processing clip\u{2026}");
                self.phase = Phase::Pushing(AfterPush::Finish { path });
                Turn { notices: no_notices(), request: Request::PushStatus(status) }
            },
        }
    }

    fn sent(&mut self, poll: &ChildPoll, after: AfterPush, error: Option<String>) -> (turn: Turn)
        ensures
            (final(self)@, turn@) == old(self)@.sent(poll@, after@, error.deep_view()),
    {
        proof {
            reveal(CaptureLoopView::sent);
        }
        if let Some(reason) = error {
            let context = match after {
                AfterPush::Trigger { .. } => "failed to update saving status: ",
                _ => "failed to update capture status: ",
            };
            return self.abort(no_notices(), join2(context, reason.as_str()));
        }
        match after {
            AfterPush::Await => self.wait(no_notices()),
            AfterPush::Trigger { duration } => self.trigger(poll, duration),
            AfterPush::Fresh => self.push(poll, no_notices(), AfterPush::Await, false),
            AfterPush::Finish { path } => {
                self.phase = Phase::Processing;
                Turn { notices: no_notices(), request: Request::ProcessClip { path } }
            },
            AfterPush::Show => self.show(poll, no_notices()),
        }
    }

    fn clip_done(&mut self, poll: &ChildPoll, failed_upload: Option<FailedUpload>) -> (turn: Turn)
        ensures
            (final(self)@, turn@) == old(self)@.clip_done(poll@, failed_upload.deep_view()),
    {
        proof {
            reveal(CaptureLoopView::clip_done);
        }
        let mut notices = no_notices();
        if let Some(upload) = failed_upload {
            self.failed_uploads.add(upload);
            add_notice(&mut notices, Notice::SaveFailedUploads(self.failed_uploads.clone()));
            assert(notices.deep_view() =~= seq![notices[0]@]);
        }
        self.controller.clear_last_saved();
        self.say("Replay recorder ready");
        self.push(poll, notices, AfterPush::Show, false)
    }

    fn launched(&mut self, poll: &ChildPoll, purpose: LaunchPurpose, outcome: LaunchOutcome) -> (turn:
        Turn)
        ensures
            (final(self)@, turn@) == old(self)@.launched(poll@, purpose@, outcome@),
    {
        proof {
            reveal(CaptureLoopView::launched);
        }
        match purpose {
            LaunchPurpose::Startup => {
                match self.controller.finish_start(outcome) {
                    Ok(()) => self.show(poll, no_notices()),
                    Err(error) => {
                        match error {
                            crate::capture::ReplayError::CreateOutputDir { .. } => self.abort(
                                no_notices(),
                                error.message(),
                            ),
                            _ => {
                                self.say_with("Failed to start replay: ", error.message().as_str());
                                self.show(poll, no_notices())
                            },
                        }
                    },
                }
            },
            LaunchPurpose::Toggle => {
                let _ = self.after_launch(
                    outcome,
                    "Replay recorder started",
                    "Failed to enable replay: ",
                );
                self.persist_toggle(poll, no_notices(), true)
            },
            LaunchPurpose::Detection { game, reason } => self.launched_for_game(
                poll,
                outcome,
                game,
                reason,
            ),
            LaunchPurpose::Apply { merged } => self.launched_for_settings(poll, outcome, merged),
        }
    }

    fn shown(&mut self, error: Option<String>) -> (turn: Turn)
        ensures
            (final(self)@, turn@) == old(self)@.shown(error.deep_view()),
    {
        proof {
            reveal(CaptureLoopView::shown);
        }
        match error {
            Some(reason) => self.abort(
                no_notices(),
                join2("failed to show capture panel: ", reason.as_str()),
            ),
            None => self.enter(),
        }
    }

    fn save_taken(&mut self, poll: &ChildPoll, outcome: SaveOutcome) -> (turn: Turn)
        ensures
            (final(self)@, turn@) == old(self)@.save_taken(poll@, outcome@),
    {
        proof {
            reveal(CaptureLoopView::save_taken);
        }
        let result = self.controller.finish_save(outcome);
        self.save_ended(poll, result)
    }

    /// One turn of the session. `reply` answers the request of the turn before
    /// (`Reply::Begin` opens the session), and `poll` is a look at the recorder
    /// process taken just before the call; it is not read while no process is held.
    ///
    /// What each phase makes of its answer is an opaque function of the model
    /// (`begin`, `launched`, `shown`, `detected`, `sent`, `event`, `save_taken`,
    /// `revealed`, `uploaded`, `clip_done`): `reveal` the one in question to
    /// reason about a particular turn.
    pub fn step(&mut self, poll: &ChildPoll, reply: Reply) -> (turn: Turn)
        ensures
            (final(self)@, turn@) == old(self)@.step(poll@, reply@),
    {
        let mut phase = Phase::Finished;
        std::mem::swap(&mut self.phase, &mut phase);
        match phase {
            Phase::Starting { start_now } => match reply {
                Reply::Begin => self.begin(poll, start_now),
                _ => self.mismatch(),
            },
            Phase::Launching(purpose) => match reply {
                Reply::Launched(outcome) => self.launched(poll, purpose, outcome),
                _ => self.mismatch(),
            },
            Phase::Showing => match reply {
                Reply::Sent { error } => self.shown(error),
                _ => self.mismatch(),
            },
            Phase::Detecting(reason) => match reply {
                Reply::Game { name } => self.detected(poll, reason, name),
                _ => self.mismatch(),
            },
            Phase::Pushing(after) => match reply {
                Reply::Sent { error } => self.sent(poll, after, error),
                _ => self.mismatch(),
            },
            Phase::Waiting => match reply {
                Reply::Event(event) => self.event(poll, event),
                _ => self.mismatch(),
            },
            Phase::Saving => match reply {
                Reply::Saved(outcome) => self.save_taken(poll, outcome),
                _ => self.mismatch(),
            },
            Phase::Revealing { path, status } => match reply {
                Reply::Sent { error } => self.revealed(path, status, error),
                _ => self.mismatch(),
            },
            Phase::Retrying { upload } => match reply {
                Reply::Upload(outcome) => self.uploaded(poll, upload, outcome),
                _ => self.mismatch(),
            },
            Phase::Processing => match reply {
                Reply::ClipDone { failed_upload } => self.clip_done(poll, failed_upload),
                _ => self.mismatch(),
            },
            Phase::Finished => self.mismatch(),
        }
    }

    fn mismatch(&mut self) -> (turn: Turn)
        ensures
            (final(self)@, turn@) == old(self)@.mismatch(),
    {
        self.abort(no_notices(), "reply does not answer the request".to_string())
    }
}


} // verus!
