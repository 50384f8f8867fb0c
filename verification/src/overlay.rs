use vstd::prelude::*;
use crate::text::{join2, same_text};

verus! {

/// One line of the failed-uploads list as the panel shows it.
#[derive(Debug, PartialEq, Eq)]
pub struct FailedUploadEntry {
    pub id: String,
    pub display_name: String,
}

pub struct FailedUploadEntryView {
    pub id: Seq<char>,
    pub display_name: Seq<char>,
}

impl View for FailedUploadEntry {
    type V = FailedUploadEntryView;

    open spec fn view(&self) -> FailedUploadEntryView {
        FailedUploadEntryView { id: self.id@, display_name: self.display_name@ }
    }
}

impl DeepView for FailedUploadEntry {
    type V = FailedUploadEntryView;

    open spec fn deep_view(&self) -> FailedUploadEntryView {
        self@
    }
}

impl Clone for FailedUploadEntry {
    fn clone(&self) -> (copy: Self)
        ensures
            copy@ == self@,
    {
        FailedUploadEntry { id: self.id.clone(), display_name: self.display_name.clone() }
    }
}

/// The status snapshot that the capture panel displays.
#[derive(Debug, PartialEq, Eq)]
pub struct CaptureStatusPayload {
    pub running: bool,
    pub buffer_seconds: u32,
    pub bitrate: u32,
    pub fps: u32,
    pub target: String,
    pub audio_tracks: Vec<String>,
    pub last_saved: Option<String>,
    pub hotkey: String,
    pub message: Option<String>,
    pub is_saving: bool,
    pub failed_uploads: Vec<FailedUploadEntry>,
    pub replay_mode: String,
}

pub struct CaptureStatusPayloadView {
    pub running: bool,
    pub buffer_seconds: u32,
    pub bitrate: u32,
    pub fps: u32,
    pub target: Seq<char>,
    pub audio_tracks: Seq<Seq<char>>,
    pub last_saved: Option<Seq<char>>,
    pub hotkey: Seq<char>,
    pub message: Option<Seq<char>>,
    pub is_saving: bool,
    pub failed_uploads: Seq<FailedUploadEntryView>,
    pub replay_mode: Seq<char>,
}

impl View for CaptureStatusPayload {
    type V = CaptureStatusPayloadView;

    open spec fn view(&self) -> CaptureStatusPayloadView {
        CaptureStatusPayloadView {
            running: self.running,
            buffer_seconds: self.buffer_seconds,
            bitrate: self.bitrate,
            fps: self.fps,
            target: self.target@,
            audio_tracks: self.audio_tracks.deep_view(),
            last_saved: self.last_saved.deep_view(),
            hotkey: self.hotkey@,
            message: self.message.deep_view(),
            is_saving: self.is_saving,
            failed_uploads: self.failed_uploads.deep_view(),
            replay_mode: self.replay_mode@,
        }
    }
}

impl DeepView for CaptureStatusPayload {
    type V = CaptureStatusPayloadView;

    open spec fn deep_view(&self) -> CaptureStatusPayloadView {
        self@
    }
}

impl Clone for CaptureStatusPayload {
    fn clone(&self) -> (copy: Self)
        ensures
            copy@ == self@,
    {
        CaptureStatusPayload {
            running: self.running,
            buffer_seconds: self.buffer_seconds,
            bitrate: self.bitrate,
            fps: self.fps,
            target: self.target.clone(),
            audio_tracks: self.audio_tracks.clone(),
            last_saved: crate::capture::clone_text(&self.last_saved),
            hotkey: self.hotkey.clone(),
            message: crate::capture::clone_text(&self.message),
            is_saving: self.is_saving,
            failed_uploads: self.failed_uploads.clone(),
            replay_mode: self.replay_mode.clone(),
        }
    }
}

/// The settings that the panel sends back when the user applies them.
#[derive(Debug, PartialEq, Eq)]
pub struct CaptureSettingsPayload {
    pub buffer_seconds: u32,
    pub bitrate: u32,
    pub fps: u32,
    pub target: String,
    pub audio_tracks: Vec<String>,
}

pub struct CaptureSettingsPayloadView {
    pub buffer_seconds: u32,
    pub bitrate: u32,
    pub fps: u32,
    pub target: Seq<char>,
    pub audio_tracks: Seq<Seq<char>>,
}

impl View for CaptureSettingsPayload {
    type V = CaptureSettingsPayloadView;

    open spec fn view(&self) -> CaptureSettingsPayloadView {
        CaptureSettingsPayloadView {
            buffer_seconds: self.buffer_seconds,
            bitrate: self.bitrate,
            fps: self.fps,
            target: self.target@,
            audio_tracks: self.audio_tracks.deep_view(),
        }
    }
}

impl DeepView for CaptureSettingsPayload {
    type V = CaptureSettingsPayloadView;

    open spec fn deep_view(&self) -> CaptureSettingsPayloadView {
        self@
    }
}

/// What the user did on the capture panel.
#[derive(Debug, PartialEq, Eq)]
pub enum CaptureActionPayload {
    Toggle { enable: bool },
    Save { duration_secs: u32 },
    UpdateSettings { settings: CaptureSettingsPayload },
    UpdateMode { mode: String },
    FailedUpload { upload_action: String, id: String },
}

pub enum CaptureActionPayloadView {
    Toggle { enable: bool },
    Save { duration_secs: u32 },
    UpdateSettings { settings: CaptureSettingsPayloadView },
    UpdateMode { mode: Seq<char> },
    FailedUpload { upload_action: Seq<char>, id: Seq<char> },
}

impl View for CaptureActionPayload {
    type V = CaptureActionPayloadView;

    open spec fn view(&self) -> CaptureActionPayloadView {
        match self {
            CaptureActionPayload::Toggle { enable } => CaptureActionPayloadView::Toggle {
                enable: *enable,
            },
            CaptureActionPayload::Save { duration_secs } => CaptureActionPayloadView::Save {
                duration_secs: *duration_secs,
            },
            CaptureActionPayload::UpdateSettings { settings } =>
                CaptureActionPayloadView::UpdateSettings { settings: settings@ },
            CaptureActionPayload::UpdateMode { mode } => CaptureActionPayloadView::UpdateMode {
                mode: mode@,
            },
            CaptureActionPayload::FailedUpload { upload_action, id } =>
                CaptureActionPayloadView::FailedUpload { upload_action: upload_action@, id: id@ },
        }
    }
}

impl DeepView for CaptureActionPayload {
    type V = CaptureActionPayloadView;

    open spec fn deep_view(&self) -> CaptureActionPayloadView {
        self@
    }
}

/// A point on a clip's time line, in seconds, held as the bit pattern of the
/// 64-bit float that the wire carries.
#[derive(Debug, Clone, Copy, PartialEq, Eq, Structural)]
pub struct TrimTime {
    pub bits: u64,
}

/// What the user chose to do with a clip.
#[derive(Debug, Clone, Copy, PartialEq, Eq, Structural)]
pub enum ActionChoice {
    Upload,
    Move,
    Discard,
}

/// A message from the presentation surface.
#[derive(Debug, PartialEq, Eq)]
#[allow(inconsistent_fields)]
pub enum OverlayResponse {
    PickerResult { title: String, game: String, action: String, channels: Vec<String> },
    TrimmerResult { start_time: TrimTime, end_time: TrimTime },
    CaptureAction { action: CaptureActionPayload },
    Cancelled,
}

#[allow(inconsistent_fields)]
pub enum OverlayResponseView {
    PickerResult {
        title: Seq<char>,
        game: Seq<char>,
        action: Seq<char>,
        channels: Seq<Seq<char>>,
    },
    TrimmerResult { start_time: TrimTime, end_time: TrimTime },
    CaptureAction { action: CaptureActionPayloadView },
    Cancelled,
}

impl View for OverlayResponse {
    type V = OverlayResponseView;

    open spec fn view(&self) -> OverlayResponseView {
        match self {
            OverlayResponse::PickerResult { title, game, action, channels } =>
                OverlayResponseView::PickerResult {
                    title: title@,
                    game: game@,
                    action: action@,
                    channels: channels.deep_view(),
                },
            OverlayResponse::TrimmerResult { start_time, end_time } =>
                OverlayResponseView::TrimmerResult { start_time: *start_time, end_time: *end_time },
            OverlayResponse::CaptureAction { action } => OverlayResponseView::CaptureAction {
                action: action@,
            },
            OverlayResponse::Cancelled => OverlayResponseView::Cancelled,
        }
    }
}

impl DeepView for OverlayResponse {
    type V = OverlayResponseView;

    open spec fn deep_view(&self) -> OverlayResponseView {
        self@
    }
}

impl OverlayResponseView {
    /// The wire tag of this kind of response.
    pub open spec fn tag(self) -> Seq<char> {
        match self {
            OverlayResponseView::PickerResult { .. } => "picker_result"@,
            OverlayResponseView::TrimmerResult { .. } => "trimmer_result"@,
            OverlayResponseView::CaptureAction { .. } => "capture_action"@,
            OverlayResponseView::Cancelled => "cancelled"@,
        }
    }
}

impl OverlayResponse {
    /// The wire tag of this kind of response.
    pub fn tag(&self) -> (tag: &'static str)
        ensures
            tag@ == self@.tag(),
    {
        match self {
            OverlayResponse::PickerResult { .. } => "picker_result",
            OverlayResponse::TrimmerResult { .. } => "trimmer_result",
            OverlayResponse::CaptureAction { .. } => "capture_action",
            OverlayResponse::Cancelled => "cancelled",
        }
    }
}

/// What the user entered in the clip picker.
#[derive(Debug, PartialEq, Eq)]
pub struct PickerResult {
    pub title: String,
    pub game: String,
    pub action: ActionChoice,
    pub channels: Vec<String>,
}

pub struct PickerResultView {
    pub title: Seq<char>,
    pub game: Seq<char>,
    pub action: ActionChoice,
    pub channels: Seq<Seq<char>>,
}

impl View for PickerResult {
    type V = PickerResultView;

    open spec fn view(&self) -> PickerResultView {
        PickerResultView {
            title: self.title@,
            game: self.game@,
            action: self.action,
            channels: self.channels.deep_view(),
        }
    }
}

impl DeepView for PickerResult {
    type V = PickerResultView;

    open spec fn deep_view(&self) -> PickerResultView {
        self@
    }
}

/// The stretch of the clip that the user kept.
#[derive(Debug, Clone, Copy, PartialEq, Eq, Structural)]
pub struct TrimmerResult {
    pub start_time: TrimTime,
    pub end_time: TrimTime,
}

impl View for TrimmerResult {
    type V = TrimmerResult;

    open spec fn view(&self) -> TrimmerResult {
        *self
    }
}

impl DeepView for TrimmerResult {
    type V = TrimmerResult;

    open spec fn deep_view(&self) -> TrimmerResult {
        *self
    }
}

/// Which dialog an exchange belongs to.
#[derive(Debug, Clone, Copy, PartialEq, Eq, Structural)]
pub enum Dialog {
    Picker,
    Trimmer,
}

/// Why an exchange with the presentation surface failed.
#[derive(Debug, PartialEq, Eq)]
pub enum OverlayError {
    /// The peer closed its stream before it answered.
    Closed { dialog: Dialog },
    /// The picker named an action that does not exist.
    UnknownAction { action: String },
    /// The answer is of a kind that does not belong to the exchange.
    Unexpected { dialog: Dialog, tag: String },
}

pub enum OverlayErrorView {
    Closed { dialog: Dialog },
    UnknownAction { action: Seq<char> },
    Unexpected { dialog: Dialog, tag: Seq<char> },
}

impl View for OverlayError {
    type V = OverlayErrorView;

    open spec fn view(&self) -> OverlayErrorView {
        match self {
            OverlayError::Closed { dialog } => OverlayErrorView::Closed { dialog: *dialog },
            OverlayError::UnknownAction { action } => OverlayErrorView::UnknownAction {
                action: action@,
            },
            OverlayError::Unexpected { dialog, tag } => OverlayErrorView::Unexpected {
                dialog: *dialog,
                tag: tag@,
            },
        }
    }
}

impl DeepView for OverlayError {
    type V = OverlayErrorView;

    open spec fn deep_view(&self) -> OverlayErrorView {
        self@
    }
}

impl Dialog {
    pub open spec fn name(self) -> Seq<char> {
        match self {
            Dialog::Picker => "picker"@,
            Dialog::Trimmer => "trimmer"@,
        }
    }

    fn as_str(self) -> (name: &'static str)
        ensures
            name@ == self.name(),
    {
        match self {
            Dialog::Picker => "picker",
            Dialog::Trimmer => "trimmer",
        }
    }
}

impl OverlayErrorView {
    pub open spec fn message(self) -> Seq<char> {
        match self {
            OverlayErrorView::Closed { dialog } => "overlay closed while waiting for "@
                + dialog.name() + " response"@,
            OverlayErrorView::UnknownAction { action } =>
                "overlay returned unknown picker action: "@ + action,
            OverlayErrorView::Unexpected { dialog, tag } => "overlay returned unexpected "@
                + dialog.name() + " response: "@ + tag,
        }
    }
}

impl OverlayError {
    pub fn message(&self) -> (text: String)
        ensures
            text@ == self@.message(),
    {
        match self {
            OverlayError::Closed { dialog } => {
                let mut text = join2("overlay closed while waiting for ", dialog.as_str());
                text.append(" response");
                text
            },
            OverlayError::UnknownAction { action } => join2(
                "overlay returned unknown picker action: ",
                action.as_str(),
            ),
            OverlayError::Unexpected { dialog, tag } => {
                let mut text = join2("overlay returned unexpected ", dialog.as_str());
                text.append(" response: ");
                text.append(tag.as_str());
                text
            },
        }
    }
}

/// The choice that the picker's word for it names.
pub open spec fn action_choice(word: Seq<char>) -> Option<ActionChoice> {
    if word == "upload"@ {
        Some(ActionChoice::Upload)
    } else if word == "move"@ {
        Some(ActionChoice::Move)
    } else if word == "discard"@ {
        Some(ActionChoice::Discard)
    } else {
        None
    }
}

/// Reads the picker's word for the user's choice.
pub fn parse_action_choice(word: &str) -> (choice: Option<ActionChoice>)
    ensures
        choice == action_choice(word@),
{
    if same_text(word, "upload") {
        Some(ActionChoice::Upload)
    } else if same_text(word, "move") {
        Some(ActionChoice::Move)
    } else if same_text(word, "discard") {
        Some(ActionChoice::Discard)
    } else {
        None
    }
}

/// What the answer to a picker request means: the user's entries, `None` where
/// the user cancelled, an error for anything else.
pub open spec fn picker_outcome(response: Option<OverlayResponseView>) -> Result<
    Option<PickerResultView>,
    OverlayErrorView,
> {
    match response {
        None => Err(OverlayErrorView::Closed { dialog: Dialog::Picker }),
        Some(OverlayResponseView::PickerResult { title, game, action, channels }) => {
            match action_choice(action) {
                Some(choice) => Ok(Some(PickerResultView { title, game, action: choice, channels })),
                None => Err(OverlayErrorView::UnknownAction { action }),
            }
        },
        Some(OverlayResponseView::Cancelled) => Ok(None),
        Some(other) => Err(OverlayErrorView::Unexpected { dialog: Dialog::Picker, tag: other.tag() }),
    }
}

/// Interprets the answer to a picker request; `None` stands for a closed stream.
pub fn picker_result(response: Option<OverlayResponse>) -> (result: Result<
    Option<PickerResult>,
    OverlayError,
>)
    ensures
        crate::model::result_view(result) == picker_outcome(response.deep_view()),
{
    match response {
        None => Err(OverlayError::Closed { dialog: Dialog::Picker }),
        Some(OverlayResponse::PickerResult { title, game, action, channels }) => {
            match parse_action_choice(action.as_str()) {
                Some(choice) => Ok(Some(PickerResult { title, game, action: choice, channels })),
                None => Err(OverlayError::UnknownAction { action }),
            }
        },
        Some(OverlayResponse::Cancelled) => Ok(None),
        Some(other) => Err(
            OverlayError::Unexpected { dialog: Dialog::Picker, tag: other.tag().to_string() },
        ),
    }
}

/// What the answer to a trimmer request means.
pub open spec fn trimmer_outcome(response: Option<OverlayResponseView>) -> Result<
    Option<TrimmerResult>,
    OverlayErrorView,
> {
    match response {
        None => Err(OverlayErrorView::Closed { dialog: Dialog::Trimmer }),
        Some(OverlayResponseView::TrimmerResult { start_time, end_time }) => Ok(
            Some(TrimmerResult { start_time, end_time }),
        ),
        Some(OverlayResponseView::Cancelled) => Ok(None),
        Some(other) => Err(
            OverlayErrorView::Unexpected { dialog: Dialog::Trimmer, tag: other.tag() },
        ),
    }
}

/// Interprets the answer to a trimmer request; `None` stands for a closed stream.
pub fn trimmer_result(response: Option<OverlayResponse>) -> (result: Result<
    Option<TrimmerResult>,
    OverlayError,
>)
    ensures
        crate::model::result_view(result) == trimmer_outcome(response.deep_view()),
{
    match response {
        None => Err(OverlayError::Closed { dialog: Dialog::Trimmer }),
        Some(OverlayResponse::TrimmerResult { start_time, end_time }) => Ok(
            Some(TrimmerResult { start_time, end_time }),
        ),
        Some(OverlayResponse::Cancelled) => Ok(None),
        Some(other) => Err(
            OverlayError::Unexpected { dialog: Dialog::Trimmer, tag: other.tag().to_string() },
        ),
    }
}

/// What a capture session makes of one received message.
#[derive(Debug, PartialEq, Eq)]
pub enum SessionStep {
    /// The user acted: the wait is over.
    Action(CaptureActionPayload),
    /// The peer cancelled or closed its stream: the wait is over, with nothing.
    Closed,
    /// The message belongs to another exchange: keep waiting.
    Skip,
}

pub enum SessionStepView {
    Action(CaptureActionPayloadView),
    Closed,
    Skip,
}

impl View for SessionStep {
    type V = SessionStepView;

    open spec fn view(&self) -> SessionStepView {
        match self {
            SessionStep::Action(action) => SessionStepView::Action(action@),
            SessionStep::Closed => SessionStepView::Closed,
            SessionStep::Skip => SessionStepView::Skip,
        }
    }
}

impl DeepView for SessionStep {
    type V = SessionStepView;

    open spec fn deep_view(&self) -> SessionStepView {
        self@
    }
}

/// What a capture session makes of `response`, `None` standing for a closed stream.
pub open spec fn session_step(response: Option<OverlayResponseView>) -> SessionStepView {
    match response {
        Some(OverlayResponseView::CaptureAction { action }) => SessionStepView::Action(action),
        Some(OverlayResponseView::Cancelled) => SessionStepView::Closed,
        Some(_) => SessionStepView::Skip,
        None => SessionStepView::Closed,
    }
}

/// One turn of a capture session's wait: decides from the message just received
/// whether the wait is over.
pub fn wait_for_action(response: Option<OverlayResponse>) -> (step: SessionStep)
    ensures
        step@ == session_step(response.deep_view()),
{
    match response {
        Some(OverlayResponse::CaptureAction { action }) => SessionStep::Action(action),
        Some(OverlayResponse::Cancelled) => SessionStep::Closed,
        Some(_) => SessionStep::Skip,
        None => SessionStep::Closed,
    }
}

/// Only results of the picker and of the trimmer are skipped.
pub proof fn lemma_skip_only_foreign(response: OverlayResponseView)
    ensures
        session_step(Some(response)) is Skip <==> (response is PickerResult
            || response is TrimmerResult),
{
}

/// The line that carries `message` on the wire: the message and one line feed.
pub open spec fn framed(message: Seq<char>) -> Seq<char> {
    message.push('\n')
}

/// A message that holds no line feed is framed as exactly one line: the line
/// feed that ends it is the first on the wire, and what stands before it is
/// the message.
pub proof fn lemma_frame_is_one_line(message: Seq<char>)
    requires
        forall|i: int| 0 <= i < message.len() ==> message[i] != '\n',
    ensures
        framed(message).len() == message.len() + 1,
        crate::text::is_first_at(framed(message), 0, '\n', message.len() as int),
        framed(message).drop_last() == message,
{
    assert(framed(message).drop_last() =~= message);
}

/// Frames a serialized message for the wire.
pub fn frame_message(message: &str) -> (line: String)
    ensures
        line@ == framed(message@),
{
    let mut line = message.to_string();
    line.push('\n');
    line
}

/// What a read of one line from the peer's stream gave.
#[derive(Debug, PartialEq, Eq)]
pub enum LineRead {
    /// The stream is closed.
    Closed,
    /// One line, as read.
    Line(String),
}

/// A read of zero bytes means that the peer closed its stream; anything else is
/// a line to decode.
pub fn classify_read(bytes: usize, line: String) -> (read: LineRead)
    ensures
        bytes == 0 ==> read is Closed,
        bytes != 0 ==> (read matches LineRead::Line(text) && text@ == line@),
{
    if bytes == 0 {
        LineRead::Closed
    } else {
        LineRead::Line(line)
    }
}

} // verus!
