use vstd::prelude::*;
use crate::model::result_view;
use crate::text::{blank, decimal, decimal_text, is_blank, join2, join3};

verus! {

/// Where the recorder keeps its rolling buffer.
#[derive(Debug, Clone, Copy, PartialEq, Eq, Structural)]
pub enum ReplayStorage {
    Ram,
    Disk,
}

impl ReplayStorage {
    /// The keyword by which the recorder knows this medium.
    pub open spec fn keyword(self) -> Seq<char> {
        match self {
            ReplayStorage::Ram => "ram"@,
            ReplayStorage::Disk => "disk"@,
        }
    }

    pub fn as_str(self) -> (word: &'static str)
        ensures
            word@ == self.keyword(),
    {
        match self {
            ReplayStorage::Ram => "ram",
            ReplayStorage::Disk => "disk",
        }
    }
}

/// The recorder's configuration. Paths are held as text.
#[derive(Debug, PartialEq, Eq)]
pub struct ReplaySettings {
    pub binary: String,
    pub target: String,
    pub buffer_seconds: u32,
    pub bitrate: u32,
    pub fps: u32,
    pub audio_tracks: Vec<String>,
    pub restore_portal_session: bool,
    pub replay_storage: ReplayStorage,
    pub output_dir: String,
}

/// What a `ReplaySettings` value stands for.
pub struct ReplaySettingsView {
    pub binary: Seq<char>,
    pub target: Seq<char>,
    pub buffer_seconds: u32,
    pub bitrate: u32,
    pub fps: u32,
    pub audio_tracks: Seq<Seq<char>>,
    pub restore_portal_session: bool,
    pub replay_storage: ReplayStorage,
    pub output_dir: Seq<char>,
}

impl View for ReplaySettings {
    type V = ReplaySettingsView;

    open spec fn view(&self) -> ReplaySettingsView {
        ReplaySettingsView {
            binary: self.binary@,
            target: self.target@,
            buffer_seconds: self.buffer_seconds,
            bitrate: self.bitrate,
            fps: self.fps,
            audio_tracks: self.audio_tracks.deep_view(),
            restore_portal_session: self.restore_portal_session,
            replay_storage: self.replay_storage,
            output_dir: self.output_dir@,
        }
    }
}

impl Clone for ReplaySettings {
    fn clone(&self) -> (copy: Self)
        ensures
            copy@ == self@,
    {
        ReplaySettings {
            binary: self.binary.clone(),
            target: self.target.clone(),
            buffer_seconds: self.buffer_seconds,
            bitrate: self.bitrate,
            fps: self.fps,
            audio_tracks: self.audio_tracks.clone(),
            restore_portal_session: self.restore_portal_session,
            replay_storage: self.replay_storage,
            output_dir: self.output_dir.clone(),
        }
    }
}

/// The buffer length that stands in for zero.
pub const DEFAULT_BUFFER_SECONDS: u32 = 60;

/// The bitrate that stands in for zero.
pub const DEFAULT_BITRATE: u32 = 60_000;

/// The frame rate that stands in for zero.
pub const DEFAULT_FPS: u32 = 60;

/// The track that is recorded when no usable one is named.
pub open spec fn default_track() -> Seq<char> {
    "default_input"@
}

/// The tracks of `tracks` that are not blank, in their order.
pub open spec fn named_tracks(tracks: Seq<Seq<char>>) -> Seq<Seq<char>> {
    tracks.filter(|t: Seq<char>| !is_blank(t))
}

impl ReplaySettingsView {
    /// The settings the recorder is started with: a zero gives way to its default,
    /// blank tracks are dropped, and an empty track list to the default track.
    pub open spec fn normalized(self) -> ReplaySettingsView {
        let kept = named_tracks(self.audio_tracks);
        ReplaySettingsView {
            buffer_seconds: if self.buffer_seconds == 0 {
                DEFAULT_BUFFER_SECONDS
            } else {
                self.buffer_seconds
            },
            bitrate: if self.bitrate == 0 {
                DEFAULT_BITRATE
            } else {
                self.bitrate
            },
            fps: if self.fps == 0 {
                DEFAULT_FPS
            } else {
                self.fps
            },
            audio_tracks: if kept.len() == 0 {
                seq![default_track()]
            } else {
                kept
            },
            ..self
        }
    }

    /// Every number is positive, there is a track, and no track is blank.
    pub open spec fn is_normal(self) -> bool {
        &&& self.buffer_seconds > 0
        &&& self.bitrate > 0
        &&& self.fps > 0
        &&& self.audio_tracks.len() > 0
        &&& forall|i: int|
            0 <= i < self.audio_tracks.len() ==> !is_blank(#[trigger] self.audio_tracks[i])
    }
}

/// Appends `item` to `list`.
pub(crate) fn push_text(list: &mut Vec<String>, item: String)
    ensures
        final(list).deep_view() == old(list).deep_view().push(item@),
{
    list.push(item);
    assert(list.deep_view() =~= old(list).deep_view().push(item@));
}

/// The non-blank entries of `tracks`.
pub(crate) fn keep_named(tracks: &Vec<String>) -> (kept: Vec<String>)
    ensures
        kept.deep_view() == named_tracks(tracks.deep_view()),
{
    let ghost keep = |t: Seq<char>| !is_blank(t);
    let mut kept: Vec<String> = Vec::new();
    let mut i: usize = 0;
    assert(tracks.deep_view().take(0) =~= Seq::<Seq<char>>::empty());
    assert(kept.deep_view() =~= Seq::<Seq<char>>::empty());
    proof {
        reveal(Seq::filter);
    }
    while i < tracks.len()
        invariant
            i <= tracks.len(),
            keep == (|t: Seq<char>| !is_blank(t)),
            kept.deep_view() == tracks.deep_view().take(i as int).filter(keep),
        decreases tracks.len() - i,
    {
        let ghost prefix = tracks.deep_view().take(i as int);
        let ghost next = tracks.deep_view().take(i + 1);
        proof {
            reveal(Seq::filter);
            assert(next.drop_last() =~= prefix);
            assert(next.last() == tracks[i as int]@);
        }
        if !blank(tracks[i].as_str()) {
            push_text(&mut kept, tracks[i].clone());
        }
        i = i + 1;
    }
    assert(tracks.deep_view().take(i as int) =~= tracks.deep_view());
    kept
}

impl ReplaySettings {
    /// Puts the settings into the form the recorder is started with.
    pub fn sanitize(&mut self)
        ensures
            final(self)@ == old(self)@.normalized(),
            final(self)@.is_normal(),
    {
        proof {
            lemma_normalized_idempotent(self@);
        }
        if self.buffer_seconds == 0 {
            self.buffer_seconds = DEFAULT_BUFFER_SECONDS;
        }
        if self.bitrate == 0 {
            self.bitrate = DEFAULT_BITRATE;
        }
        if self.fps == 0 {
            self.fps = DEFAULT_FPS;
        }
        let mut kept = keep_named(&self.audio_tracks);
        if kept.len() == 0 {
            push_text(&mut kept, "default_input".to_string());
            assert(kept.deep_view() =~= seq![default_track()]);
        }
        self.audio_tracks = kept;
    }
}

/// The default track is a name: it is not blank.
pub proof fn lemma_default_track_is_named()
    ensures
        !is_blank(default_track()),
{
    reveal_strlit("default_input");
    assert(!crate::text::unicode_whitespace(default_track()[0]));
}

/// Normalized settings are normal, and normalizing them again changes nothing.
pub proof fn lemma_normalized_idempotent(s: ReplaySettingsView)
    ensures
        s.normalized().normalized() == s.normalized(),
        s.normalized().is_normal(),
{
    let keep = |t: Seq<char>| !is_blank(t);
    let kept = named_tracks(s.audio_tracks);
    lemma_default_track_is_named();
    if kept.len() == 0 {
        let one = seq![default_track()];
        reveal(Seq::filter);
        assert(one.drop_last() =~= Seq::<Seq<char>>::empty());
        assert(one.drop_last().filter(keep) =~= Seq::<Seq<char>>::empty());
        assert(named_tracks(one) =~= one);
    } else {
        lemma_filter_twice(s.audio_tracks);
        assert forall|i: int| 0 <= i < kept.len() implies !is_blank(#[trigger] kept[i]) by {
            s.audio_tracks.lemma_filter_pred(keep, i);
        }
    }
}

/// Dropping the blank tracks of a list that has none left is the identity.
pub proof fn lemma_filter_twice(tracks: Seq<Seq<char>>)
    ensures
        named_tracks(named_tracks(tracks)) == named_tracks(tracks),
    decreases tracks.len(),
{
    let keep = |t: Seq<char>| !is_blank(t);
    reveal(Seq::filter);
    if tracks.len() > 0 {
        lemma_filter_twice(tracks.drop_last());
        let sub = tracks.drop_last().filter(keep);
        if keep(tracks.last()) {
            assert(sub.push(tracks.last()).drop_last() =~= sub);
        }
    }
}

impl DeepView for ReplaySettings {
    type V = ReplaySettingsView;

    open spec fn deep_view(&self) -> ReplaySettingsView {
        self@
    }
}

/// The signal offset above the real-time base that asks for the last `duration`
/// seconds, where the recorder knows that duration.
pub open spec fn save_signal_offset(duration: Option<u32>) -> Option<int> {
    match duration {
        Some(secs) => if secs == 10 {
            Some(1)
        } else if secs == 30 {
            Some(2)
        } else if secs == 60 {
            Some(3)
        } else if secs == 300 {
            Some(4)
        } else if secs == 600 {
            Some(5)
        } else if secs == 1800 {
            Some(6)
        } else {
            None
        },
        None => None,
    }
}

/// The signal that asks the recorder to write out the last `duration` seconds:
/// a real-time signal for a duration it knows, the full-buffer signal otherwise.
pub open spec fn save_signal_number(duration: Option<u32>, rt_base: int, full_buffer: int) -> int {
    match save_signal_offset(duration) {
        Some(offset) => rt_base + offset,
        None => full_buffer,
    }
}

/// Whether a request for the last `duration` seconds is answered with the whole
/// buffer because the recorder does not know the duration.
pub open spec fn falls_back(duration: Option<u32>) -> bool {
    duration is Some && save_signal_offset(duration) is None
}

/// The largest offset that `save_signal_offset` gives.
pub const MAX_SIGNAL_OFFSET: i32 = 6;

/// Picks the signal for a save of the last `duration` seconds, given the lowest
/// real-time signal and the full-buffer signal of the platform.
pub fn save_signal(duration: Option<u32>, rt_base: i32, full_buffer: i32) -> (signal: i32)
    requires
        rt_base + MAX_SIGNAL_OFFSET <= i32::MAX,
    ensures
        signal == save_signal_number(duration, rt_base as int, full_buffer as int),
{
    match duration {
        Some(secs) => {
            if secs == 10 {
                rt_base + 1
            } else if secs == 30 {
                rt_base + 2
            } else if secs == 60 {
                rt_base + 3
            } else if secs == 300 {
                rt_base + 4
            } else if secs == 600 {
                rt_base + 5
            } else if secs == 1800 {
                rt_base + 6
            } else {
                full_buffer
            }
        },
        None => full_buffer,
    }
}

/// Whether `duration` names a number of seconds that the table does not hold.
pub fn is_unknown_duration(duration: Option<u32>) -> (unknown: bool)
    ensures
        unknown == falls_back(duration),
{
    match duration {
        Some(secs) => !(secs == 10 || secs == 30 || secs == 60 || secs == 300 || secs == 600 || secs
            == 1800),
        None => false,
    }
}

/// Every duration of the table gets a signal above the real-time base, and two
/// different durations of the table never share one.
pub proof fn lemma_table_signals_distinct(a: u32, b: u32, rt_base: int, full_buffer: int)
    requires
        save_signal_offset(Some(a)) is Some,
        save_signal_offset(Some(b)) is Some,
    ensures
        save_signal_number(Some(a), rt_base, full_buffer) > rt_base,
        a != b ==> save_signal_number(Some(a), rt_base, full_buffer) != save_signal_number(
            Some(b),
            rt_base,
            full_buffer,
        ),
{
}

/// A duration outside the table, or none at all, asks for the whole buffer.
pub proof fn lemma_other_durations_flush_all(duration: Option<u32>, rt_base: int, full_buffer: int)
    requires
        save_signal_offset(duration) is None,
    ensures
        save_signal_number(duration, rt_base, full_buffer) == full_buffer,
{
}

/// `libc::SIGRTMIN`: the lowest real-time signal that the C library hands out in
/// this process. Nothing is claimed of the number.
#[verifier::external_body]
fn realtime_signal_base() -> (base: i32) {
    libc::SIGRTMIN()
}

/// `libc::SIGUSR1`: the first user-defined signal of the platform. Nothing is
/// claimed of the number.
#[verifier::external_body]
fn full_buffer_signal() -> (signal: i32) {
    libc::SIGUSR1
}

/// The two signal numbers of the platform on which the save protocol rests: the
/// lowest real-time signal, with room above it for the whole table, and the
/// full-buffer signal.
#[derive(Debug, Clone, Copy, PartialEq, Eq)]
pub struct SignalNumbers {
    rt_base: i32,
    full_buffer: i32,
}

impl SignalNumbers {
    #[verifier::type_invariant]
    spec fn has_room(self) -> bool {
        self.rt_base + MAX_SIGNAL_OFFSET <= i32::MAX
    }

    /// The lowest real-time signal.
    pub closed spec fn base(self) -> int {
        self.rt_base as int
    }

    /// The signal that asks for the whole buffer.
    pub closed spec fn full(self) -> int {
        self.full_buffer as int
    }

    /// The pair of numbers, where the table fits above `rt_base`.
    pub fn new(rt_base: i32, full_buffer: i32) -> (numbers: Option<Self>)
        ensures
            numbers is Some <==> rt_base + MAX_SIGNAL_OFFSET <= i32::MAX,
            numbers matches Some(n) ==> n.base() == rt_base && n.full() == full_buffer,
    {
        if rt_base <= i32::MAX - MAX_SIGNAL_OFFSET {
            Some(SignalNumbers { rt_base, full_buffer })
        } else {
            None
        }
    }

    /// The numbers of the platform that this process runs on, where the table fits
    /// above its lowest real-time signal.
    pub fn of_platform() -> (numbers: Option<Self>)
        ensures
            numbers matches Some(n) ==> n.base() + MAX_SIGNAL_OFFSET <= i32::MAX,
    {
        SignalNumbers::new(realtime_signal_base(), full_buffer_signal())
    }

    pub fn rt_base(&self) -> (number: i32)
        ensures
            number == self.base(),
    {
        self.rt_base
    }

    pub fn full_buffer(&self) -> (number: i32)
        ensures
            number == self.full(),
    {
        self.full_buffer
    }

    /// The signal that asks for the last `duration` seconds.
    pub fn signal_for(&self, duration: Option<u32>) -> (signal: i32)
        ensures
            signal == save_signal_number(duration, self.base(), self.full()),
    {
        proof {
            use_type_invariant(self);
        }
        save_signal(duration, self.rt_base, self.full_buffer)
    }
}

/// How to start the recorder: the program, its arguments, and the variables it
/// inherits from the environment where they are set.
#[derive(Debug, PartialEq, Eq)]
pub struct RecorderCommand {
    pub program: String,
    pub args: Vec<String>,
    pub inherit_env: Vec<String>,
    pub output_dir: String,
}

pub struct RecorderCommandView {
    pub program: Seq<char>,
    pub args: Seq<Seq<char>>,
    pub inherit_env: Seq<Seq<char>>,
    pub output_dir: Seq<char>,
}

impl View for RecorderCommand {
    type V = RecorderCommandView;

    open spec fn view(&self) -> RecorderCommandView {
        RecorderCommandView {
            program: self.program@,
            args: self.args.deep_view(),
            inherit_env: self.inherit_env.deep_view(),
            output_dir: self.output_dir@,
        }
    }
}

impl DeepView for RecorderCommand {
    type V = RecorderCommandView;

    open spec fn deep_view(&self) -> RecorderCommandView {
        self@
    }
}

impl Clone for RecorderCommand {
    fn clone(&self) -> (copy: Self)
        ensures
            copy@ == self@,
    {
        RecorderCommand {
            program: self.program.clone(),
            args: self.args.clone(),
            inherit_env: self.inherit_env.clone(),
            output_dir: self.output_dir.clone(),
        }
    }
}

/// One `-a` argument pair for each track that is not blank, in order.
pub open spec fn track_args(tracks: Seq<Seq<char>>) -> Seq<Seq<char>>
    decreases tracks.len(),
{
    if tracks.len() == 0 {
        Seq::empty()
    } else {
        let before = track_args(tracks.drop_last());
        if is_blank(tracks.last()) {
            before
        } else {
            before.push("-a"@).push(tracks.last())
        }
    }
}

/// The arguments that precede the optional ones.
pub open spec fn fixed_args(s: ReplaySettingsView) -> Seq<Seq<char>> {
    seq![
        "-w"@,
        s.target,
        "-c"@,
        "mp4"@,
        "-f"@,
        decimal_text(s.fps as nat),
        "-bm"@,
        "cbr"@,
        "-q"@,
        decimal_text(s.bitrate as nat),
        "-r"@,
        decimal_text(s.buffer_seconds as nat),
        "-o"@,
        s.output_dir,
        "-ro"@,
        s.output_dir,
        "-replay-storage"@,
        s.replay_storage.keyword(),
        "-v"@,
        "no"@,
    ]
}

/// The recorder's argument list for `s`.
pub open spec fn recorder_args(s: ReplaySettingsView) -> Seq<Seq<char>> {
    fixed_args(s) + (if s.restore_portal_session {
        seq!["-restore-portal-session"@, "yes"@]
    } else {
        Seq::empty()
    }) + track_args(s.audio_tracks)
}

/// The display-server variables that the recorder inherits.
pub open spec fn inherited_env() -> Seq<Seq<char>> {
    seq!["WAYLAND_DISPLAY"@, "DISPLAY"@, "XDG_RUNTIME_DIR"@]
}

/// The whole invocation for `s`.
pub open spec fn recorder_command(s: ReplaySettingsView) -> RecorderCommandView {
    RecorderCommandView {
        program: s.binary,
        args: recorder_args(s),
        inherit_env: inherited_env(),
        output_dir: s.output_dir,
    }
}

impl ReplaySettings {
    /// Builds the recorder's invocation from these settings as they stand.
    pub fn build_command(&self) -> (command: RecorderCommand)
        ensures
            command@ == recorder_command(self@),
    {
        let mut args: Vec<String> = Vec::new();
        push_text(&mut args, "-w".to_string());
        push_text(&mut args, self.target.clone());
        push_text(&mut args, "-c".to_string());
        push_text(&mut args, "mp4".to_string());
        push_text(&mut args, "-f".to_string());
        push_text(&mut args, decimal(self.fps as u64));
        push_text(&mut args, "-bm".to_string());
        push_text(&mut args, "cbr".to_string());
        push_text(&mut args, "-q".to_string());
        push_text(&mut args, decimal(self.bitrate as u64));
        push_text(&mut args, "-r".to_string());
        push_text(&mut args, decimal(self.buffer_seconds as u64));
        push_text(&mut args, "-o".to_string());
        push_text(&mut args, self.output_dir.clone());
        push_text(&mut args, "-ro".to_string());
        push_text(&mut args, self.output_dir.clone());
        push_text(&mut args, "-replay-storage".to_string());
        push_text(&mut args, self.replay_storage.as_str().to_string());
        push_text(&mut args, "-v".to_string());
        push_text(&mut args, "no".to_string());
        assert(args.deep_view() =~= fixed_args(self@));
        if self.restore_portal_session {
            push_text(&mut args, "-restore-portal-session".to_string());
            push_text(&mut args, "yes".to_string());
        }
        let ghost head = fixed_args(self@) + (if self.restore_portal_session {
            seq!["-restore-portal-session"@, "yes"@]
        } else {
            Seq::empty()
        });
        assert(args.deep_view() =~= head);
        let mut i: usize = 0;
        assert(self.audio_tracks.deep_view().take(0) =~= Seq::<Seq<char>>::empty());
        assert(args.deep_view() =~= head + track_args(self.audio_tracks.deep_view().take(0)));
        while i < self.audio_tracks.len()
            invariant
                i <= self.audio_tracks.len(),
                args.deep_view() == head + track_args(self.audio_tracks.deep_view().take(i as int)),
            decreases self.audio_tracks.len() - i,
        {
            let ghost prefix = self.audio_tracks.deep_view().take(i as int);
            let ghost next = self.audio_tracks.deep_view().take(i + 1);
            proof {
                assert(next.drop_last() =~= prefix);
                assert(next.last() == self.audio_tracks[i as int]@);
            }
            if !blank(self.audio_tracks[i].as_str()) {
                push_text(&mut args, "-a".to_string());
                push_text(&mut args, self.audio_tracks[i].clone());
                assert(args.deep_view() =~= head + track_args(next));
            }
            i = i + 1;
        }
        assert(self.audio_tracks.deep_view().take(i as int) =~= self.audio_tracks.deep_view());
        let mut inherit_env: Vec<String> = Vec::new();
        push_text(&mut inherit_env, "WAYLAND_DISPLAY".to_string());
        push_text(&mut inherit_env, "DISPLAY".to_string());
        push_text(&mut inherit_env, "XDG_RUNTIME_DIR".to_string());
        assert(inherit_env.deep_view() =~= inherited_env());
        RecorderCommand {
            program: self.binary.clone(),
            args,
            inherit_env,
            output_dir: self.output_dir.clone(),
        }
    }
}


/// What a non-blocking look at the recorder process showed.
#[derive(Debug, PartialEq, Eq)]
pub enum ChildPoll {
    /// The process has not exited.
    Alive,
    /// The process has exited; `status` describes how.
    Exited { status: String },
    /// The look itself failed.
    Failed { reason: String },
}

pub enum ChildPollView {
    Alive,
    Exited { status: Seq<char> },
    Failed { reason: Seq<char> },
}

impl View for ChildPoll {
    type V = ChildPollView;

    open spec fn view(&self) -> ChildPollView {
        match self {
            ChildPoll::Alive => ChildPollView::Alive,
            ChildPoll::Exited { status } => ChildPollView::Exited { status: status@ },
            ChildPoll::Failed { reason } => ChildPollView::Failed { reason: reason@ },
        }
    }
}

impl DeepView for ChildPoll {
    type V = ChildPollView;

    open spec fn deep_view(&self) -> ChildPollView {
        self@
    }
}

/// Why an operation on the recorder did not succeed.
#[derive(Debug, PartialEq, Eq)]
pub enum ReplayError {
    /// The look at the process failed.
    Poll { reason: String },
    /// The output directory was missing and could not be made.
    CreateOutputDir { dir: String, reason: String },
    /// The recorder could not be started.
    Spawn { reason: String },
    /// A save was asked for while no recorder runs.
    NotRunning,
    /// The save signal could not be delivered.
    Signal { reason: String },
    /// The output directory could not be searched.
    Scan { reason: String },
}

pub enum ReplayErrorView {
    Poll { reason: Seq<char> },
    CreateOutputDir { dir: Seq<char>, reason: Seq<char> },
    Spawn { reason: Seq<char> },
    NotRunning,
    Signal { reason: Seq<char> },
    Scan { reason: Seq<char> },
}

impl View for ReplayError {
    type V = ReplayErrorView;

    open spec fn view(&self) -> ReplayErrorView {
        match self {
            ReplayError::Poll { reason } => ReplayErrorView::Poll { reason: reason@ },
            ReplayError::CreateOutputDir { dir, reason } => ReplayErrorView::CreateOutputDir {
                dir: dir@,
                reason: reason@,
            },
            ReplayError::Spawn { reason } => ReplayErrorView::Spawn { reason: reason@ },
            ReplayError::NotRunning => ReplayErrorView::NotRunning,
            ReplayError::Signal { reason } => ReplayErrorView::Signal { reason: reason@ },
            ReplayError::Scan { reason } => ReplayErrorView::Scan { reason: reason@ },
        }
    }
}

impl DeepView for ReplayError {
    type V = ReplayErrorView;

    open spec fn deep_view(&self) -> ReplayErrorView {
        self@
    }
}

impl ReplayErrorView {
    /// The error as one line of text: what was attempted, then the cause.
    pub open spec fn message(self) -> Seq<char> {
        match self {
            ReplayErrorView::Poll { reason } => reason,
            ReplayErrorView::CreateOutputDir { dir, reason } =>
                "creating replay output directory \""@ + dir + "\": "@ + reason,
            ReplayErrorView::Spawn { reason } => "failed to spawn gpu-screen-recorder: "@ + reason,
            ReplayErrorView::NotRunning => "replay recorder is not running"@,
            ReplayErrorView::Signal { reason } => "failed to signal gpu-screen-recorder: "@ + reason,
            ReplayErrorView::Scan { reason } => reason,
        }
    }
}

impl ReplayError {
    pub fn message(&self) -> (text: String)
        ensures
            text@ == self@.message(),
    {
        match self {
            ReplayError::Poll { reason } => reason.clone(),
            ReplayError::CreateOutputDir { dir, reason } => {
                let mut text = join3("creating replay output directory \"", dir.as_str(), "\": ");
                text.append(reason.as_str());
                text
            },
            ReplayError::Spawn { reason } => join2(
                "failed to spawn gpu-screen-recorder: ",
                reason.as_str(),
            ),
            ReplayError::NotRunning => "replay recorder is not running".to_string(),
            ReplayError::Signal { reason } => join2(
                "failed to signal gpu-screen-recorder: ",
                reason.as_str(),
            ),
            ReplayError::Scan { reason } => reason.clone(),
        }
    }
}

/// What `ensure_running` asks of its caller.
#[derive(Debug, PartialEq, Eq)]
pub enum StartPlan {
    /// A recorder runs already: nothing is to be done.
    AlreadyRunning,
    /// Make the output directory if it is missing, then start this command.
    Launch(RecorderCommand),
}

pub enum StartPlanView {
    AlreadyRunning,
    Launch(RecorderCommandView),
}

impl View for StartPlan {
    type V = StartPlanView;

    open spec fn view(&self) -> StartPlanView {
        match self {
            StartPlan::AlreadyRunning => StartPlanView::AlreadyRunning,
            StartPlan::Launch(command) => StartPlanView::Launch(command@),
        }
    }
}

impl DeepView for StartPlan {
    type V = StartPlanView;

    open spec fn deep_view(&self) -> StartPlanView {
        self@
    }
}

/// How a launch asked for by a plan went.
#[derive(Debug, PartialEq, Eq)]
pub enum LaunchOutcome {
    /// The recorder runs as process `pid`, its output being drained.
    Started { pid: u32 },
    /// The output directory was missing and making it failed.
    DirectoryFailed { reason: String },
    /// Starting the program failed.
    SpawnFailed { reason: String },
}

pub enum LaunchOutcomeView {
    Started { pid: u32 },
    DirectoryFailed { reason: Seq<char> },
    SpawnFailed { reason: Seq<char> },
}

impl View for LaunchOutcome {
    type V = LaunchOutcomeView;

    open spec fn view(&self) -> LaunchOutcomeView {
        match self {
            LaunchOutcome::Started { pid } => LaunchOutcomeView::Started { pid: *pid },
            LaunchOutcome::DirectoryFailed { reason } => LaunchOutcomeView::DirectoryFailed {
                reason: reason@,
            },
            LaunchOutcome::SpawnFailed { reason } => LaunchOutcomeView::SpawnFailed {
                reason: reason@,
            },
        }
    }
}

impl DeepView for LaunchOutcome {
    type V = LaunchOutcomeView;

    open spec fn deep_view(&self) -> LaunchOutcomeView {
        self@
    }
}

/// What `apply_settings` asks of its caller.
#[derive(Debug, PartialEq, Eq)]
pub enum ApplyPlan {
    /// No recorder runs: the settings are stored and that is all.
    Stored,
    /// Interrupt process `pid`, wait for it, then launch `command`.
    Restart { pid: u32, command: RecorderCommand },
}

pub enum ApplyPlanView {
    Stored,
    Restart { pid: u32, command: RecorderCommandView },
}

impl View for ApplyPlan {
    type V = ApplyPlanView;

    open spec fn view(&self) -> ApplyPlanView {
        match self {
            ApplyPlan::Stored => ApplyPlanView::Stored,
            ApplyPlan::Restart { pid, command } => ApplyPlanView::Restart {
                pid: *pid,
                command: command@,
            },
        }
    }
}

impl DeepView for ApplyPlan {
    type V = ApplyPlanView;

    open spec fn deep_view(&self) -> ApplyPlanView {
        self@
    }
}

/// The signal to deliver for a save, the process to deliver it to, and how
/// long the recorder is then given to write the file before the output
/// directory is searched.
#[derive(Debug, Clone, Copy, PartialEq, Eq, Structural)]
pub struct SavePlan {
    pub pid: u32,
    pub signal: i32,
    pub grace_seconds: u64,
    /// Whether a duration was asked for that the recorder does not know, so that
    /// the whole buffer is written instead; the caller is to warn of it.
    pub fell_back: bool,
}

impl View for SavePlan {
    type V = SavePlan;

    open spec fn view(&self) -> SavePlan {
        *self
    }
}

impl DeepView for SavePlan {
    type V = SavePlan;

    open spec fn deep_view(&self) -> SavePlan {
        *self
    }
}

/// How long the recorder is given to write the file before the output directory
/// is searched, in seconds.
pub const SAVE_GRACE_SECONDS: u64 = 2;

/// One entry of the output directory.
#[derive(Debug, PartialEq, Eq)]
pub struct OutputEntry {
    pub path: String,
    /// Whether the entry is a regular file.
    pub is_file: bool,
    /// When it was last modified, in nanoseconds since the Unix epoch, where known.
    pub modified: Option<i128>,
}

pub struct OutputEntryView {
    pub path: Seq<char>,
    pub is_file: bool,
    pub modified: Option<i128>,
}

impl View for OutputEntry {
    type V = OutputEntryView;

    open spec fn view(&self) -> OutputEntryView {
        OutputEntryView { path: self.path@, is_file: self.is_file, modified: self.modified }
    }
}

impl DeepView for OutputEntry {
    type V = OutputEntryView;

    open spec fn deep_view(&self) -> OutputEntryView {
        self@
    }
}

impl OutputEntryView {
    /// Only regular files with a known modification time can be the saved clip.
    pub open spec fn qualifies(self) -> bool {
        self.is_file && self.modified is Some
    }
}

/// Entry `i` is the newest qualifying entry, and the first of those equally new.
pub open spec fn is_latest(entries: Seq<OutputEntryView>, i: int) -> bool {
    &&& 0 <= i < entries.len()
    &&& entries[i].qualifies()
    &&& forall|j: int|
        0 <= j < entries.len() && (#[trigger] entries[j]).qualifies() ==> entries[j].modified->0
            <= entries[i].modified->0
    &&& forall|j: int|
        0 <= j < i && (#[trigger] entries[j]).qualifies() ==> entries[j].modified->0
            < entries[i].modified->0
}

/// The index of the most recently modified regular file, if there is any.
pub open spec fn latest_index(entries: Seq<OutputEntryView>) -> Option<int> {
    if exists|i: int| is_latest(entries, i) {
        Some(choose|i: int| is_latest(entries, i))
    } else {
        None
    }
}

/// The path of the most recently modified regular file, if there is any.
pub open spec fn latest_path(entries: Seq<OutputEntryView>) -> Option<Seq<char>> {
    match latest_index(entries) {
        Some(i) => Some(entries[i].path),
        None => None,
    }
}

/// At most one entry is the latest.
pub proof fn lemma_latest_unique(entries: Seq<OutputEntryView>, i: int, j: int)
    requires
        is_latest(entries, i),
        is_latest(entries, j),
    ensures
        i == j,
{
    if i < j {
        assert(entries[i].qualifies());
    } else if j < i {
        assert(entries[j].qualifies());
    }
}

/// Finds the most recently modified regular file among `entries`; of several
/// equally new ones the first.
pub fn latest_file_index(entries: &Vec<OutputEntry>) -> (found: Option<usize>)
    ensures
        match found {
            Some(i) => latest_index(entries.deep_view()) == Some(i as int),
            None => latest_index(entries.deep_view()) is None,
        },
        found is None <==> forall|j: int|
            0 <= j < entries.len() ==> !(#[trigger] entries.deep_view()[j]).qualifies(),
{
    let ghost all = entries.deep_view();
    let mut best: Option<usize> = None;
    let mut best_time: i128 = 0;
    let mut k: usize = 0;
    while k < entries.len()
        invariant
            k <= entries.len(),
            all == entries.deep_view(),
            all.len() == entries.len(),
            match best {
                Some(b) => b < k && is_latest(all.take(k as int), b as int) && all[b as int].modified
                    == Some(best_time),
                None => forall|j: int| 0 <= j < k ==> !(#[trigger] all[j]).qualifies(),
            },
        decreases entries.len() - k,
    {
        let ghost seen = all.take(k as int);
        let ghost next = all.take(k + 1);
        assert(all[k as int] == entries[k as int]@);
        assert(forall|j: int| 0 <= j < k ==> next[j] == seen[j]);
        let entry = &entries[k];
        if entry.is_file {
            if let Some(modified) = entry.modified {
                match best {
                    Some(b) => {
                        if best_time < modified {
                            best = Some(k);
                            best_time = modified;
                            assert(is_latest(next, k as int)) by {
                                assert forall|j: int|
                                    0 <= j < next.len() && (#[trigger] next[j]).qualifies()
                                    implies next[j].modified->0
                                    <= next[k as int].modified->0 by {
                                    if j < k {
                                        assert(seen[j].qualifies());
                                    }
                                }
                                assert forall|j: int|
                                    0 <= j < k && (#[trigger] next[j]).qualifies()
                                    implies next[j].modified->0
                                    < next[k as int].modified->0 by {
                                    assert(seen[j].qualifies());
                                }
                            }
                        } else {
                            assert(is_latest(next, b as int)) by {
                                assert forall|j: int|
                                    0 <= j < next.len() && (#[trigger] next[j]).qualifies()
                                    implies next[j].modified->0
                                    <= next[b as int].modified->0 by {
                                    if j < k {
                                        assert(seen[j].qualifies());
                                    }
                                }
                                assert forall|j: int|
                                    0 <= j < b && (#[trigger] next[j]).qualifies()
                                    implies next[j].modified->0
                                    < next[b as int].modified->0 by {
                                    assert(seen[j].qualifies());
                                }
                            }
                        }
                    },
                    None => {
                        best = Some(k);
                        best_time = modified;
                        assert(is_latest(next, k as int));
                    },
                }
            } else {
                proof {
                    lemma_latest_extends(all, k as int, best);
                }
            }
        } else {
            proof {
                lemma_latest_extends(all, k as int, best);
            }
        }
        k = k + 1;
    }
    assert(all.take(k as int) =~= all);
    proof {
        match best {
            Some(b) => {
                let chosen = choose|i: int| is_latest(all, i);
                lemma_latest_unique(all, b as int, chosen);
            },
            None => {
                assert forall|i: int| !is_latest(all, i) by {
                    if 0 <= i < all.len() {
                        assert(!all[i].qualifies());
                    }
                }
            },
        }
    }
    best
}

/// An entry that does not qualify leaves the latest of the entries before it in place.
proof fn lemma_latest_extends(all: Seq<OutputEntryView>, k: int, best: Option<usize>)
    requires
        0 <= k < all.len(),
        !all[k].qualifies(),
        match best {
            Some(b) => b < k && is_latest(all.take(k), b as int),
            None => forall|j: int| 0 <= j < k ==> !(#[trigger] all[j]).qualifies(),
        },
    ensures
        match best {
            Some(b) => is_latest(all.take(k + 1), b as int),
            None => forall|j: int| 0 <= j < k + 1 ==> !(#[trigger] all[j]).qualifies(),
        },
{
    let seen = all.take(k);
    let next = all.take(k + 1);
    assert(forall|j: int| 0 <= j < k ==> next[j] == seen[j]);
    match best {
        Some(b) => {
            assert forall|j: int|
                0 <= j < next.len() && (#[trigger] next[j]).qualifies()
                                    implies next[j].modified->0
                <= next[b as int].modified->0 by {
                if j < k {
                    assert(seen[j].qualifies());
                }
            }
            assert forall|j: int|
                0 <= j < b && (#[trigger] next[j]).qualifies()
                                    implies next[j].modified->0
                < next[b as int].modified->0 by {
                assert(seen[j].qualifies());
            }
        },
        None => {},
    }
}

/// The path of the most recently modified regular file among `entries`.
pub fn latest_file(entries: &Vec<OutputEntry>) -> (found: Option<String>)
    ensures
        found.deep_view() == latest_path(entries.deep_view()),
{
    match latest_file_index(entries) {
        Some(i) => {
            assert(entries.deep_view()[i as int] == entries[i as int]@);
            Some(entries[i].path.clone())
        },
        None => None,
    }
}


/// How the search for a saved clip went.
#[derive(Debug, PartialEq, Eq)]
pub enum SaveOutcome {
    /// The signal could not be delivered.
    SignalFailed { reason: String },
    /// The signal went out, but the output directory could not be searched.
    ScanFailed { reason: String },
    /// The signal went out and, the grace interval over, the output directory held these entries.
    Scanned { entries: Vec<OutputEntry> },
}

pub enum SaveOutcomeView {
    SignalFailed { reason: Seq<char> },
    ScanFailed { reason: Seq<char> },
    Scanned { entries: Seq<OutputEntryView> },
}

impl View for SaveOutcome {
    type V = SaveOutcomeView;

    open spec fn view(&self) -> SaveOutcomeView {
        match self {
            SaveOutcome::SignalFailed { reason } => SaveOutcomeView::SignalFailed {
                reason: reason@,
            },
            SaveOutcome::ScanFailed { reason } => SaveOutcomeView::ScanFailed { reason: reason@ },
            SaveOutcome::Scanned { entries } => SaveOutcomeView::Scanned {
                entries: entries.deep_view(),
            },
        }
    }
}

impl DeepView for SaveOutcome {
    type V = SaveOutcomeView;

    open spec fn deep_view(&self) -> SaveOutcomeView {
        self@
    }
}

/// A snapshot of the recorder's state for display.
#[derive(Debug, PartialEq, Eq)]
pub struct ReplayStatus {
    pub running: bool,
    pub buffer_seconds: u32,
    pub bitrate: u32,
    pub fps: u32,
    pub target: String,
    pub audio_tracks: Vec<String>,
    pub last_saved: Option<String>,
    pub message: Option<String>,
}

pub struct ReplayStatusView {
    pub running: bool,
    pub buffer_seconds: u32,
    pub bitrate: u32,
    pub fps: u32,
    pub target: Seq<char>,
    pub audio_tracks: Seq<Seq<char>>,
    pub last_saved: Option<Seq<char>>,
    pub message: Option<Seq<char>>,
}

impl View for ReplayStatus {
    type V = ReplayStatusView;

    open spec fn view(&self) -> ReplayStatusView {
        ReplayStatusView {
            running: self.running,
            buffer_seconds: self.buffer_seconds,
            bitrate: self.bitrate,
            fps: self.fps,
            target: self.target@,
            audio_tracks: self.audio_tracks.deep_view(),
            last_saved: self.last_saved.deep_view(),
            message: self.message.deep_view(),
        }
    }
}

impl DeepView for ReplayStatus {
    type V = ReplayStatusView;

    open spec fn deep_view(&self) -> ReplayStatusView {
        self@
    }
}

impl Clone for ReplayStatus {
    fn clone(&self) -> (copy: Self)
        ensures
            copy@ == self@,
    {
        ReplayStatus {
            running: self.running,
            buffer_seconds: self.buffer_seconds,
            bitrate: self.bitrate,
            fps: self.fps,
            target: self.target.clone(),
            audio_tracks: self.audio_tracks.clone(),
            last_saved: clone_text(&self.last_saved),
            message: clone_text(&self.message),
        }
    }
}

/// A copy of an optional text.
pub(crate) fn clone_text(text: &Option<String>) -> (copy: Option<String>)
    ensures
        copy.deep_view() == text.deep_view(),
{
    match text {
        Some(t) => Some(t.clone()),
        None => None,
    }
}

/// Supervises the one recorder process: it holds the settings, knows whether a
/// process is live and under which id, and says what is to be done to it. The
/// process handle itself stays with the caller, who carries out each plan and
/// reports back.
#[derive(Debug, PartialEq, Eq)]
pub struct ReplayController {
    settings: ReplaySettings,
    child: Option<u32>,
    last_saved: Option<String>,
    last_message: Option<String>,
}

pub struct ReplayControllerView {
    pub settings: ReplaySettingsView,
    /// The id of the live recorder process, if one is live.
    pub child: Option<u32>,
    pub last_saved: Option<Seq<char>>,
    pub last_message: Option<Seq<char>>,
}

impl View for ReplayController {
    type V = ReplayControllerView;

    closed spec fn view(&self) -> ReplayControllerView {
        ReplayControllerView {
            settings: self.settings@,
            child: self.child,
            last_saved: self.last_saved.deep_view(),
            last_message: self.last_message.deep_view(),
        }
    }
}

impl DeepView for ReplayController {
    type V = ReplayControllerView;

    open spec fn deep_view(&self) -> ReplayControllerView {
        self@
    }
}

impl ReplayControllerView {
    pub open spec fn is_running(self) -> bool {
        self.child is Some
    }

    /// The state after a look at the process: an exit is taken note of.
    pub open spec fn refreshed(self, poll: ChildPollView) -> ReplayControllerView {
        match poll {
            ChildPollView::Exited { status } if self.child is Some => ReplayControllerView {
                child: None,
                last_message: Some("Replay recorder exited: "@ + status),
                ..self
            },
            _ => self,
        }
    }

    /// The error that a look at the process gives rise to, if any.
    pub open spec fn refresh_error(self, poll: ChildPollView) -> Option<ReplayErrorView> {
        match poll {
            ChildPollView::Failed { reason } if self.child is Some => Some(
                ReplayErrorView::Poll { reason },
            ),
            _ => None,
        }
    }

    /// What is shown of this state.
    pub open spec fn snapshot(self) -> ReplayStatusView {
        ReplayStatusView {
            running: self.child is Some,
            buffer_seconds: self.settings.buffer_seconds,
            bitrate: self.settings.bitrate,
            fps: self.settings.fps,
            target: self.settings.target,
            audio_tracks: self.settings.audio_tracks,
            last_saved: self.last_saved,
            message: self.last_message,
        }
    }

    pub open spec fn status(self, poll: ChildPollView) -> Result<ReplayStatusView, ReplayErrorView> {
        match self.refresh_error(poll) {
            Some(error) => Err(error),
            None => Ok(self.refreshed(poll).snapshot()),
        }
    }

    /// What `ensure_running` answers after the look `poll`.
    pub open spec fn start_plan(self, poll: ChildPollView) -> Result<StartPlanView, ReplayErrorView> {
        match self.refresh_error(poll) {
            Some(error) => Err(error),
            None => if self.refreshed(poll).child is Some {
                Ok(StartPlanView::AlreadyRunning)
            } else {
                Ok(StartPlanView::Launch(recorder_command(self.settings.normalized())))
            },
        }
    }

    /// The error that a launch outcome stands for, if any.
    pub open spec fn launch_error(self, outcome: LaunchOutcomeView) -> Option<ReplayErrorView> {
        match outcome {
            LaunchOutcomeView::Started { .. } => None,
            LaunchOutcomeView::DirectoryFailed { reason } => Some(
                ReplayErrorView::CreateOutputDir { dir: self.settings.output_dir, reason },
            ),
            LaunchOutcomeView::SpawnFailed { reason } => Some(ReplayErrorView::Spawn { reason }),
        }
    }

    /// The state after a launch: a started process is held and announced, a failure
    /// is put into the message; the settings are normalized once the directory stood.
    pub open spec fn launched(self, outcome: LaunchOutcomeView) -> ReplayControllerView {
        match outcome {
            LaunchOutcomeView::Started { pid } => ReplayControllerView {
                settings: self.settings.normalized(),
                child: Some(pid),
                last_message: Some("Replay recorder started"@),
                ..self
            },
            LaunchOutcomeView::DirectoryFailed { .. } => ReplayControllerView {
                last_message: Some(self.launch_error(outcome)->0.message()),
                ..self
            },
            LaunchOutcomeView::SpawnFailed { .. } => ReplayControllerView {
                settings: self.settings.normalized(),
                last_message: Some(self.launch_error(outcome)->0.message()),
                ..self
            },
        }
    }

    /// The state after `stop`.
    pub open spec fn stopped(self) -> ReplayControllerView {
        if self.child is Some {
            ReplayControllerView {
                child: None,
                last_message: Some("Replay recorder stopped"@),
                ..self
            }
        } else {
            self
        }
    }

    /// The state after `apply_settings`.
    pub open spec fn applied(self, settings: ReplaySettingsView) -> ReplayControllerView {
        (ReplayControllerView { settings: settings.normalized(), ..self }).stopped()
    }

    /// What `apply_settings` answers.
    pub open spec fn apply_plan(self, settings: ReplaySettingsView) -> ApplyPlanView {
        match self.child {
            Some(pid) => ApplyPlanView::Restart {
                pid,
                command: recorder_command(settings.normalized()),
            },
            None => ApplyPlanView::Stored,
        }
    }

    /// What a save request answers after the look `poll`, with the platform's
    /// signal numbers given.
    pub open spec fn save_plan(
        self,
        poll: ChildPollView,
        duration: Option<u32>,
        rt_base: int,
        full_buffer: int,
    ) -> Result<SavePlan, ReplayErrorView> {
        match self.refresh_error(poll) {
            Some(error) => Err(error),
            None => match self.refreshed(poll).child {
                Some(pid) => Ok(
                    SavePlan {
                        pid,
                        signal: save_signal_number(duration, rt_base, full_buffer) as i32,
                        grace_seconds: SAVE_GRACE_SECONDS,
                        fell_back: falls_back(duration),
                    },
                ),
                None => Err(ReplayErrorView::NotRunning),
            },
        }
    }

    /// What a finished save gives: the path of the newest file, or none.
    pub open spec fn save_result(self, outcome: SaveOutcomeView) -> Result<
        Option<Seq<char>>,
        ReplayErrorView,
    > {
        match outcome {
            SaveOutcomeView::SignalFailed { reason } => Err(ReplayErrorView::Signal { reason }),
            SaveOutcomeView::ScanFailed { reason } => Err(ReplayErrorView::Scan { reason }),
            SaveOutcomeView::Scanned { entries } => Ok(latest_path(entries)),
        }
    }

    /// The state after a finished save.
    pub open spec fn saved(self, outcome: SaveOutcomeView) -> ReplayControllerView {
        match outcome {
            SaveOutcomeView::Scanned { entries } => {
                let found = latest_path(entries);
                ReplayControllerView {
                    last_saved: found,
                    last_message: if found is Some {
                        Some("Replay saved"@)
                    } else {
                        self.last_message
                    },
                    ..self
                }
            },
            _ => self,
        }
    }
}

impl ReplayController {
    /// A supervisor with these settings and no process.
    pub fn new(settings: ReplaySettings) -> (controller: Self)
        ensures
            controller@ == (ReplayControllerView {
                settings: settings@,
                child: None,
                last_saved: None,
                last_message: None,
            }),
    {
        ReplayController { settings, child: None, last_saved: None, last_message: None }
    }

    /// The id of the live recorder process, if one is live.
    pub fn current_pid(&self) -> (pid: Option<u32>)
        ensures
            pid == self@.child,
    {
        self.child
    }

    /// Whether a recorder process is held.
    pub fn is_running(&self) -> (running: bool)
        ensures
            running == self@.is_running(),
    {
        self.child.is_some()
    }

    pub fn settings(&self) -> (settings: &ReplaySettings)
        ensures
            settings@ == self@.settings,
    {
        &self.settings
    }

    /// The recorder's invocation for the stored settings as they stand.
    pub fn build_command(&self) -> (command: RecorderCommand)
        ensures
            command@ == recorder_command(self@.settings),
    {
        self.settings.build_command()
    }

    pub fn set_message(&mut self, message: String)
        ensures
            final(self)@ == (ReplayControllerView { last_message: Some(message@), ..old(self)@ }),
    {
        self.last_message = Some(message);
    }

    pub fn clear_message(&mut self)
        ensures
            final(self)@ == (ReplayControllerView { last_message: None, ..old(self)@ }),
    {
        self.last_message = None;
    }

    pub fn clear_last_saved(&mut self)
        ensures
            final(self)@ == (ReplayControllerView { last_saved: None, ..old(self)@ }),
    {
        self.last_saved = None;
    }

    /// Takes note of what a look at the process showed. Without a process the look
    /// is not read.
    pub fn refresh(&mut self, poll: &ChildPoll) -> (result: Result<(), ReplayError>)
        ensures
            final(self)@ == old(self)@.refreshed(poll@),
            match old(self)@.refresh_error(poll@) {
                Some(error) => result matches Err(e) && e@ == error,
                None => result is Ok,
            },
    {
        if self.child.is_none() {
            return Ok(());
        }
        match poll {
            ChildPoll::Alive => Ok(()),
            ChildPoll::Exited { status } => {
                self.child = None;
                self.last_message = Some(join2("Replay recorder exited: ", status.as_str()));
                Ok(())
            },
            ChildPoll::Failed { reason } => Err(ReplayError::Poll { reason: reason.clone() }),
        }
    }

    /// The snapshot to display, after the look `poll`.
    pub fn status(&mut self, poll: &ChildPoll) -> (result: Result<ReplayStatus, ReplayError>)
        ensures
            final(self)@ == old(self)@.refreshed(poll@),
            result_view(result) == old(self)@.status(poll@),
    {
        match self.refresh(poll) {
            Ok(()) => Ok(self.snapshot()),
            Err(error) => Err(error),
        }
    }

    /// The snapshot of the state as it stands, without a look at the process.
    pub fn snapshot(&self) -> (status: ReplayStatus)
        ensures
            status@ == self@.snapshot(),
    {
        ReplayStatus {
            running: self.child.is_some(),
            buffer_seconds: self.settings.buffer_seconds,
            bitrate: self.settings.bitrate,
            fps: self.settings.fps,
            target: self.settings.target.clone(),
            audio_tracks: self.settings.audio_tracks.clone(),
            last_saved: clone_text(&self.last_saved),
            message: clone_text(&self.last_message),
        }
    }

    /// Says what is needed for a recorder to run: nothing where one runs already,
    /// else the launch of the command for the normalized settings. The caller
    /// carries the launch out and reports with `finish_start`.
    pub fn ensure_running(&mut self, poll: &ChildPoll) -> (result: Result<StartPlan, ReplayError>)
        ensures
            final(self)@ == old(self)@.refreshed(poll@),
            result_view(result) == old(self)@.start_plan(poll@),
    {
        match self.refresh(poll) {
            Ok(()) => {},
            Err(error) => {
                return Err(error);
            },
        }
        if self.child.is_some() {
            return Ok(StartPlan::AlreadyRunning);
        }
        let mut settings = self.settings.clone();
        settings.sanitize();
        Ok(StartPlan::Launch(settings.build_command()))
    }

    /// Takes in how the launch went.
    pub fn finish_start(&mut self, outcome: LaunchOutcome) -> (result: Result<(), ReplayError>)
        ensures
            final(self)@ == old(self)@.launched(outcome@),
            match old(self)@.launch_error(outcome@) {
                Some(error) => result matches Err(e) && e@ == error,
                None => result is Ok,
            },
    {
        match outcome {
            LaunchOutcome::Started { pid } => {
                self.settings.sanitize();
                self.child = Some(pid);
                self.last_message = Some("Replay recorder started".to_string());
                Ok(())
            },
            LaunchOutcome::DirectoryFailed { reason } => {
                let error = ReplayError::CreateOutputDir {
                    dir: self.settings.output_dir.clone(),
                    reason,
                };
                self.last_message = Some(error.message());
                Err(error)
            },
            LaunchOutcome::SpawnFailed { reason } => {
                self.settings.sanitize();
                let error = ReplayError::Spawn { reason };
                self.last_message = Some(error.message());
                Err(error)
            },
        }
    }

    /// Lets go of the process, if there is one, and returns its id: the caller
    /// interrupts that process and waits for it. Without a process nothing changes.
    pub fn stop(&mut self) -> (interrupt: Option<u32>)
        ensures
            final(self)@ == old(self)@.stopped(),
            interrupt == old(self)@.child,
    {
        match self.child {
            Some(pid) => {
                self.child = None;
                self.last_message = Some("Replay recorder stopped".to_string());
                Some(pid)
            },
            None => None,
        }
    }

    /// Stores `settings`, normalized. Where a recorder runs it is let go of and has
    /// to be started again with the new command, which the plan says; the caller
    /// reports that launch with `finish_start`.
    pub fn apply_settings(&mut self, settings: ReplaySettings) -> (plan: ApplyPlan)
        ensures
            final(self)@ == old(self)@.applied(settings@),
            plan@ == old(self)@.apply_plan(settings@),
    {
        let mut new_settings = settings;
        new_settings.sanitize();
        self.settings = new_settings;
        match self.stop() {
            Some(pid) => ApplyPlan::Restart { pid, command: self.settings.build_command() },
            None => ApplyPlan::Stored,
        }
    }

    /// Says which signal to deliver to which process for a save of the last
    /// `duration` seconds, or of the whole buffer where none is given. The caller
    /// delivers it, waits out the grace interval of the plan, lists the output
    /// directory and reports with `finish_save`.
    pub fn save_recent(
        &mut self,
        poll: &ChildPoll,
        duration: Option<u32>,
        signals: &SignalNumbers,
    ) -> (result: Result<SavePlan, ReplayError>)
        ensures
            final(self)@ == old(self)@.refreshed(poll@),
            result_view(result) == old(self)@.save_plan(
                poll@,
                duration,
                signals.base(),
                signals.full(),
            ),
    {
        match self.refresh(poll) {
            Ok(()) => {},
            Err(error) => {
                return Err(error);
            },
        }
        match self.child {
            Some(pid) => Ok(
                SavePlan {
                    pid,
                    signal: signals.signal_for(duration),
                    grace_seconds: SAVE_GRACE_SECONDS,
                    fell_back: is_unknown_duration(duration),
                },
            ),
            None => Err(ReplayError::NotRunning),
        }
    }

    /// Takes in how the save went: the newest regular file of the output directory
    /// becomes the last saved clip.
    pub fn finish_save(&mut self, outcome: SaveOutcome) -> (result: Result<
        Option<String>,
        ReplayError,
    >)
        ensures
            final(self)@ == old(self)@.saved(outcome@),
            result_view(result) == old(self)@.save_result(outcome@),
    {
        match outcome {
            SaveOutcome::SignalFailed { reason } => Err(ReplayError::Signal { reason }),
            SaveOutcome::ScanFailed { reason } => Err(ReplayError::Scan { reason }),
            SaveOutcome::Scanned { entries } => {
                let found = latest_file(&entries);
                self.last_saved = clone_text(&found);
                if found.is_some() {
                    self.last_message = Some("Replay saved".to_string());
                }
                Ok(found)
            },
        }
    }
}


/// While a recorder is held and alive, asking for one to run asks for no launch
/// and changes nothing: there is never a second process.
pub proof fn lemma_start_twice(controller: ReplayControllerView)
    requires
        controller.is_running(),
    ensures
        controller.start_plan(ChildPollView::Alive) == Ok::<StartPlanView, ReplayErrorView>(
            StartPlanView::AlreadyRunning,
        ),
        controller.refreshed(ChildPollView::Alive) == controller,
{
}

/// A launch is asked for only where no process is held, and one that started is
/// the process held from then on.
pub proof fn lemma_launch_only_when_idle(
    controller: ReplayControllerView,
    poll: ChildPollView,
    pid: u32,
)
    ensures
        controller.start_plan(poll) matches Ok(StartPlanView::Launch(_))
            ==> !controller.refreshed(poll).is_running(),
        controller.launched(LaunchOutcomeView::Started { pid }).child == Some(pid),
        controller.launched(LaunchOutcomeView::Started { pid }).start_plan(ChildPollView::Alive)
            == Ok::<StartPlanView, ReplayErrorView>(StartPlanView::AlreadyRunning),
{
}

/// Stopping while nothing runs changes nothing and lets no process go.
pub proof fn lemma_stop_when_idle(controller: ReplayControllerView)
    requires
        !controller.is_running(),
    ensures
        controller.stopped() == controller,
        controller.stopped().snapshot() == controller.snapshot(),
{
}

/// After a stop nothing is held, whatever was held before, and a second stop
/// changes nothing more.
pub proof fn lemma_stop_lets_go(controller: ReplayControllerView)
    ensures
        !controller.stopped().is_running(),
        controller.stopped().stopped() == controller.stopped(),
{
}

/// Without a process a save is refused for want of one, whatever the look at the
/// process says and whatever duration is asked for.
pub proof fn lemma_save_needs_recorder(
    controller: ReplayControllerView,
    poll: ChildPollView,
    duration: Option<u32>,
    rt_base: int,
    full_buffer: int,
)
    requires
        !controller.is_running(),
    ensures
        controller.save_plan(poll, duration, rt_base, full_buffer) == Err::<
            SavePlan,
            ReplayErrorView,
        >(ReplayErrorView::NotRunning),
        controller.refreshed(poll) == controller,
{
}

/// A look at the process taken twice says no more than taken once.
pub proof fn lemma_refresh_twice(controller: ReplayControllerView, poll: ChildPollView)
    ensures
        controller.refreshed(poll).refreshed(poll) == controller.refreshed(poll),
        controller.refresh_error(poll) is None ==> controller.refreshed(poll).refresh_error(poll)
            is None,
{
}

/// Settings that were applied are stored normalized, and the command of a
/// restart is the one that the stored settings give.
pub proof fn lemma_applied_settings_are_normal(
    controller: ReplayControllerView,
    settings: ReplaySettingsView,
)
    ensures
        controller.applied(settings).settings.is_normal(),
        controller.applied(settings).settings == settings.normalized(),
        !controller.applied(settings).is_running(),
        controller.apply_plan(settings) matches ApplyPlanView::Restart { pid, command } ==> {
            &&& controller.child == Some(pid)
            &&& command == recorder_command(controller.applied(settings).settings)
            &&& controller.applied(settings).start_plan(ChildPollView::Alive) == Ok::<
                StartPlanView,
                ReplayErrorView,
            >(StartPlanView::Launch(command))
        },
{
    lemma_normalized_idempotent(settings);
}


} // verus!
