use vstd::prelude::*;
use crate::capture::ReplayStorage;
use crate::capture::push_text;
use crate::paths::{file_name, file_name_of, parent, parent_of, paths_equal, same_path};
use crate::text::{ascii_lowercase, join2, join3, lowercase_text, same_text};

verus! {

/// What the file system says of a path that was given on the command line.
#[derive(Debug, PartialEq, Eq)]
pub struct PathProbe {
    /// The path as it was given.
    pub given: String,
    /// Its canonical form, where it could be resolved.
    pub canonical: Option<String>,
    /// Why it could not be resolved, where it could not.
    pub error: String,
    /// Whether it leads to a regular file.
    pub is_file: bool,
}

pub struct PathProbeView {
    pub given: Seq<char>,
    pub canonical: Option<Seq<char>>,
    pub error: Seq<char>,
    pub is_file: bool,
}

impl View for PathProbe {
    type V = PathProbeView;

    open spec fn view(&self) -> PathProbeView {
        PathProbeView {
            given: self.given@,
            canonical: self.canonical.deep_view(),
            error: self.error@,
            is_file: self.is_file,
        }
    }
}

impl DeepView for PathProbe {
    type V = PathProbeView;

    open spec fn deep_view(&self) -> PathProbeView {
        self@
    }
}

/// The command line, with each path looked up.
#[derive(Debug, PartialEq, Eq)]
pub struct Cli {
    pub source: Option<PathProbe>,
    pub unprocessed_dir: Option<PathProbe>,
    pub processed_dir: Option<PathProbe>,
    pub youtube_uploader: Option<PathProbe>,
    pub secrets_path: Option<PathProbe>,
    pub overlay_bin: PathProbe,
    pub capture_mode: bool,
    pub gpu_screen_recorder: Option<PathProbe>,
    pub capture_target: String,
    pub capture_buffer_seconds: u32,
    pub capture_bitrate: u32,
    pub capture_fps: u32,
    pub capture_audio_tracks: Vec<String>,
    pub capture_restore_portal: bool,
    pub capture_storage: String,
    pub capture_hotkey: String,
    pub capture_auto_start: bool,
}

pub struct CliView {
    pub source: Option<PathProbeView>,
    pub unprocessed_dir: Option<PathProbeView>,
    pub processed_dir: Option<PathProbeView>,
    pub youtube_uploader: Option<PathProbeView>,
    pub secrets_path: Option<PathProbeView>,
    pub overlay_bin: PathProbeView,
    pub capture_mode: bool,
    pub gpu_screen_recorder: Option<PathProbeView>,
    pub capture_target: Seq<char>,
    pub capture_buffer_seconds: u32,
    pub capture_bitrate: u32,
    pub capture_fps: u32,
    pub capture_audio_tracks: Seq<Seq<char>>,
    pub capture_restore_portal: bool,
    pub capture_storage: Seq<char>,
    pub capture_hotkey: Seq<char>,
    pub capture_auto_start: bool,
}

impl View for Cli {
    type V = CliView;

    open spec fn view(&self) -> CliView {
        CliView {
            source: self.source.deep_view(),
            unprocessed_dir: self.unprocessed_dir.deep_view(),
            processed_dir: self.processed_dir.deep_view(),
            youtube_uploader: self.youtube_uploader.deep_view(),
            secrets_path: self.secrets_path.deep_view(),
            overlay_bin: self.overlay_bin@,
            capture_mode: self.capture_mode,
            gpu_screen_recorder: self.gpu_screen_recorder.deep_view(),
            capture_target: self.capture_target@,
            capture_buffer_seconds: self.capture_buffer_seconds,
            capture_bitrate: self.capture_bitrate,
            capture_fps: self.capture_fps,
            capture_audio_tracks: self.capture_audio_tracks.deep_view(),
            capture_restore_portal: self.capture_restore_portal,
            capture_storage: self.capture_storage@,
            capture_hotkey: self.capture_hotkey@,
            capture_auto_start: self.capture_auto_start,
        }
    }
}

/// What is needed to finish one clip.
#[derive(Debug, PartialEq, Eq)]
pub struct AppConfig {
    pub source: String,
    pub unprocessed_dir: String,
    pub processed_dir: String,
    pub youtube_uploader: String,
    pub secrets_path: String,
    pub overlay_bin: String,
}

pub struct AppConfigView {
    pub source: Seq<char>,
    pub unprocessed_dir: Seq<char>,
    pub processed_dir: Seq<char>,
    pub youtube_uploader: Seq<char>,
    pub secrets_path: Seq<char>,
    pub overlay_bin: Seq<char>,
}

impl View for AppConfig {
    type V = AppConfigView;

    open spec fn view(&self) -> AppConfigView {
        AppConfigView {
            source: self.source@,
            unprocessed_dir: self.unprocessed_dir@,
            processed_dir: self.processed_dir@,
            youtube_uploader: self.youtube_uploader@,
            secrets_path: self.secrets_path@,
            overlay_bin: self.overlay_bin@,
        }
    }
}

impl DeepView for AppConfig {
    type V = AppConfigView;

    open spec fn deep_view(&self) -> AppConfigView {
        self@
    }
}

impl Clone for AppConfig {
    fn clone(&self) -> (copy: Self)
        ensures
            copy@ == self@,
    {
        AppConfig {
            source: self.source.clone(),
            unprocessed_dir: self.unprocessed_dir.clone(),
            processed_dir: self.processed_dir.clone(),
            youtube_uploader: self.youtube_uploader.clone(),
            secrets_path: self.secrets_path.clone(),
            overlay_bin: self.overlay_bin.clone(),
        }
    }
}

/// What is needed to run a capture session.
#[derive(Debug, PartialEq, Eq)]
pub struct CaptureConfig {
    pub overlay_bin: String,
    pub gpu_screen_recorder: String,
    pub output_dir: String,
    pub processed_dir: String,
    pub youtube_uploader: String,
    pub secrets_path: String,
    pub target: String,
    pub buffer_seconds: u32,
    pub bitrate: u32,
    pub fps: u32,
    pub audio_tracks: Vec<String>,
    pub restore_portal_session: bool,
    pub replay_storage: ReplayStorage,
    pub hotkey: String,
    pub auto_start: bool,
}

pub struct CaptureConfigView {
    pub overlay_bin: Seq<char>,
    pub gpu_screen_recorder: Seq<char>,
    pub output_dir: Seq<char>,
    pub processed_dir: Seq<char>,
    pub youtube_uploader: Seq<char>,
    pub secrets_path: Seq<char>,
    pub target: Seq<char>,
    pub buffer_seconds: u32,
    pub bitrate: u32,
    pub fps: u32,
    pub audio_tracks: Seq<Seq<char>>,
    pub restore_portal_session: bool,
    pub replay_storage: ReplayStorage,
    pub hotkey: Seq<char>,
    pub auto_start: bool,
}

impl View for CaptureConfig {
    type V = CaptureConfigView;

    open spec fn view(&self) -> CaptureConfigView {
        CaptureConfigView {
            overlay_bin: self.overlay_bin@,
            gpu_screen_recorder: self.gpu_screen_recorder@,
            output_dir: self.output_dir@,
            processed_dir: self.processed_dir@,
            youtube_uploader: self.youtube_uploader@,
            secrets_path: self.secrets_path@,
            target: self.target@,
            buffer_seconds: self.buffer_seconds,
            bitrate: self.bitrate,
            fps: self.fps,
            audio_tracks: self.audio_tracks.deep_view(),
            restore_portal_session: self.restore_portal_session,
            replay_storage: self.replay_storage,
            hotkey: self.hotkey@,
            auto_start: self.auto_start,
        }
    }
}

impl DeepView for CaptureConfig {
    type V = CaptureConfigView;

    open spec fn deep_view(&self) -> CaptureConfigView {
        self@
    }
}

/// What the program was started for.
#[derive(Debug, PartialEq, Eq)]
pub enum AppMode {
    Process(AppConfig),
    Capture(CaptureConfig),
}

pub enum AppModeView {
    Process(AppConfigView),
    Capture(CaptureConfigView),
}

impl View for AppMode {
    type V = AppModeView;

    open spec fn view(&self) -> AppModeView {
        match self {
            AppMode::Process(config) => AppModeView::Process(config@),
            AppMode::Capture(config) => AppModeView::Capture(config@),
        }
    }
}

impl DeepView for AppMode {
    type V = AppModeView;

    open spec fn deep_view(&self) -> AppModeView {
        self@
    }
}

/// The paths that a configuration is made of.
#[derive(Debug, Clone, Copy, PartialEq, Eq, Structural)]
pub enum PathRole {
    Source,
    UnprocessedDir,
    ProcessedDir,
    Uploader,
    Secrets,
    Overlay,
    Recorder,
    CaptureOutputDir,
}

/// Why the command line gives no configuration.
#[derive(Debug, PartialEq, Eq)]
pub enum ConfigError {
    /// A path that the mode needs was not given.
    MissingArgument { role: PathRole, capture: bool },
    /// A path could not be resolved.
    Unresolved { role: PathRole, reason: String },
    /// A program's path leads to no regular file.
    NotAFile { role: PathRole, path: String },
    /// The storage medium is neither of the two that exist.
    UnsupportedStorage { value: String },
    /// The clip does not lie directly in the directory of unprocessed clips.
    SourceOutside { source: String, unprocessed_dir: String },
}

pub enum ConfigErrorView {
    MissingArgument { role: PathRole, capture: bool },
    Unresolved { role: PathRole, reason: Seq<char> },
    NotAFile { role: PathRole, path: Seq<char> },
    UnsupportedStorage { value: Seq<char> },
    SourceOutside { source: Seq<char>, unprocessed_dir: Seq<char> },
}

impl View for ConfigError {
    type V = ConfigErrorView;

    open spec fn view(&self) -> ConfigErrorView {
        match self {
            ConfigError::MissingArgument { role, capture } => ConfigErrorView::MissingArgument {
                role: *role,
                capture: *capture,
            },
            ConfigError::Unresolved { role, reason } => ConfigErrorView::Unresolved {
                role: *role,
                reason: reason@,
            },
            ConfigError::NotAFile { role, path } => ConfigErrorView::NotAFile {
                role: *role,
                path: path@,
            },
            ConfigError::UnsupportedStorage { value } => ConfigErrorView::UnsupportedStorage {
                value: value@,
            },
            ConfigError::SourceOutside { source, unprocessed_dir } =>
                ConfigErrorView::SourceOutside {
                    source: source@,
                    unprocessed_dir: unprocessed_dir@,
                },
        }
    }
}

impl DeepView for ConfigError {
    type V = ConfigErrorView;

    open spec fn deep_view(&self) -> ConfigErrorView {
        self@
    }
}

impl PathRole {
    /// The option that gives the path, as the user writes it.
    pub open spec fn option_name(self) -> Seq<char> {
        match self {
            PathRole::Source => "source file"@,
            PathRole::UnprocessedDir => "--unprocessed-dir"@,
            PathRole::ProcessedDir => "--processed-dir"@,
            PathRole::Uploader => "--youtubeuploader-bin"@,
            PathRole::Secrets => "--secrets-path"@,
            PathRole::Overlay => "--overlay-bin"@,
            PathRole::Recorder => "--gpu-screen-recorder-bin"@,
            PathRole::CaptureOutputDir => "--unprocessed-dir"@,
        }
    }

    /// What the path leads to, in words.
    pub open spec fn description(self) -> Seq<char> {
        match self {
            PathRole::Source => "source file"@,
            PathRole::UnprocessedDir => "unprocessed directory"@,
            PathRole::ProcessedDir => "processed directory"@,
            PathRole::Uploader => "youtubeuploader binary"@,
            PathRole::Secrets => "youtubeuploader secrets file"@,
            PathRole::Overlay => "overlay binary"@,
            PathRole::Recorder => "gpu-screen-recorder binary"@,
            PathRole::CaptureOutputDir => "capture output directory"@,
        }
    }

    /// What a program is called where its path leads to no file.
    pub open spec fn program_name(self) -> Seq<char> {
        match self {
            PathRole::Recorder => "gpu-screen-recorder"@,
            _ => self.description(),
        }
    }

    fn program_str(self) -> (name: &'static str)
        ensures
            name@ == self.program_name(),
    {
        match self {
            PathRole::Recorder => "gpu-screen-recorder",
            _ => self.description_str(),
        }
    }

    fn option_str(self) -> (name: &'static str)
        ensures
            name@ == self.option_name(),
    {
        match self {
            PathRole::Source => "source file",
            PathRole::UnprocessedDir => "--unprocessed-dir",
            PathRole::ProcessedDir => "--processed-dir",
            PathRole::Uploader => "--youtubeuploader-bin",
            PathRole::Secrets => "--secrets-path",
            PathRole::Overlay => "--overlay-bin",
            PathRole::Recorder => "--gpu-screen-recorder-bin",
            PathRole::CaptureOutputDir => "--unprocessed-dir",
        }
    }

    fn description_str(self) -> (words: &'static str)
        ensures
            words@ == self.description(),
    {
        match self {
            PathRole::Source => "source file",
            PathRole::UnprocessedDir => "unprocessed directory",
            PathRole::ProcessedDir => "processed directory",
            PathRole::Uploader => "youtubeuploader binary",
            PathRole::Secrets => "youtubeuploader secrets file",
            PathRole::Overlay => "overlay binary",
            PathRole::Recorder => "gpu-screen-recorder binary",
            PathRole::CaptureOutputDir => "capture output directory",
        }
    }
}

impl ConfigErrorView {
    pub open spec fn message(self) -> Seq<char> {
        match self {
            ConfigErrorView::MissingArgument { role, capture } => if role == PathRole::Source {
                "source file is required unless --capture-mode is set"@
            } else if capture {
                role.option_name() + " must be provided in capture mode"@
            } else {
                role.option_name() + " must be provided"@
            },
            ConfigErrorView::Unresolved { role, reason } => role.description() + " missing: "@
                + reason,
            ConfigErrorView::NotAFile { role, path } => role.program_name()
                + " must be an executable file (got \""@ + path + "\")"@,
            ConfigErrorView::UnsupportedStorage { value } => "unsupported replay storage '"@ + value
                + "', expected 'ram' or 'disk'"@,
            ConfigErrorView::SourceOutside { source, unprocessed_dir } => "Source \""@ + source
                + "\" not inside unprocessed directory \""@ + unprocessed_dir + "\""@,
        }
    }
}

impl ConfigError {
    pub fn message(&self) -> (text: String)
        ensures
            text@ == self@.message(),
    {
        match self {
            ConfigError::MissingArgument { role, capture } => {
                match role {
                    PathRole::Source =>
                        "source file is required unless --capture-mode is set".to_string(),
                    _ => {
                        if *capture {
                            join2(role.option_str(), " must be provided in capture mode")
                        } else {
                            join2(role.option_str(), " must be provided")
                        }
                    },
                }
            },
            ConfigError::Unresolved { role, reason } => join3(
                role.description_str(),
                " missing: ",
                reason.as_str(),
            ),
            ConfigError::NotAFile { role, path } => {
                let mut text = join3(
                    role.program_str(),
                    " must be an executable file (got \"",
                    path.as_str(),
                );
                text.append("\")");
                text
            },
            ConfigError::UnsupportedStorage { value } => join3(
                "unsupported replay storage '",
                value.as_str(),
                "', expected 'ram' or 'disk'",
            ),
            ConfigError::SourceOutside { source, unprocessed_dir } => {
                let mut text = join3(
                    "Source \"",
                    source.as_str(),
                    "\" not inside unprocessed directory \"",
                );
                text.append(unprocessed_dir.as_str());
                text.append("\"");
                text
            },
        }
    }
}

/// The first thing wrong with a path that has to resolve, if anything is.
pub open spec fn resolve_error(probe: PathProbeView, role: PathRole) -> Option<ConfigErrorView> {
    if probe.canonical is None {
        Some(ConfigErrorView::Unresolved { role, reason: probe.error })
    } else {
        None
    }
}

/// The first thing wrong with the path of a program, which has to resolve and
/// lead to a regular file, if anything is.
pub open spec fn program_error(probe: PathProbeView, role: PathRole) -> Option<ConfigErrorView> {
    match probe.canonical {
        None => Some(ConfigErrorView::Unresolved { role, reason: probe.error }),
        Some(path) => if probe.is_file {
            None
        } else {
            Some(ConfigErrorView::NotAFile { role, path })
        },
    }
}

/// The error of the first check that fails, in the order of the checks.
pub open spec fn first_error(checks: Seq<Option<ConfigErrorView>>) -> Option<ConfigErrorView>
    decreases checks.len(),
{
    if checks.len() == 0 {
        None
    } else if checks[0] is Some {
        checks[0]
    } else {
        first_error(checks.drop_first())
    }
}

/// The checks that the configuration for one clip has to pass, in their order.
pub open spec fn app_config_checks(
    source: PathProbeView,
    unprocessed_dir: PathProbeView,
    youtube_uploader: PathProbeView,
    secrets_path: PathProbeView,
    overlay_bin: PathProbeView,
) -> Seq<Option<ConfigErrorView>> {
    seq![
        resolve_error(source, PathRole::Source),
        resolve_error(unprocessed_dir, PathRole::UnprocessedDir),
        resolve_error(youtube_uploader, PathRole::Uploader),
        resolve_error(secrets_path, PathRole::Secrets),
        program_error(overlay_bin, PathRole::Overlay),
        program_error(youtube_uploader, PathRole::Uploader),
    ]
}

/// The configuration for one clip: every path resolved, but for the directory
/// of processed clips, which need not exist yet.
pub open spec fn app_config(
    source: PathProbeView,
    unprocessed_dir: PathProbeView,
    processed_dir: Seq<char>,
    youtube_uploader: PathProbeView,
    secrets_path: PathProbeView,
    overlay_bin: PathProbeView,
) -> Result<AppConfigView, ConfigErrorView> {
    match first_error(
        app_config_checks(source, unprocessed_dir, youtube_uploader, secrets_path, overlay_bin),
    ) {
        Some(error) => Err(error),
        None => Ok(
            AppConfigView {
                source: source.canonical->0,
                unprocessed_dir: unprocessed_dir.canonical->0,
                processed_dir,
                youtube_uploader: youtube_uploader.canonical->0,
                secrets_path: secrets_path.canonical->0,
                overlay_bin: overlay_bin.canonical->0,
            },
        ),
    }
}

/// A path that has to resolve: its canonical form, or the error.
fn resolved(probe: &PathProbe, role: PathRole) -> (result: Result<String, ConfigError>)
    ensures
        match resolve_error(probe@, role) {
            Some(error) => result matches Err(e) && e@ == error,
            None => result matches Ok(path) && Some(path@) == probe@.canonical,
        },
{
    match &probe.canonical {
        Some(path) => Ok(path.clone()),
        None => Err(ConfigError::Unresolved { role, reason: probe.error.clone() }),
    }
}

/// The path of a program: its canonical form, or the error.
fn program(probe: &PathProbe, role: PathRole) -> (result: Result<String, ConfigError>)
    ensures
        match program_error(probe@, role) {
            Some(error) => result matches Err(e) && e@ == error,
            None => result matches Ok(path) && Some(path@) == probe@.canonical,
        },
{
    match &probe.canonical {
        Some(path) => {
            if probe.is_file {
                Ok(path.clone())
            } else {
                Err(ConfigError::NotAFile { role, path: path.clone() })
            }
        },
        None => Err(ConfigError::Unresolved { role, reason: probe.error.clone() }),
    }
}

proof fn lemma_first_error_step(checks: Seq<Option<ConfigErrorView>>, passed: int)
    requires
        0 <= passed < checks.len(),
        forall|i: int| 0 <= i < passed ==> (#[trigger] checks[i]) is None,
    ensures
        checks[passed] is Some ==> first_error(checks) == checks[passed],
    decreases passed,
{
    if passed > 0 {
        let rest = checks.drop_first();
        assert forall|i: int| 0 <= i < passed - 1 implies (#[trigger] rest[i]) is None by {
            assert(rest[i] == checks[i + 1]);
        }
        lemma_first_error_step(rest, passed - 1);
    }
}

proof fn lemma_first_error_none(checks: Seq<Option<ConfigErrorView>>)
    requires
        forall|i: int| 0 <= i < checks.len() ==> (#[trigger] checks[i]) is None,
    ensures
        first_error(checks) is None,
    decreases checks.len(),
{
    if checks.len() > 0 {
        let rest = checks.drop_first();
        assert forall|i: int| 0 <= i < rest.len() implies (#[trigger] rest[i]) is None by {
            assert(rest[i] == checks[i + 1]);
        }
        lemma_first_error_none(rest);
    }
}

impl AppConfig {
    /// The configuration for one clip, from what the file system says of its paths.
    pub fn new(
        source: &PathProbe,
        unprocessed_dir: &PathProbe,
        processed_dir: String,
        youtube_uploader: &PathProbe,
        secrets_path: &PathProbe,
        overlay_bin: &PathProbe,
    ) -> (result: Result<AppConfig, ConfigError>)
        ensures
            crate::model::result_view(result) == app_config(
                source@,
                unprocessed_dir@,
                processed_dir@,
                youtube_uploader@,
                secrets_path@,
                overlay_bin@,
            ),
    {
        let ghost checks = app_config_checks(
            source@,
            unprocessed_dir@,
            youtube_uploader@,
            secrets_path@,
            overlay_bin@,
        );
        let source_path = match resolved(source, PathRole::Source) {
            Ok(path) => path,
            Err(error) => {
                proof {
                    lemma_first_error_step(checks, 0);
                }
                return Err(error);
            },
        };
        let unprocessed_path = match resolved(unprocessed_dir, PathRole::UnprocessedDir) {
            Ok(path) => path,
            Err(error) => {
                proof {
                    lemma_first_error_step(checks, 1);
                }
                return Err(error);
            },
        };
        match resolved(youtube_uploader, PathRole::Uploader) {
            Ok(_) => {},
            Err(error) => {
                proof {
                    lemma_first_error_step(checks, 2);
                }
                return Err(error);
            },
        }
        let secrets = match resolved(secrets_path, PathRole::Secrets) {
            Ok(path) => path,
            Err(error) => {
                proof {
                    lemma_first_error_step(checks, 3);
                }
                return Err(error);
            },
        };
        let overlay = match program(overlay_bin, PathRole::Overlay) {
            Ok(path) => path,
            Err(error) => {
                proof {
                    lemma_first_error_step(checks, 4);
                }
                return Err(error);
            },
        };
        let uploader = match program(youtube_uploader, PathRole::Uploader) {
            Ok(path) => path,
            Err(error) => {
                proof {
                    lemma_first_error_step(checks, 5);
                }
                return Err(error);
            },
        };
        proof {
            lemma_first_error_none(checks);
        }
        Ok(
            AppConfig {
                source: source_path,
                unprocessed_dir: unprocessed_path,
                processed_dir,
                youtube_uploader: uploader,
                secrets_path: secrets,
                overlay_bin: overlay,
            },
        )
    }

    /// The name under which the clip is shown: the last component of its path.
    pub fn source_file_name(&self) -> (name: String)
        ensures
            name@ == shown_name(file_name_of(self@.source)),
    {
        shown_file_name(file_name(self.source.as_str()))
    }

    /// Whether the clip lies directly in the directory of unprocessed clips.
    pub open spec fn source_is_inside(config: AppConfigView) -> bool {
        match parent_of(config.source) {
            Some(dir) => same_path(dir, config.unprocessed_dir),
            None => false,
        }
    }

    /// Accepts the clip where it is known to lie directly in the directory of
    /// unprocessed clips, and says what is wrong where it does not.
    pub fn accept_source(&self, inside: bool) -> (result: Result<(), ConfigError>)
        ensures
            inside ==> result is Ok,
            !inside ==> (result matches Err(e) && e@ == (ConfigErrorView::SourceOutside {
                source: self@.source,
                unprocessed_dir: self@.unprocessed_dir,
            })),
    {
        if inside {
            Ok(())
        } else {
            Err(
                ConfigError::SourceOutside {
                    source: self.source.clone(),
                    unprocessed_dir: self.unprocessed_dir.clone(),
                },
            )
        }
    }

    /// Accepts the clip only where it lies directly in the directory of
    /// unprocessed clips.
    pub fn validate_source(&self) -> (result: Result<(), ConfigError>)
        ensures
            AppConfig::source_is_inside(self@) ==> result is Ok,
            !AppConfig::source_is_inside(self@) ==> (result matches Err(e) && e@ == (
            ConfigErrorView::SourceOutside {
                source: self@.source,
                unprocessed_dir: self@.unprocessed_dir,
            })),
    {
        let inside = match parent(self.source.as_str()) {
            Some(dir) => paths_equal(dir.as_str(), self.unprocessed_dir.as_str()),
            None => false,
        };
        self.accept_source(inside)
    }
}

/// The name under which a clip is shown, given the last component of its
/// path: that component, or `<unknown>` where the path has none.
pub open spec fn shown_name(file_name: Option<Seq<char>>) -> Seq<char> {
    match file_name {
        Some(last) => last,
        None => "<unknown>"@,
    }
}

/// Writes the name under which a clip is shown.
pub fn shown_file_name(file_name: Option<String>) -> (name: String)
    ensures
        name@ == shown_name(file_name.deep_view()),
{
    match file_name {
        Some(name) => name,
        None => "<unknown>".to_string(),
    }
}

/// The storage medium that a word names, upper or lower case.
pub open spec fn storage_of_word(word: Seq<char>) -> Option<ReplayStorage> {
    if lowercase_text(word) == "ram"@ {
        Some(ReplayStorage::Ram)
    } else if lowercase_text(word) == "disk"@ {
        Some(ReplayStorage::Disk)
    } else {
        None
    }
}

/// Reads the word for the storage medium.
pub fn parse_storage(word: &str) -> (result: Result<ReplayStorage, ConfigError>)
    ensures
        match storage_of_word(word@) {
            Some(storage) => result == Ok::<ReplayStorage, ConfigError>(storage),
            None => result matches Err(e) && e@ == (ConfigErrorView::UnsupportedStorage {
                value: lowercase_text(word@),
            }),
        },
{
    let lower = ascii_lowercase(word);
    if same_text(lower.as_str(), "ram") {
        Ok(ReplayStorage::Ram)
    } else if same_text(lower.as_str(), "disk") {
        Ok(ReplayStorage::Disk)
    } else {
        Err(ConfigError::UnsupportedStorage { value: lower })
    }
}

/// The tracks that are recorded where the command line names none.
pub open spec fn default_capture_tracks() -> Seq<Seq<char>> {
    seq!["default_input"@, "app:discord"@, "app-inverse:discord"@]
}

/// A path that the mode needs: what the file system says of it, or the error.
pub open spec fn missing(probe: Option<PathProbeView>, role: PathRole, capture: bool) -> Option<
    ConfigErrorView,
> {
    if probe is None {
        Some(ConfigErrorView::MissingArgument { role, capture })
    } else {
        None
    }
}

fn required(probe: Option<PathProbe>, role: PathRole, capture: bool) -> (result: Result<
    PathProbe,
    ConfigError,
>)
    ensures
        match missing(probe.deep_view(), role, capture) {
            Some(error) => result matches Err(e) && e@ == error,
            None => result matches Ok(p) && Some(p@) == probe.deep_view(),
        },
{
    match probe {
        Some(p) => Ok(p),
        None => Err(ConfigError::MissingArgument { role, capture }),
    }
}

/// The checks that the command line has to pass for one clip, in their order.
pub open spec fn process_mode_checks(cli: CliView) -> Seq<Option<ConfigErrorView>> {
    seq![
        missing(cli.source, PathRole::Source, false),
        missing(cli.unprocessed_dir, PathRole::UnprocessedDir, false),
        missing(cli.processed_dir, PathRole::ProcessedDir, false),
        missing(cli.youtube_uploader, PathRole::Uploader, false),
        missing(cli.secrets_path, PathRole::Secrets, false),
        resolve_error(cli.overlay_bin, PathRole::Overlay),
    ]
}

/// What the command line gives for one clip.
pub open spec fn process_mode(cli: CliView) -> Result<AppConfigView, ConfigErrorView> {
    match first_error(process_mode_checks(cli)) {
        Some(error) => Err(error),
        None => app_config(
            cli.source->0,
            cli.unprocessed_dir->0,
            cli.processed_dir->0.given,
            cli.youtube_uploader->0,
            cli.secrets_path->0,
            cli.overlay_bin,
        ),
    }
}

/// The checks that the command line has to pass for a capture session, in
/// their order.
pub open spec fn capture_mode_checks(cli: CliView) -> Seq<Option<ConfigErrorView>> {
    seq![
        missing(cli.gpu_screen_recorder, PathRole::Recorder, true),
        missing(cli.unprocessed_dir, PathRole::CaptureOutputDir, true),
        missing(cli.processed_dir, PathRole::ProcessedDir, true),
        missing(cli.youtube_uploader, PathRole::Uploader, true),
        missing(cli.secrets_path, PathRole::Secrets, true),
        program_error(cli.gpu_screen_recorder->0, PathRole::Recorder),
        program_error(cli.overlay_bin, PathRole::Overlay),
        resolve_error(cli.unprocessed_dir->0, PathRole::CaptureOutputDir),
        resolve_error(cli.processed_dir->0, PathRole::ProcessedDir),
        program_error(cli.youtube_uploader->0, PathRole::Uploader),
        resolve_error(cli.secrets_path->0, PathRole::Secrets),
        match storage_of_word(cli.capture_storage) {
            Some(_) => None,
            None => Some(
                ConfigErrorView::UnsupportedStorage { value: lowercase_text(cli.capture_storage) },
            ),
        },
    ]
}

/// What the command line gives for a capture session.
pub open spec fn capture_mode(cli: CliView) -> Result<CaptureConfigView, ConfigErrorView> {
    match first_error(capture_mode_checks(cli)) {
        Some(error) => Err(error),
        None => Ok(
            CaptureConfigView {
                overlay_bin: cli.overlay_bin.canonical->0,
                gpu_screen_recorder: cli.gpu_screen_recorder->0.canonical->0,
                output_dir: cli.unprocessed_dir->0.canonical->0,
                processed_dir: cli.processed_dir->0.canonical->0,
                youtube_uploader: cli.youtube_uploader->0.canonical->0,
                secrets_path: cli.secrets_path->0.canonical->0,
                target: cli.capture_target,
                buffer_seconds: cli.capture_buffer_seconds,
                bitrate: cli.capture_bitrate,
                fps: cli.capture_fps,
                audio_tracks: if cli.capture_audio_tracks.len() == 0 {
                    default_capture_tracks()
                } else {
                    cli.capture_audio_tracks
                },
                restore_portal_session: cli.capture_restore_portal,
                replay_storage: storage_of_word(cli.capture_storage)->0,
                hotkey: cli.capture_hotkey,
                auto_start: cli.capture_auto_start,
            },
        ),
    }
}

/// What the command line asks for.
pub open spec fn app_mode(cli: CliView) -> Result<AppModeView, ConfigErrorView> {
    if cli.capture_mode {
        match capture_mode(cli) {
            Ok(config) => Ok(AppModeView::Capture(config)),
            Err(error) => Err(error),
        }
    } else {
        match process_mode(cli) {
            Ok(config) => Ok(AppModeView::Process(config)),
            Err(error) => Err(error),
        }
    }
}

impl Cli {
    /// Turns the command line into what the program was started for, or says
    /// what is wrong with it: the first check that fails decides.
    pub fn into_mode(self) -> (result: Result<AppMode, ConfigError>)
        ensures
            crate::model::result_view(result) == app_mode(self@),
    {
        if self.capture_mode {
            match self.into_capture_mode() {
                Ok(config) => Ok(AppMode::Capture(config)),
                Err(error) => Err(error),
            }
        } else {
            match self.into_process_mode() {
                Ok(config) => Ok(AppMode::Process(config)),
                Err(error) => Err(error),
            }
        }
    }

    pub fn into_process_mode(self) -> (result: Result<AppConfig, ConfigError>)
        ensures
            crate::model::result_view(result) == process_mode(self@),
    {
        let ghost checks = process_mode_checks(self@);
        let source = match required(self.source, PathRole::Source, false) {
            Ok(probe) => probe,
            Err(error) => {
                proof {
                    lemma_first_error_step(checks, 0);
                }
                return Err(error);
            },
        };
        let unprocessed_dir = match required(
            self.unprocessed_dir,
            PathRole::UnprocessedDir,
            false,
        ) {
            Ok(probe) => probe,
            Err(error) => {
                proof {
                    lemma_first_error_step(checks, 1);
                }
                return Err(error);
            },
        };
        let processed_dir = match required(self.processed_dir, PathRole::ProcessedDir, false) {
            Ok(probe) => probe,
            Err(error) => {
                proof {
                    lemma_first_error_step(checks, 2);
                }
                return Err(error);
            },
        };
        let youtube_uploader = match required(self.youtube_uploader, PathRole::Uploader, false) {
            Ok(probe) => probe,
            Err(error) => {
                proof {
                    lemma_first_error_step(checks, 3);
                }
                return Err(error);
            },
        };
        let secrets_path = match required(self.secrets_path, PathRole::Secrets, false) {
            Ok(probe) => probe,
            Err(error) => {
                proof {
                    lemma_first_error_step(checks, 4);
                }
                return Err(error);
            },
        };
        match resolved(&self.overlay_bin, PathRole::Overlay) {
            Ok(_) => {},
            Err(error) => {
                proof {
                    lemma_first_error_step(checks, 5);
                }
                return Err(error);
            },
        }
        proof {
            lemma_first_error_none(checks);
        }
        AppConfig::new(
            &source,
            &unprocessed_dir,
            processed_dir.given,
            &youtube_uploader,
            &secrets_path,
            &self.overlay_bin,
        )
    }

    pub fn into_capture_mode(self) -> (result: Result<CaptureConfig, ConfigError>)
        ensures
            crate::model::result_view(result) == capture_mode(self@),
    {
        let ghost checks = capture_mode_checks(self@);
        let recorder = match required(self.gpu_screen_recorder, PathRole::Recorder, true) {
            Ok(probe) => probe,
            Err(error) => {
                proof {
                    lemma_first_error_step(checks, 0);
                }
                return Err(error);
            },
        };
        let output_dir = match required(self.unprocessed_dir, PathRole::CaptureOutputDir, true) {
            Ok(probe) => probe,
            Err(error) => {
                proof {
                    lemma_first_error_step(checks, 1);
                }
                return Err(error);
            },
        };
        let processed_dir = match required(self.processed_dir, PathRole::ProcessedDir, true) {
            Ok(probe) => probe,
            Err(error) => {
                proof {
                    lemma_first_error_step(checks, 2);
                }
                return Err(error);
            },
        };
        let youtube_uploader = match required(self.youtube_uploader, PathRole::Uploader, true) {
            Ok(probe) => probe,
            Err(error) => {
                proof {
                    lemma_first_error_step(checks, 3);
                }
                return Err(error);
            },
        };
        let secrets_path = match required(self.secrets_path, PathRole::Secrets, true) {
            Ok(probe) => probe,
            Err(error) => {
                proof {
                    lemma_first_error_step(checks, 4);
                }
                return Err(error);
            },
        };
        let recorder_path = match program(&recorder, PathRole::Recorder) {
            Ok(path) => path,
            Err(error) => {
                proof {
                    lemma_first_error_step(checks, 5);
                }
                return Err(error);
            },
        };
        let overlay_path = match program(&self.overlay_bin, PathRole::Overlay) {
            Ok(path) => path,
            Err(error) => {
                proof {
                    lemma_first_error_step(checks, 6);
                }
                return Err(error);
            },
        };
        let output_path = match resolved(&output_dir, PathRole::CaptureOutputDir) {
            Ok(path) => path,
            Err(error) => {
                proof {
                    lemma_first_error_step(checks, 7);
                }
                return Err(error);
            },
        };
        let processed_path = match resolved(&processed_dir, PathRole::ProcessedDir) {
            Ok(path) => path,
            Err(error) => {
                proof {
                    lemma_first_error_step(checks, 8);
                }
                return Err(error);
            },
        };
        let uploader_path = match program(&youtube_uploader, PathRole::Uploader) {
            Ok(path) => path,
            Err(error) => {
                proof {
                    lemma_first_error_step(checks, 9);
                }
                return Err(error);
            },
        };
        let secrets = match resolved(&secrets_path, PathRole::Secrets) {
            Ok(path) => path,
            Err(error) => {
                proof {
                    lemma_first_error_step(checks, 10);
                }
                return Err(error);
            },
        };
        let replay_storage = match parse_storage(self.capture_storage.as_str()) {
            Ok(storage) => storage,
            Err(error) => {
                proof {
                    lemma_first_error_step(checks, 11);
                }
                return Err(error);
            },
        };
        proof {
            lemma_first_error_none(checks);
        }
        let mut audio_tracks = self.capture_audio_tracks;
        if audio_tracks.len() == 0 {
            push_text(&mut audio_tracks, "default_input".to_string());
            push_text(&mut audio_tracks, "app:discord".to_string());
            push_text(&mut audio_tracks, "app-inverse:discord".to_string());
            assert(audio_tracks.deep_view() =~= default_capture_tracks());
        }
        Ok(
            CaptureConfig {
                overlay_bin: overlay_path,
                gpu_screen_recorder: recorder_path,
                output_dir: output_path,
                processed_dir: processed_path,
                youtube_uploader: uploader_path,
                secrets_path: secrets,
                target: self.capture_target,
                buffer_seconds: self.capture_buffer_seconds,
                bitrate: self.capture_bitrate,
                fps: self.capture_fps,
                audio_tracks,
                restore_portal_session: self.capture_restore_portal,
                replay_storage,
                hotkey: self.capture_hotkey,
                auto_start: self.capture_auto_start,
            },
        )
    }
}

impl CaptureConfig {
    /// The recorder's settings that this configuration starts a session with.
    pub fn replay_settings(&self) -> (settings: crate::capture::ReplaySettings)
        ensures
            settings@ == (crate::capture::ReplaySettingsView {
                binary: self@.gpu_screen_recorder,
                target: self@.target,
                buffer_seconds: self@.buffer_seconds,
                bitrate: self@.bitrate,
                fps: self@.fps,
                audio_tracks: self@.audio_tracks,
                restore_portal_session: self@.restore_portal_session,
                replay_storage: self@.replay_storage,
                output_dir: self@.output_dir,
            }),
    {
        crate::capture::ReplaySettings {
            binary: self.gpu_screen_recorder.clone(),
            target: self.target.clone(),
            buffer_seconds: self.buffer_seconds,
            bitrate: self.bitrate,
            fps: self.fps,
            audio_tracks: self.audio_tracks.clone(),
            restore_portal_session: self.restore_portal_session,
            replay_storage: self.replay_storage,
            output_dir: self.output_dir.clone(),
        }
    }
}

} // verus!
