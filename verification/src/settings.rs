use vstd::prelude::*;
use crate::capture::{ReplaySettings, ReplaySettingsView};

verus! {

/// Who decides whether the recorder runs.
#[derive(Debug, Clone, Copy, PartialEq, Eq, Structural)]
pub enum ReplayMode {
    /// The user switches it on and off.
    Manual,
    /// It runs while a game runs.
    AutoWithGame,
}

/// The part of a session that outlives it.
#[derive(Debug, PartialEq, Eq)]
pub struct PersistedSettings {
    pub buffer_seconds: u32,
    pub bitrate: u32,
    pub fps: u32,
    pub target: String,
    pub audio_tracks: Vec<String>,
    pub replay_mode: ReplayMode,
    pub replay_enabled: bool,
}

pub struct PersistedSettingsView {
    pub buffer_seconds: u32,
    pub bitrate: u32,
    pub fps: u32,
    pub target: Seq<char>,
    pub audio_tracks: Seq<Seq<char>>,
    pub replay_mode: ReplayMode,
    pub replay_enabled: bool,
}

impl View for PersistedSettings {
    type V = PersistedSettingsView;

    open spec fn view(&self) -> PersistedSettingsView {
        PersistedSettingsView {
            buffer_seconds: self.buffer_seconds,
            bitrate: self.bitrate,
            fps: self.fps,
            target: self.target@,
            audio_tracks: self.audio_tracks.deep_view(),
            replay_mode: self.replay_mode,
            replay_enabled: self.replay_enabled,
        }
    }
}

impl DeepView for PersistedSettings {
    type V = PersistedSettingsView;

    open spec fn deep_view(&self) -> PersistedSettingsView {
        self@
    }
}

impl Clone for PersistedSettings {
    fn clone(&self) -> (copy: Self)
        ensures
            copy@ == self@,
    {
        PersistedSettings {
            buffer_seconds: self.buffer_seconds,
            bitrate: self.bitrate,
            fps: self.fps,
            target: self.target.clone(),
            audio_tracks: self.audio_tracks.clone(),
            replay_mode: self.replay_mode,
            replay_enabled: self.replay_enabled,
        }
    }
}

impl PersistedSettingsView {
    /// The durable projection of `settings`, with the mode and the enabled flag.
    pub open spec fn of(
        settings: ReplaySettingsView,
        replay_mode: ReplayMode,
        replay_enabled: bool,
    ) -> PersistedSettingsView {
        PersistedSettingsView {
            buffer_seconds: settings.buffer_seconds,
            bitrate: settings.bitrate,
            fps: settings.fps,
            target: settings.target,
            audio_tracks: settings.audio_tracks,
            replay_mode,
            replay_enabled,
        }
    }

    /// `settings` with the fields that this record covers taken from it.
    pub open spec fn applied_to(self, settings: ReplaySettingsView) -> ReplaySettingsView {
        ReplaySettingsView {
            buffer_seconds: self.buffer_seconds,
            bitrate: self.bitrate,
            fps: self.fps,
            target: self.target,
            audio_tracks: self.audio_tracks,
            ..settings
        }
    }
}

impl PersistedSettings {
    pub fn from_replay_settings(
        settings: &ReplaySettings,
        replay_mode: ReplayMode,
        replay_enabled: bool,
    ) -> (persisted: Self)
        ensures
            persisted@ == PersistedSettingsView::of(settings@, replay_mode, replay_enabled),
    {
        PersistedSettings {
            buffer_seconds: settings.buffer_seconds,
            bitrate: settings.bitrate,
            fps: settings.fps,
            target: settings.target.clone(),
            audio_tracks: settings.audio_tracks.clone(),
            replay_mode,
            replay_enabled,
        }
    }

    pub fn apply_to_replay_settings(&self, settings: &mut ReplaySettings)
        ensures
            final(settings)@ == self@.applied_to(old(settings)@),
    {
        settings.buffer_seconds = self.buffer_seconds;
        settings.bitrate = self.bitrate;
        settings.fps = self.fps;
        settings.target = self.target.clone();
        settings.audio_tracks = self.audio_tracks.clone();
    }
}

/// A record restored into any settings and projected again is the same record:
/// nothing it covers is lost on the way.
pub proof fn lemma_restore_then_project(
    persisted: PersistedSettingsView,
    settings: ReplaySettingsView,
)
    ensures
        PersistedSettingsView::of(
            persisted.applied_to(settings),
            persisted.replay_mode,
            persisted.replay_enabled,
        ) == persisted,
{
}

/// Settings projected and restored into themselves are unchanged, and restoring
/// touches nothing that the record does not cover.
pub proof fn lemma_project_then_restore(
    settings: ReplaySettingsView,
    other: ReplaySettingsView,
    replay_mode: ReplayMode,
    replay_enabled: bool,
)
    ensures
        PersistedSettingsView::of(settings, replay_mode, replay_enabled).applied_to(settings)
            == settings,
        ({
            let restored = PersistedSettingsView::of(settings, replay_mode, replay_enabled).applied_to(
                other,
            );
            &&& restored.binary == other.binary
            &&& restored.output_dir == other.output_dir
            &&& restored.restore_portal_session == other.restore_portal_session
            &&& restored.replay_storage == other.replay_storage
        }),
{
}

} // verus!
