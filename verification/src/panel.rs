use vstd::prelude::*;
use crate::capture::{keep_named, named_tracks, save_signal_offset};
use crate::overlay::{
    action_choice, ActionChoice, CaptureSettingsPayload, CaptureSettingsPayloadView,
    CaptureStatusPayload, CaptureStatusPayloadView,
};
use crate::session::{mode_name, mode_of_word, mode_word, requested_duration};
use crate::settings::ReplayMode;
use crate::text::{decimal, decimal_text, join2, same_text};

verus! {

/// A span of time as the progress display writes it: seconds below a minute,
/// minutes and seconds below an hour, hours and minutes from then on.
pub open spec fn elapsed_text(seconds: u64) -> Seq<char> {
    if seconds < 60 {
        decimal_text(seconds as nat) + "s"@
    } else if seconds < 3600 {
        decimal_text((seconds / 60) as nat) + "m "@ + decimal_text((seconds % 60) as nat) + "s"@
    } else {
        decimal_text((seconds / 3600) as nat) + "h "@ + decimal_text(
            ((seconds % 3600) / 60) as nat,
        ) + "m"@
    }
}

/// Writes a span of time for the progress display.
pub fn format_elapsed(seconds: u64) -> (text: String)
    ensures
        text@ == elapsed_text(seconds),
{
    if seconds < 60 {
        join2(decimal(seconds).as_str(), "s")
    } else if seconds < 3600 {
        let mut text = join2(decimal(seconds / 60).as_str(), "m ");
        text.append(decimal(seconds % 60).as_str());
        text.append("s");
        text
    } else {
        let mut text = join2(decimal(seconds / 3600).as_str(), "h ");
        text.append(decimal((seconds % 3600) / 60).as_str());
        text.append("m");
        text
    }
}

/// A position on a clip's time line as the trimmer writes it: the minutes, a
/// colon, and the seconds in two digits.
pub open spec fn position_text(seconds: u64) -> Seq<char> {
    decimal_text((seconds / 60) as nat) + ":"@ + (if seconds % 60 < 10 {
        "0"@
    } else {
        Seq::empty()
    }) + decimal_text((seconds % 60) as nat)
}

/// Writes a position on a clip's time line, given in whole seconds.
pub fn format_position(seconds: u64) -> (text: String)
    ensures
        text@ == position_text(seconds),
{
    let mut text = join2(decimal(seconds / 60).as_str(), ":");
    if seconds % 60 < 10 {
        text.append("0");
    }
    text.append(decimal(seconds % 60).as_str());
    assert(text@ =~= position_text(seconds));
    text
}

/// What the capture panel makes of a status: the state of its switches, the
/// line it shows, and whether a save can be asked for.
#[derive(Debug, PartialEq, Eq)]
pub struct PanelState {
    pub running: bool,
    /// Whether the mode switch stands on automatic.
    pub automatic: bool,
    pub status_line: String,
    pub can_save: bool,
}

pub struct PanelStateView {
    pub running: bool,
    pub automatic: bool,
    pub status_line: Seq<char>,
    pub can_save: bool,
}

impl View for PanelState {
    type V = PanelStateView;

    open spec fn view(&self) -> PanelStateView {
        PanelStateView {
            running: self.running,
            automatic: self.automatic,
            status_line: self.status_line@,
            can_save: self.can_save,
        }
    }
}

/// The panel shows the message of the status, or, where there is none, whether
/// the recorder is ready or stopped; a save can be asked for while the recorder
/// runs and no save is under way.
pub open spec fn panel_state_of(status: CaptureStatusPayloadView) -> PanelStateView {
    PanelStateView {
        running: status.running,
        automatic: status.replay_mode == "auto"@,
        status_line: match status.message {
            Some(message) => message,
            None => if status.running {
                "Replay recorder ready"@
            } else {
                "Replay recorder stopped"@
            },
        },
        can_save: status.running && !status.is_saving,
    }
}

pub fn panel_state(status: &CaptureStatusPayload) -> (state: PanelState)
    ensures
        state@ == panel_state_of(status@),
{
    PanelState {
        running: status.running,
        automatic: same_text(status.replay_mode.as_str(), "auto"),
        status_line: match &status.message {
            Some(message) => message.clone(),
            None => {
                if status.running {
                    "Replay recorder ready".to_string()
                } else {
                    "Replay recorder stopped".to_string()
                }
            },
        },
        can_save: status.running && !status.is_saving,
    }
}

/// The duration that the panel's first save button asks for, in seconds.
pub const SAVE_SHORT_SECONDS: u32 = 60;

/// The duration that the panel's second save button asks for, in seconds.
pub const SAVE_LONG_SECONDS: u32 = 300;

/// Both save buttons ask for durations that the recorder knows: neither is
/// answered with the whole buffer.
pub proof fn lemma_save_buttons_are_known()
    ensures
        save_signal_offset(requested_duration(SAVE_SHORT_SECONDS)) == Some(3int),
        save_signal_offset(requested_duration(SAVE_LONG_SECONDS)) == Some(4int),
{
}

/// The target that stands in where the panel's list has none selected.
pub open spec fn default_target() -> Seq<char> {
    "screen"@
}

/// The settings that the panel sends when the user applies them: the numbers
/// as entered, the selected target, and the tracks that are not blank.
pub open spec fn panel_settings_of(
    buffer_seconds: u32,
    bitrate: u32,
    fps: u32,
    target: Option<Seq<char>>,
    audio_texts: Seq<Seq<char>>,
) -> CaptureSettingsPayloadView {
    CaptureSettingsPayloadView {
        buffer_seconds,
        bitrate,
        fps,
        target: match target {
            Some(id) => id,
            None => default_target(),
        },
        audio_tracks: named_tracks(audio_texts),
    }
}

pub fn panel_settings(
    buffer_seconds: u32,
    bitrate: u32,
    fps: u32,
    target: Option<String>,
    audio_texts: &Vec<String>,
) -> (settings: CaptureSettingsPayload)
    ensures
        settings@ == panel_settings_of(
            buffer_seconds,
            bitrate,
            fps,
            target.deep_view(),
            audio_texts.deep_view(),
        ),
{
    CaptureSettingsPayload {
        buffer_seconds,
        bitrate,
        fps,
        target: match target {
            Some(id) => id,
            None => "screen".to_string(),
        },
        audio_tracks: keep_named(audio_texts),
    }
}

/// The word that the panel sends for the state of its mode switch.
pub fn mode_switch_word(automatic: bool) -> (word: &'static str)
    ensures
        word@ == mode_word(
            if automatic {
                ReplayMode::AutoWithGame
            } else {
                ReplayMode::Manual
            },
        ),
        mode_of_word(word@) == (if automatic {
            ReplayMode::AutoWithGame
        } else {
            ReplayMode::Manual
        }),
{
    proof {
        crate::session::lemma_mode_word_round_trip(ReplayMode::AutoWithGame);
        crate::session::lemma_mode_word_round_trip(ReplayMode::Manual);
    }
    if automatic {
        mode_name(ReplayMode::AutoWithGame)
    } else {
        mode_name(ReplayMode::Manual)
    }
}

/// The word that the picker sends for a choice.
pub open spec fn choice_word(choice: ActionChoice) -> Seq<char> {
    match choice {
        ActionChoice::Upload => "upload"@,
        ActionChoice::Move => "move"@,
        ActionChoice::Discard => "discard"@,
    }
}

/// Each choice is read back from its own word.
pub proof fn lemma_choice_word_round_trip(choice: ActionChoice)
    ensures
        action_choice(choice_word(choice)) == Some(choice),
{
    reveal_strlit("upload");
    reveal_strlit("move");
    reveal_strlit("discard");
    assert("upload"@.len() != "move"@.len());
    assert("upload"@.len() != "discard"@.len());
    assert("move"@.len() != "discard"@.len());
}

/// The choice that the picker's three buttons stand for: the first that is
/// set, and the upload where none is.
pub open spec fn picked_choice(upload: bool, keep: bool, discard: bool) -> ActionChoice {
    if upload {
        ActionChoice::Upload
    } else if keep {
        ActionChoice::Move
    } else if discard {
        ActionChoice::Discard
    } else {
        ActionChoice::Upload
    }
}

/// The word that the picker sends for the state of its three buttons.
pub fn picked_action_word(upload: bool, keep: bool, discard: bool) -> (word: &'static str)
    ensures
        word@ == choice_word(picked_choice(upload, keep, discard)),
        action_choice(word@) == Some(picked_choice(upload, keep, discard)),
{
    proof {
        lemma_choice_word_round_trip(picked_choice(upload, keep, discard));
    }
    if upload {
        "upload"
    } else if keep {
        "move"
    } else if discard {
        "discard"
    } else {
        "upload"
    }
}


} // verus!
