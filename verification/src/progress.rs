use vstd::prelude::*;
use crate::text::{decimal, decimal_text};

verus! {

/// One step of the clip-finishing pipeline, as shown to the user.
#[derive(Debug, Clone, Copy, PartialEq, Eq, Hash, Structural)]
pub enum Stage {
    Detected,
    Transform,
    AwaitExport,
    Finalise,
    Upload,
    Done,
}

impl Stage {
    /// The caption of this stage as a sequence of characters.
    pub open spec fn label_text(self) -> Seq<char> {
        match self {
            Stage::Detected => "Detected"@,
            Stage::Transform => "Transforming audio/video"@,
            Stage::AwaitExport => "Awaiting export"@,
            Stage::Finalise => "Finalising files"@,
            Stage::Upload => "Uploading to YouTube"@,
            Stage::Done => "Completed"@,
        }
    }

    /// The caption that the progress display carries for this stage.
    pub fn label(self) -> (caption: &'static str)
        ensures
            caption@ == self.label_text(),
    {
        match self {
            Stage::Detected => "Detected",
            Stage::Transform => "Transforming audio/video",
            Stage::AwaitExport => "Awaiting export",
            Stage::Finalise => "Finalising files",
            Stage::Upload => "Uploading to YouTube",
            Stage::Done => "Completed",
        }
    }
}

/// `text` with spaces before it until it is three characters wide.
pub open spec fn right_aligned(text: Seq<char>) -> Seq<char> {
    if text.len() >= 3 {
        text
    } else if text.len() == 2 {
        " "@ + text
    } else if text.len() == 1 {
        "  "@ + text
    } else {
        "   "@
    }
}

/// The detail line under a stage's caption: the percentage, right-aligned in
/// three columns, a percent sign, and what the percentage is of.
pub open spec fn stage_detail_text(percent: u32, suffix: Seq<char>) -> Seq<char> {
    right_aligned(decimal_text(percent as nat)) + "% "@ + suffix
}

/// Writes the detail line for `percent` percent of `suffix`.
pub fn format_stage_detail(_stage: Stage, percent: u32, suffix: &str) -> (detail: String)
    ensures
        detail@ == stage_detail_text(percent, suffix@),
{
    let number = decimal(percent as u64);
    proof {
        crate::text::lemma_decimal_nonempty(percent as nat);
    }
    let mut detail = if percent < 10 {
        assert(number@.len() == 1);
        "  ".to_string()
    } else if percent < 100 {
        assert(number@.len() == 2) by {
            assert(decimal_text((percent / 10) as nat).len() == 1);
        }
        " ".to_string()
    } else {
        assert(number@.len() >= 3) by {
            assert(decimal_text((percent / 10) as nat).len() >= 2) by {
                crate::text::lemma_decimal_nonempty((percent / 100) as nat);
            }
        }
        proof {
            reveal_strlit("");
        }
        "".to_string()
    };
    detail.append(number.as_str());
    detail.append("% ");
    detail.append(suffix);
    proof {
        reveal_strlit("");
        assert(detail@ =~= stage_detail_text(percent, suffix@));
    }
    detail
}


} // verus!
