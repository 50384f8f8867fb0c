use vstd::prelude::*;
use crate::capture::push_text;
use crate::text::{
    blank, chars_of, find_from, is_blank, position_from, same_text, text_of, trim, trimmed,
};

verus! {

/// The key and the value of a line of progress output, each trimmed: the key is
/// what stands before the first equals sign, the value what stands behind it,
/// nothing where there is none. A blank line and a line without a key give nothing.
pub open spec fn progress_entry(line: Seq<char>) -> Option<(Seq<char>, Seq<char>)> {
    if is_blank(line) {
        None
    } else {
        let (key, value) = match position_from(line, 0, '=') {
            Some(at) => (trimmed(line.take(at)), trimmed(line.skip(at + 1))),
            None => (trimmed(line), Seq::empty()),
        };
        if key.len() == 0 {
            None
        } else {
            Some((key, value))
        }
    }
}

/// Reads one line of progress output.
pub fn parse_progress_line(line: &str) -> (entry: Option<(String, String)>)
    ensures
        match entry {
            Some((key, value)) => progress_entry(line@) == Some((key@, value@)),
            None => progress_entry(line@) is None,
        },
{
    if blank(line) {
        return None;
    }
    let chars = chars_of(line);
    let (key, value) = match find_from(&chars, 0, '=') {
        Some(at) => {
            let before = text_of(&chars, 0, at);
            let after = text_of(&chars, at + 1, chars.len());
            assert(before@ =~= line@.take(at as int));
            assert(after@ =~= line@.skip(at + 1));
            (trim(before.as_str()), trim(after.as_str()))
        },
        None => (trim(line), String::new()),
    };
    if key.as_str().is_empty() {
        None
    } else {
        Some((key, value))
    }
}

/// What a line of progress output calls for.
#[derive(Debug, PartialEq, Eq)]
pub enum ProgressStep {
    /// Nothing yet.
    Continue,
    /// A report of the progress so far: the output time of the block that just
    /// ended, in microseconds as the tool wrote it, where it named one.
    Report { out_time: Option<String> },
    /// The tool is done: the progress is complete.
    End,
}

pub enum ProgressStepView {
    Continue,
    Report { out_time: Option<Seq<char>> },
    End,
}

impl View for ProgressStep {
    type V = ProgressStepView;

    open spec fn view(&self) -> ProgressStepView {
        match self {
            ProgressStep::Continue => ProgressStepView::Continue,
            ProgressStep::Report { out_time } => ProgressStepView::Report {
                out_time: out_time.deep_view(),
            },
            ProgressStep::End => ProgressStepView::End,
        }
    }
}

/// Follows the blocks of progress output: within a block it keeps the output
/// time that was named last, and at the block's end it reports it.
#[derive(Debug, PartialEq, Eq)]
pub struct ProgressTracker {
    out_time: Option<String>,
}

impl View for ProgressTracker {
    type V = Option<Seq<char>>;

    closed spec fn view(&self) -> Option<Seq<char>> {
        self.out_time.deep_view()
    }
}

/// The output time that is kept after a line.
pub open spec fn tracked_after(kept: Option<Seq<char>>, line: Seq<char>) -> Option<Seq<char>> {
    match progress_entry(line) {
        Some((key, value)) => if key == "progress"@ {
            if value == "end"@ {
                kept
            } else {
                None
            }
        } else if key == "out_time_ms"@ {
            Some(value)
        } else {
            kept
        },
        None => kept,
    }
}

/// What a line calls for, given the output time kept so far.
pub open spec fn step_for(kept: Option<Seq<char>>, line: Seq<char>) -> ProgressStepView {
    match progress_entry(line) {
        Some((key, value)) => if key == "progress"@ {
            if value == "end"@ {
                ProgressStepView::End
            } else {
                ProgressStepView::Report { out_time: kept }
            }
        } else {
            ProgressStepView::Continue
        },
        None => ProgressStepView::Continue,
    }
}

impl ProgressTracker {
    pub fn new() -> (tracker: Self)
        ensures
            tracker@ is None,
    {
        ProgressTracker { out_time: None }
    }

    /// Takes in one line of progress output.
    pub fn on_line(&mut self, line: &str) -> (step: ProgressStep)
        ensures
            step@ == step_for(old(self)@, line@),
            final(self)@ == tracked_after(old(self)@, line@),
    {
        let (key, value) = match parse_progress_line(line) {
            Some(entry) => entry,
            None => {
                return ProgressStep::Continue;
            },
        };
        if same_text(key.as_str(), "progress") {
            if same_text(value.as_str(), "end") {
                ProgressStep::End
            } else {
                let mut out_time = None;
                std::mem::swap(&mut self.out_time, &mut out_time);
                ProgressStep::Report { out_time }
            }
        } else {
            proof {
                reveal_strlit("progress");
                reveal_strlit("out_time_ms");
                assert("progress"@.len() != "out_time_ms"@.len());
            }
            if same_text(key.as_str(), "out_time_ms") {
                self.out_time = Some(value);
            }
            ProgressStep::Continue
        }
    }
}

/// The arguments with which the length of a clip is asked for.
pub open spec fn probe_args_of(path: Seq<char>) -> Seq<Seq<char>> {
    seq![
        "-v"@,
        "error"@,
        "-show_entries"@,
        "format=duration"@,
        "-of"@,
        "default=noprint_wrappers=1:nokey=1"@,
        path,
    ]
}

pub fn probe_args(path: &str) -> (args: Vec<String>)
    ensures
        args.deep_view() == probe_args_of(path@),
{
    let mut args: Vec<String> = Vec::new();
    push_text(&mut args, "-v".to_string());
    push_text(&mut args, "error".to_string());
    push_text(&mut args, "-show_entries".to_string());
    push_text(&mut args, "format=duration".to_string());
    push_text(&mut args, "-of".to_string());
    push_text(&mut args, "default=noprint_wrappers=1:nokey=1".to_string());
    push_text(&mut args, path.to_string());
    assert(args.deep_view() =~= probe_args_of(path@));
    args
}

/// The arguments that every run of the encoder begins with: quiet, overwriting,
/// and with its progress written to its standard output.
pub open spec fn common_args() -> Seq<Seq<char>> {
    seq!["-hide_banner"@, "-loglevel"@, "warning"@, "-y"@, "-nostats"@, "-progress"@, "pipe:1"@]
}

fn push_common_args(args: &mut Vec<String>)
    requires
        old(args).deep_view() == Seq::<Seq<char>>::empty(),
    ensures
        final(args).deep_view() == common_args(),
{
    push_text(args, "-hide_banner".to_string());
    push_text(args, "-loglevel".to_string());
    push_text(args, "warning".to_string());
    push_text(args, "-y".to_string());
    push_text(args, "-nostats".to_string());
    push_text(args, "-progress".to_string());
    push_text(args, "pipe:1".to_string());
    assert(args.deep_view() =~= common_args());
}

/// The arguments with which a clip is cut: from `start` on, for `duration`,
/// both in seconds as the encoder reads them, without encoding anew.
pub open spec fn trim_args_of(
    input: Seq<char>,
    output: Seq<char>,
    start: Seq<char>,
    duration: Seq<char>,
) -> Seq<Seq<char>> {
    common_args() + seq![
        "-ss"@,
        start,
        "-i"@,
        input,
        "-t"@,
        duration,
        "-c"@,
        "copy"@,
        "-avoid_negative_ts"@,
        "make_zero"@,
        output,
    ]
}

pub fn trim_args(input: &str, output: &str, start: &str, duration: &str) -> (args: Vec<String>)
    ensures
        args.deep_view() == trim_args_of(input@, output@, start@, duration@),
{
    let mut args: Vec<String> = Vec::new();
    assert(args.deep_view() =~= Seq::<Seq<char>>::empty());
    push_common_args(&mut args);
    push_text(&mut args, "-ss".to_string());
    push_text(&mut args, start.to_string());
    push_text(&mut args, "-i".to_string());
    push_text(&mut args, input.to_string());
    push_text(&mut args, "-t".to_string());
    push_text(&mut args, duration.to_string());
    push_text(&mut args, "-c".to_string());
    push_text(&mut args, "copy".to_string());
    push_text(&mut args, "-avoid_negative_ts".to_string());
    push_text(&mut args, "make_zero".to_string());
    push_text(&mut args, output.to_string());
    assert(args.deep_view() =~= trim_args_of(input@, output@, start@, duration@));
    args
}

/// The arguments with which the audio of a clip is mixed: the picture is
/// copied, the audio that the filter graph gives is encoded.
pub open spec fn mix_args_of(source: Seq<char>, filter: Seq<char>, output: Seq<char>) -> Seq<
    Seq<char>,
> {
    common_args() + seq![
        "-i"@,
        source,
        "-filter_complex"@,
        filter,
        "-map"@,
        "0:v:0"@,
        "-map"@,
        "[aout]"@,
        "-c:v"@,
        "copy"@,
        "-c:a"@,
        "aac"@,
        "-b:a"@,
        "192k"@,
        "-ar"@,
        "48000"@,
        "-ac"@,
        "2"@,
        "-movflags"@,
        "+faststart"@,
        output,
    ]
}

pub fn mix_args(source: &str, filter: &str, output: &str) -> (args: Vec<String>)
    ensures
        args.deep_view() == mix_args_of(source@, filter@, output@),
{
    let mut args: Vec<String> = Vec::new();
    assert(args.deep_view() =~= Seq::<Seq<char>>::empty());
    push_common_args(&mut args);
    push_text(&mut args, "-i".to_string());
    push_text(&mut args, source.to_string());
    push_text(&mut args, "-filter_complex".to_string());
    push_text(&mut args, filter.to_string());
    push_text(&mut args, "-map".to_string());
    push_text(&mut args, "0:v:0".to_string());
    push_text(&mut args, "-map".to_string());
    push_text(&mut args, "[aout]".to_string());
    push_text(&mut args, "-c:v".to_string());
    push_text(&mut args, "copy".to_string());
    push_text(&mut args, "-c:a".to_string());
    push_text(&mut args, "aac".to_string());
    push_text(&mut args, "-b:a".to_string());
    push_text(&mut args, "192k".to_string());
    push_text(&mut args, "-ar".to_string());
    push_text(&mut args, "48000".to_string());
    push_text(&mut args, "-ac".to_string());
    push_text(&mut args, "2".to_string());
    push_text(&mut args, "-movflags".to_string());
    push_text(&mut args, "+faststart".to_string());
    push_text(&mut args, output.to_string());
    assert(args.deep_view() =~= mix_args_of(source@, filter@, output@));
    args
}

} // verus!
