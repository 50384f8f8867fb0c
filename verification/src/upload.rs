use vstd::prelude::*;
use crate::capture::push_text;
use crate::text::{
    blank, chars_of, find_text, first_occurrence, is_blank, join2, text_of, trim, trimmed,
};

verus! {

/// What the `regex` crate finds of group `group` of the first match of the
/// regular expression `pattern` in `text`: nothing at all where `pattern` is no
/// regular expression; else the text of the group, or none where the pattern
/// matches nowhere in `text`, has no such group, or matched without it.
pub uninterp spec fn regex_group(pattern: Seq<char>, group: usize, text: Seq<char>) -> Option<
    Option<Seq<char>>,
>;

/// `regex::Regex::new`, `Regex::captures`, `Captures::get` and `Match::as_str`,
/// in a row: trusted to give the same for the same pattern, group and text,
/// which `regex_group` names. A pattern that does not compile gives `None`.
#[verifier::external_body]
fn capture_group(pattern: &str, group: usize, text: &str) -> (found: Option<Option<String>>)
    ensures
        found.deep_view() == regex_group(pattern@, group, text@),
{
    match regex::Regex::new(pattern) {
        Ok(re) => Some(
            re.captures(text).and_then(|caps| caps.get(group)).map(|m| m.as_str().to_string()),
        ),
        Err(_) => None,
    }
}

/// The pattern of a percentage: a number of up to three digits, a fraction at
/// will, and a percent sign; the number is its first group.
pub open spec fn percent_pattern() -> Seq<char> {
    "(\\d{1,3}(?:\\.\\d+)?)%"@
}

/// The number of the first percentage that stands in `line`, as it is written:
/// the first group of the first match of the percentage pattern.
pub open spec fn percent_capture(line: Seq<char>) -> Option<Seq<char>> {
    match regex_group(percent_pattern(), 1, line) {
        Some(found) => found,
        None => None,
    }
}

fn percent_in(line: &str) -> (text: Option<String>)
    ensures
        text.deep_view() == percent_capture(line@),
{
    match capture_group("(\\d{1,3}(?:\\.\\d+)?)%", 1, line) {
        Some(found) => found,
        None => None,
    }
}

/// The arguments with which the upload tool is started.
pub open spec fn upload_args_of(
    processed_path: Seq<char>,
    title_with_game: Seq<char>,
    game_label: Seq<char>,
    secrets_path: Seq<char>,
    cache_path: Seq<char>,
) -> Seq<Seq<char>> {
    seq![
        "-filename"@,
        processed_path,
        "-title"@,
        title_with_game,
        "-privacy"@,
        "unlisted"@,
        "-description"@,
        "Game: "@ + game_label,
        "-secrets"@,
        secrets_path,
        "-cache"@,
        cache_path,
    ]
}

pub fn upload_args(
    processed_path: &str,
    title_with_game: &str,
    game_label: &str,
    secrets_path: &str,
    cache_path: &str,
) -> (args: Vec<String>)
    ensures
        args.deep_view() == upload_args_of(
            processed_path@,
            title_with_game@,
            game_label@,
            secrets_path@,
            cache_path@,
        ),
{
    let mut args: Vec<String> = Vec::new();
    push_text(&mut args, "-filename".to_string());
    push_text(&mut args, processed_path.to_string());
    push_text(&mut args, "-title".to_string());
    push_text(&mut args, title_with_game.to_string());
    push_text(&mut args, "-privacy".to_string());
    push_text(&mut args, "unlisted".to_string());
    push_text(&mut args, "-description".to_string());
    push_text(&mut args, join2("Game: ", game_label));
    push_text(&mut args, "-secrets".to_string());
    push_text(&mut args, secrets_path.to_string());
    push_text(&mut args, "-cache".to_string());
    push_text(&mut args, cache_path.to_string());
    assert(args.deep_view() =~= upload_args_of(
        processed_path@,
        title_with_game@,
        game_label@,
        secrets_path@,
        cache_path@,
    ));
    args
}

/// What a line of the upload tool's output says.
#[derive(Debug, PartialEq, Eq)]
pub enum UploadReport {
    /// Nothing to show.
    Quiet,
    /// So many percent are uploaded; the number is given as the tool wrote it.
    Percent { text: String },
    /// Something else, to be shown as it is.
    Note { detail: String },
}

pub enum UploadReportView {
    Quiet,
    Percent { text: Seq<char> },
    Note { detail: Seq<char> },
}

impl View for UploadReport {
    type V = UploadReportView;

    open spec fn view(&self) -> UploadReportView {
        match self {
            UploadReport::Quiet => UploadReportView::Quiet,
            UploadReport::Percent { text } => UploadReportView::Percent { text: text@ },
            UploadReport::Note { detail } => UploadReportView::Note { detail: detail@ },
        }
    }
}

/// A line of output, taken in.
#[derive(Debug, PartialEq, Eq)]
pub struct UploadLine {
    /// The line as it enters the record of the output; an empty line enters nothing.
    pub kept: Option<String>,
    pub report: UploadReport,
}

pub struct UploadLineView {
    pub kept: Option<Seq<char>>,
    pub report: UploadReportView,
}

impl View for UploadLine {
    type V = UploadLineView;

    open spec fn view(&self) -> UploadLineView {
        UploadLineView { kept: self.kept.deep_view(), report: self.report@ }
    }
}

/// `line` without the carriage return it may end with.
pub open spec fn without_carriage_return(line: Seq<char>) -> Seq<char> {
    if line.len() > 0 && line.last() == '\r' {
        line.drop_last()
    } else {
        line
    }
}

/// What a line of the upload tool's output means: an empty line nothing; any
/// other is kept, without a carriage return at its end, and says the progress
/// where a percentage stands in it, or else itself where it is not blank.
pub open spec fn upload_line(raw: Seq<char>) -> UploadLineView {
    if raw.len() == 0 {
        UploadLineView { kept: None, report: UploadReportView::Quiet }
    } else {
        let line = without_carriage_return(raw);
        UploadLineView {
            kept: Some(line),
            report: match percent_capture(line) {
                Some(text) => UploadReportView::Percent { text },
                None => if is_blank(line) {
                    UploadReportView::Quiet
                } else {
                    UploadReportView::Note { detail: "Upload: "@ + trimmed(line) }
                },
            },
        }
    }
}

/// Takes in one line of the upload tool's output.
pub fn read_upload_line(raw: &str) -> (line: UploadLine)
    ensures
        line@ == upload_line(raw@),
{
    if raw.is_empty() {
        return UploadLine { kept: None, report: UploadReport::Quiet };
    }
    let chars = chars_of(raw);
    let end = if chars[chars.len() - 1] == '\r' {
        chars.len() - 1
    } else {
        chars.len()
    };
    let kept = text_of(&chars, 0, end);
    assert(kept@ =~= without_carriage_return(raw@));
    let report = match percent_in(kept.as_str()) {
        Some(text) => UploadReport::Percent { text },
        None => {
            if blank(kept.as_str()) {
                UploadReport::Quiet
            } else {
                UploadReport::Note { detail: join2("Upload: ", trim(kept.as_str()).as_str()) }
            }
        },
    };
    UploadLine { kept: Some(kept), report }
}

/// The marker behind which the upload tool names the video.
pub open spec fn id_marker() -> Seq<char> {
    "Video ID:"@
}

/// The video id that a line names: what stands behind the first marker, trimmed.
pub open spec fn line_video_id(line: Seq<char>) -> Option<Seq<char>> {
    match first_occurrence(line, id_marker()) {
        Some(at) => Some(trimmed(line.skip(at + id_marker().len()))),
        None => None,
    }
}

/// Line `i` is the last of `lines` that names a video.
pub open spec fn is_last_with_id(lines: Seq<Seq<char>>, i: int) -> bool {
    &&& 0 <= i < lines.len()
    &&& line_video_id(lines[i]) is Some
    &&& forall|j: int| i < j < lines.len() ==> line_video_id(#[trigger] lines[j]) is None
}

/// The video id that the output names: the one of the last line that names one.
pub open spec fn output_video_id(lines: Seq<Seq<char>>) -> Option<Seq<char>> {
    if exists|i: int| is_last_with_id(lines, i) {
        line_video_id(lines[choose|i: int| is_last_with_id(lines, i)])
    } else {
        None
    }
}

fn video_id_in_line(line: &str) -> (id: Option<String>)
    ensures
        id.deep_view() == line_video_id(line@),
{
    let chars = chars_of(line);
    proof {
        reveal_strlit("Video ID:");
    }
    match find_text(&chars, "Video ID:") {
        Some(at) => {
            let rest = text_of(&chars, at + 9, chars.len());
            assert(rest@ =~= line@.skip(at + 9));
            Some(trim(rest.as_str()))
        },
        None => None,
    }
}

/// Finds the id of the uploaded video in the lines of the upload tool's output.
pub fn video_id(lines: &Vec<String>) -> (id: Option<String>)
    ensures
        id.deep_view() == output_video_id(lines.deep_view()),
{
    let mut i = lines.len();
    while i > 0
        invariant
            i <= lines.len(),
            forall|j: int|
                i <= j < lines.len() ==> line_video_id(#[trigger] lines.deep_view()[j]) is None,
        decreases i,
    {
        i = i - 1;
        assert(lines.deep_view()[i as int] == lines[i as int]@);
        let found = video_id_in_line(lines[i].as_str());
        if found.is_some() {
            proof {
                assert(is_last_with_id(lines.deep_view(), i as int));
                let chosen = choose|k: int| is_last_with_id(lines.deep_view(), k);
                assert(chosen == i);
            }
            return found;
        }
    }
    None
}

/// Line `i` is the last of `lines` that is not blank.
pub open spec fn is_last_telling(lines: Seq<Seq<char>>, i: int) -> bool {
    &&& 0 <= i < lines.len()
    &&& !is_blank(lines[i])
    &&& forall|j: int| i < j < lines.len() ==> is_blank(#[trigger] lines[j])
}

/// What is shown when the upload tool failed: its last line that is not blank,
/// trimmed, behind the words that it failed.
pub open spec fn failure_detail_of(lines: Seq<Seq<char>>) -> Option<Seq<char>> {
    if exists|i: int| is_last_telling(lines, i) {
        Some("Upload failed: "@ + trimmed(lines[choose|i: int| is_last_telling(lines, i)]))
    } else {
        None
    }
}

pub fn failure_detail(lines: &Vec<String>) -> (detail: Option<String>)
    ensures
        detail.deep_view() == failure_detail_of(lines.deep_view()),
{
    let mut i = lines.len();
    while i > 0
        invariant
            i <= lines.len(),
            forall|j: int| i <= j < lines.len() ==> is_blank(#[trigger] lines.deep_view()[j]),
        decreases i,
    {
        i = i - 1;
        assert(lines.deep_view()[i as int] == lines[i as int]@);
        if !blank(lines[i].as_str()) {
            proof {
                assert(is_last_telling(lines.deep_view(), i as int));
                let chosen = choose|k: int| is_last_telling(lines.deep_view(), k);
                assert(chosen == i);
            }
            return Some(join2("Upload failed: ", trim(lines[i].as_str()).as_str()));
        }
    }
    None
}

/// The lines of `lines[..upto]`, each with a line feed behind it.
pub open spec fn output_of(lines: Seq<Seq<char>>, upto: int) -> Seq<char>
    decreases upto,
{
    if upto <= 0 {
        Seq::empty()
    } else {
        output_of(lines, upto - 1) + lines[upto - 1].push('\n')
    }
}

/// The record of the output as one text.
pub fn output_text(lines: &Vec<String>) -> (text: String)
    ensures
        text@ == output_of(lines.deep_view(), lines.len() as int),
{
    let mut text = String::new();
    let mut i: usize = 0;
    while i < lines.len()
        invariant
            i <= lines.len(),
            text@ == output_of(lines.deep_view(), i as int),
        decreases lines.len() - i,
    {
        assert(lines.deep_view()[i as int] == lines[i as int]@);
        let ghost before = text@;
        text.append(lines[i].as_str());
        text.push('\n');
        assert(text@ =~= before + lines[i as int]@.push('\n'));
        i = i + 1;
    }
    text
}

} // verus!
