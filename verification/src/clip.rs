use vstd::prelude::*;
use crate::paths::{
    extension, extension_of, file_stem, file_stem_of, join, joined_path, parent, parent_of,
    with_file_name, with_file_name_of,
};
use crate::failed_uploads::{FailedUpload, FailedUploadView};
use crate::text::{decimal, decimal_text, is_whitespace, join2, join3, unicode_whitespace};

verus! {

/// The characters that may not stand in a file name.
pub open spec fn is_forbidden(c: char) -> bool {
    c == '/' || c == '\\' || c == ':' || c == '*' || c == '?' || c == '"' || c == '<' || c == '>'
        || c == '|' || c == '\0'
}

/// `s` with its words one space apart and nothing around them: each character
/// that is no whitespace is kept, with one space before it where whitespace
/// separates it from what was kept before.
pub open spec fn squeezed(s: Seq<char>) -> Seq<char>
    decreases s.len(),
{
    if s.len() == 0 {
        Seq::empty()
    } else {
        let before = squeezed(s.drop_last());
        if unicode_whitespace(s.last()) {
            before
        } else if before.len() > 0 && unicode_whitespace(s[s.len() - 2]) {
            before.push(' ').push(s.last())
        } else {
            before.push(s.last())
        }
    }
}

/// The name that is used where a title leaves nothing usable.
pub open spec fn fallback_title() -> Seq<char> {
    "clip"@
}

/// The text that a title or game name contributes to a file name: without the
/// forbidden characters, its words one space apart, and `clip` where that
/// leaves nothing.
pub open spec fn sanitized(value: Seq<char>) -> Seq<char> {
    let cleaned = squeezed(value.filter(|c: char| !is_forbidden(c)));
    if cleaned.len() == 0 {
        fallback_title()
    } else {
        cleaned
    }
}

fn forbidden(c: char) -> (b: bool)
    ensures
        b == is_forbidden(c),
{
    c == '/' || c == '\\' || c == ':' || c == '*' || c == '?' || c == '"' || c == '<' || c == '>'
        || c == '|' || c == '\0'
}

/// What is left of a text holds no forbidden character.
pub proof fn lemma_squeezed_is_clean(s: Seq<char>)
    requires
        forall|i: int| 0 <= i < s.len() ==> !is_forbidden(#[trigger] s[i]),
    ensures
        forall|i: int| 0 <= i < squeezed(s).len() ==> !is_forbidden(#[trigger] squeezed(s)[i]),
    decreases s.len(),
{
    if s.len() > 0 {
        let rest = s.drop_last();
        assert forall|i: int| 0 <= i < rest.len() implies !is_forbidden(#[trigger] rest[i]) by {
            assert(rest[i] == s[i]);
        }
        lemma_squeezed_is_clean(rest);
        let before = squeezed(rest);
        let last = s.last();
        assert(!is_forbidden(last));
        assert(!is_forbidden(' '));
        assert forall|i: int| 0 <= i < squeezed(s).len() implies !is_forbidden(
            #[trigger] squeezed(s)[i],
        ) by {
            if i < before.len() {
                assert(squeezed(s)[i] == before[i]);
            }
        }
    }
}

/// A sanitized text is never empty and holds no forbidden character, so it can
/// stand in a file name.
pub proof fn lemma_sanitized_is_usable(value: Seq<char>)
    ensures
        sanitized(value).len() > 0,
        forall|i: int| 0 <= i < sanitized(value).len() ==> !is_forbidden(
            #[trigger] sanitized(value)[i],
        ),
{
    let allowed = |c: char| !is_forbidden(c);
    let kept = value.filter(allowed);
    assert forall|i: int| 0 <= i < kept.len() implies !is_forbidden(#[trigger] kept[i]) by {
        value.lemma_filter_pred(allowed, i);
    }
    lemma_squeezed_is_clean(kept);
    reveal_strlit("clip");
}

/// Makes a title or game name fit for a file name.
pub fn sanitize_text(value: &str) -> (text: String)
    ensures
        text@ == sanitized(value@),
        text@.len() > 0,
        forall|i: int| 0 <= i < text@.len() ==> !is_forbidden(#[trigger] text@[i]),
{
    proof {
        lemma_sanitized_is_usable(value@);
    }
    let ghost allowed = |c: char| !is_forbidden(c);
    let mut text = String::new();
    let mut gap = false;
    let ghost mut kept = Seq::<char>::empty();
    proof {
        reveal(Seq::filter);
        assert(value@.take(0) =~= Seq::<char>::empty());
    }
    for c in it: value.chars()
        invariant
            it.seq() == value@,
            allowed == (|c: char| !is_forbidden(c)),
            kept == value@.take(it.index()).filter(allowed),
            text@ == squeezed(kept),
            gap == (kept.len() > 0 && unicode_whitespace(kept.last())),
    {
        proof {
            reveal(Seq::filter);
            let next = value@.take(it.index() + 1);
            assert(next.drop_last() =~= value@.take(it.index()));
            assert(next.last() == c);
        }
        if !forbidden(c) {
            let ghost grown = kept.push(c);
            proof {
                assert(grown.drop_last() =~= kept);
                assert(grown.last() == c);
                if kept.len() > 0 {
                    assert(grown[grown.len() - 2] == kept.last());
                }
            }
            if is_whitespace(c) {
                gap = true;
            } else {
                if gap && !text.as_str().is_empty() {
                    text.push(' ');
                }
                text.push(c);
                gap = false;
            }
            proof {
                kept = grown;
            }
        }
    }
    proof {
        assert(value@.take(value@.len() as int) =~= value@);
    }
    if text.as_str().is_empty() {
        "clip".to_string()
    } else {
        text
    }
}

/// How many numbered names are tried before the search for a free one is given up.
pub const MAX_ATTEMPTS: u32 = 9999;

/// The stem that stands in where a path has none.
pub open spec fn stem_or_clip(stem: Option<Seq<char>>) -> Seq<char> {
    match stem {
        Some(stem) => stem,
        None => "clip"@,
    }
}

/// The stem of `path`, or the one that stands in where it has none.
pub open spec fn stem_or_default(path: Seq<char>) -> Seq<char> {
    stem_or_clip(file_stem_of(path))
}

/// The numbered name for attempt `attempt` of a file with this stem and this
/// extension: the stem, a hyphen, the number, and the extension where there is one.
pub open spec fn numbered_name_from(
    stem: Option<Seq<char>>,
    extension: Option<Seq<char>>,
    attempt: nat,
) -> Seq<char> {
    let head = stem_or_clip(stem) + "-"@ + decimal_text(attempt);
    match extension {
        Some(ext) => head + "."@ + ext,
        None => head,
    }
}

/// The numbered name that is tried for `path` at attempt `attempt`.
pub open spec fn numbered_name(path: Seq<char>, attempt: nat) -> Seq<char> {
    numbered_name_from(file_stem_of(path), extension_of(path), attempt)
}

/// The directory into which a numbered name is put: the parent of the path,
/// unless it has none or an empty one, in which case the name stands alone.
pub open spec fn sibling_dir_of(parent: Option<Seq<char>>) -> Option<Seq<char>> {
    match parent {
        Some(dir) if dir.len() > 0 => Some(dir),
        _ => None,
    }
}

/// The path that is tried at attempt `attempt`: the path itself at first, then
/// its numbered names beside it.
pub open spec fn candidate(path: Seq<char>, attempt: nat) -> Seq<char> {
    if attempt == 0 {
        path
    } else {
        match sibling_dir_of(parent_of(path)) {
            Some(dir) => joined_path(dir, numbered_name(path, attempt)),
            None => numbered_name(path, attempt),
        }
    }
}

/// Every numbered name was tried and is taken.
#[derive(Debug, PartialEq, Eq)]
pub struct NoUniquePath {
    pub attempts: u32,
}

impl NoUniquePath {
    pub fn message(&self) -> (text: String)
        ensures
            text@ == "failed to find unique path after "@ + decimal_text(self.attempts as nat)
                + " attempts"@,
    {
        join3("failed to find unique path after ", decimal(self.attempts as u64).as_str(), " attempts")
    }
}

/// Writes the numbered name for attempt `attempt` of a file with this stem and
/// this extension.
pub fn numbered_file_name(stem: Option<String>, extension: Option<String>, attempt: u32) -> (name:
    String)
    ensures
        name@ == numbered_name_from(stem.deep_view(), extension.deep_view(), attempt as nat),
{
    let stem = match stem {
        Some(stem) => stem,
        None => "clip".to_string(),
    };
    let mut name = join3(stem.as_str(), "-", decimal(attempt as u64).as_str());
    match extension {
        Some(ext) => {
            name.append(".");
            name.append(ext.as_str());
        },
        None => {},
    }
    name
}

/// The directory into which a numbered name is put, given the parent of the path.
pub fn sibling_dir(parent: Option<String>) -> (dir: Option<String>)
    ensures
        dir.deep_view() == sibling_dir_of(parent.deep_view()),
{
    match parent {
        Some(dir) => {
            if dir.as_str().is_empty() {
                None
            } else {
                Some(dir)
            }
        },
        None => None,
    }
}

/// The path tried at attempt `attempt`.
pub fn path_candidate(path: &str, attempt: u32) -> (tried: String)
    ensures
        tried@ == candidate(path@, attempt as nat),
{
    if attempt == 0 {
        return path.to_string();
    }
    let name = numbered_file_name(file_stem(path), extension(path), attempt);
    match sibling_dir(parent(path)) {
        Some(dir) => join(dir.as_str(), name.as_str()),
        None => name,
    }
}

/// `is_taken` was asked about the candidate of attempt `attempt` and gave `answer`.
pub open spec fn answered<F: Fn(&str) -> bool>(
    is_taken: F,
    path: Seq<char>,
    attempt: nat,
    answer: bool,
) -> bool {
    exists|asked: &str| asked@ == candidate(path, attempt) && is_taken.ensures((asked,), answer)
}

/// The first of the candidates for `path` that `is_taken` says is free: the
/// path itself, or else its numbered name with the least number. `is_taken` is
/// asked about each candidate in turn, and about none after the first free one.
pub fn unique_path<F: Fn(&str) -> bool>(path: &str, is_taken: F) -> (result: Result<
    String,
    NoUniquePath,
>)
    requires
        forall|p: &str| is_taken.requires((p,)),
    ensures
        match result {
            Ok(free) => exists|attempt: nat|
                {
                    &&& attempt <= MAX_ATTEMPTS
                    &&& free@ == candidate(path@, attempt)
                    &&& #[trigger] answered(is_taken, path@, attempt, false)
                    &&& forall|earlier: nat|
                        earlier < attempt ==> #[trigger] answered(is_taken, path@, earlier, true)
                },
            Err(error) => {
                &&& error.attempts == MAX_ATTEMPTS
                &&& forall|attempt: nat|
                    attempt <= MAX_ATTEMPTS ==> #[trigger] answered(is_taken, path@, attempt, true)
            },
        },
{
    let mut attempt: u32 = 0;
    while attempt <= MAX_ATTEMPTS
        invariant
            attempt <= MAX_ATTEMPTS + 1,
            forall|p: &str| is_taken.requires((p,)),
            forall|earlier: nat|
                earlier < attempt ==> #[trigger] answered(is_taken, path@, earlier, true),
        decreases MAX_ATTEMPTS + 1 - attempt,
    {
        let tried = path_candidate(path, attempt);
        let taken = is_taken(tried.as_str());
        assert(answered(is_taken, path@, attempt as nat, taken));
        if !taken {
            return Ok(tried);
        }
        attempt = attempt + 1;
    }
    Err(NoUniquePath { attempts: MAX_ATTEMPTS })
}

/// The name of the clip with the mixed audio, for a source with this stem and
/// this extension: the stem with `_transformed` behind it, and the extension;
/// `clip` and `mp4` where the source has none.
pub open spec fn transformed_name_from(stem: Option<Seq<char>>, extension: Option<Seq<char>>) -> Seq<
    char,
> {
    stem_or_clip(stem) + "_transformed."@ + (match extension {
        Some(ext) => ext,
        None => "mp4"@,
    })
}

/// Where the clip with the mixed audio is written: beside the source, under
/// the source's stem with `_transformed` behind it, and with its extension.
pub open spec fn transformed_path_of(source: Seq<char>) -> Seq<char> {
    with_file_name_of(
        source,
        transformed_name_from(file_stem_of(source), extension_of(source)),
    )
}

/// Writes the name of the clip with the mixed audio.
pub fn transformed_file_name(stem: Option<String>, extension: Option<String>) -> (name: String)
    ensures
        name@ == transformed_name_from(stem.deep_view(), extension.deep_view()),
{
    let stem = match stem {
        Some(stem) => stem,
        None => "clip".to_string(),
    };
    let ext = match extension {
        Some(ext) => ext,
        None => "mp4".to_string(),
    };
    join3(stem.as_str(), "_transformed.", ext.as_str())
}

pub fn transformed_path(source: &str) -> (path: String)
    ensures
        path@ == transformed_path_of(source@),
{
    let name = transformed_file_name(file_stem(source), extension(source));
    with_file_name(source, name.as_str())
}

/// Where the cut clip is written, given the parent directory and the stem of
/// the source: beside the source, under the stem with `_trimmed.mp4` behind
/// it. A source without a parent directory or without a stem has no such place.
#[derive(Debug, PartialEq, Eq)]
pub enum TrimPlace {
    Beside { dir: String, name: String },
    Nowhere { reason: String },
}

pub enum TrimPlaceView {
    Beside { dir: Seq<char>, name: Seq<char> },
    Nowhere { reason: Seq<char> },
}

impl View for TrimPlace {
    type V = TrimPlaceView;

    open spec fn view(&self) -> TrimPlaceView {
        match self {
            TrimPlace::Beside { dir, name } => TrimPlaceView::Beside { dir: dir@, name: name@ },
            TrimPlace::Nowhere { reason } => TrimPlaceView::Nowhere { reason: reason@ },
        }
    }
}

pub open spec fn trim_place_of(parent: Option<Seq<char>>, stem: Option<Seq<char>>) -> TrimPlaceView {
    match parent {
        None => TrimPlaceView::Nowhere { reason: "source file has no parent directory"@ },
        Some(dir) => match stem {
            None => TrimPlaceView::Nowhere { reason: "source file has no stem"@ },
            Some(stem) => TrimPlaceView::Beside { dir, name: stem + "_trimmed.mp4"@ },
        },
    }
}

pub fn trim_place(parent: Option<String>, stem: Option<String>) -> (place: TrimPlace)
    ensures
        place@ == trim_place_of(parent.deep_view(), stem.deep_view()),
{
    match parent {
        None => TrimPlace::Nowhere { reason: "source file has no parent directory".to_string() },
        Some(dir) => match stem {
            None => TrimPlace::Nowhere { reason: "source file has no stem".to_string() },
            Some(stem) => TrimPlace::Beside { dir, name: join2(stem.as_str(), "_trimmed.mp4") },
        },
    }
}

/// Where the two files of a finished clip go.
#[derive(Debug, PartialEq, Eq)]
pub struct Destination {
    /// The directory that holds both.
    pub dir: String,
    /// Where the finished clip is wished to lie.
    pub processed: String,
    /// Where the raw capture is wished to lie.
    pub raw: String,
}

pub struct DestinationView {
    pub dir: Seq<char>,
    pub processed: Seq<char>,
    pub raw: Seq<char>,
}

impl View for Destination {
    type V = DestinationView;

    open spec fn view(&self) -> DestinationView {
        DestinationView { dir: self.dir@, processed: self.processed@, raw: self.raw@ }
    }
}

impl DeepView for Destination {
    type V = DestinationView;

    open spec fn deep_view(&self) -> DestinationView {
        self@
    }
}

/// The destination of a clip under the name `folder`: a directory of that name
/// below the directory of processed clips, the finished clip in it under the
/// same name, the raw capture under the bare title.
pub open spec fn destination_of(
    processed_dir: Seq<char>,
    folder: Seq<char>,
    safe_title: Seq<char>,
) -> DestinationView {
    let dir = joined_path(processed_dir, folder);
    DestinationView {
        dir,
        processed: joined_path(dir, folder + ".mp4"@),
        raw: joined_path(dir, safe_title + "_raw.mp4"@),
    }
}

fn destination(processed_dir: &str, folder: &str, safe_title: &str) -> (dest: Destination)
    ensures
        dest@ == destination_of(processed_dir@, folder@, safe_title@),
{
    let dir = join(processed_dir, folder);
    let processed = join(dir.as_str(), join2(folder, ".mp4").as_str());
    let raw = join(dir.as_str(), join2(safe_title, "_raw.mp4").as_str());
    Destination { dir, processed, raw }
}

/// Where a clip goes that is kept without an upload.
pub fn move_destination(processed_dir: &str, title_with_game: &str, safe_title: &str) -> (dest:
    Destination)
    ensures
        dest@ == destination_of(processed_dir@, title_with_game@, safe_title@),
{
    destination(processed_dir, title_with_game, safe_title)
}

/// Where a clip goes that was uploaded as video `video_id`: as one that was
/// not, but with the video's id in brackets behind the name.
pub fn upload_destination(
    processed_dir: &str,
    title_with_game: &str,
    safe_title: &str,
    video_id: &str,
) -> (dest: Destination)
    ensures
        dest@ == destination_of(
            processed_dir@,
            title_with_game@ + " ["@ + video_id@ + "]"@,
            safe_title@,
        ),
{
    let mut folder = join3(title_with_game, " [", video_id);
    folder.append("]");
    destination(processed_dir, folder.as_str(), safe_title)
}

/// Where the files of a failed upload go once a later try went through as video
/// `video_id`: where the clip would have gone had its first upload gone through.
pub open spec fn retry_destination_of(
    processed_dir: Seq<char>,
    upload: FailedUploadView,
    video_id: Seq<char>,
) -> DestinationView {
    destination_of(
        processed_dir,
        upload.display_name() + " ["@ + video_id + "]"@,
        upload.title,
    )
}

pub fn retry_destination(processed_dir: &str, upload: &FailedUpload, video_id: &str) -> (dest:
    Destination)
    ensures
        dest@ == retry_destination_of(processed_dir@, upload@, video_id@),
        dest@ == destination_of(
            processed_dir@,
            upload@.display_name() + " ["@ + video_id@ + "]"@,
            upload@.title,
        ),
{
    upload_destination(
        processed_dir,
        upload.display_name().as_str(),
        upload.title.as_str(),
        video_id,
    )
}

/// The two names under which a clip is first put into the directory of
/// processed clips: the raw capture, then the finished clip.
pub fn finalised_names(processed_dir: &str, safe_title: &str) -> (names: (String, String))
    ensures
        names.0@ == joined_path(processed_dir@, safe_title@ + "_full.mp4"@),
        names.1@ == joined_path(processed_dir@, safe_title@ + ".mp4"@),
{
    (
        join(processed_dir, join2(safe_title, "_full.mp4").as_str()),
        join(processed_dir, join2(safe_title, ".mp4").as_str()),
    )
}


} // verus!
