use vstd::prelude::*;
use crate::text::{
    chars_of, decimal, decimal_text, find_from, is_digit, is_whitespace, join2, numeral_value,
    parse_u32, position_from, skip_whitespace, skip_whitespace_from, starts_with, text_of, trim,
    trimmed, unicode_whitespace,
};

verus! {

/// The key under which an application manifest holds the application's name.
pub open spec fn name_key() -> Seq<char> {
    "\"name\""@
}

/// The name that a line of an application manifest gives, if it is the line that
/// holds the name: trimmed, it begins with the quoted key, and the name is what
/// stands between the next two quotation marks.
pub open spec fn acf_name(line: Seq<char>) -> Option<Seq<char>> {
    let text = trimmed(line);
    if name_key().is_prefix_of(text) {
        match position_from(text, name_key().len() as int, '"') {
            Some(open) => match position_from(text, open + 1, '"') {
                Some(close) => Some(text.subrange(open + 1, close)),
                None => None,
            },
            None => None,
        }
    } else {
        None
    }
}

/// Reads the application's name from a line of its manifest.
pub fn parse_acf_name_line(line: &str) -> (name: Option<String>)
    ensures
        name.deep_view() == acf_name(line@),
{
    let text = trim(line);
    let chars = chars_of(text.as_str());
    if !starts_with(&chars, "\"name\"") {
        return None;
    }
    proof {
        reveal_strlit("\"name\"");
    }
    let open = match find_from(&chars, 6, '"') {
        Some(open) => open,
        None => {
            return None;
        },
    };
    let close = match find_from(&chars, open + 1, '"') {
        Some(close) => close,
        None => {
            return None;
        },
    };
    Some(text_of(&chars, open + 1, close))
}

/// Line `i` is the first of `lines` that gives a name.
pub open spec fn is_first_named(lines: Seq<Seq<char>>, i: int) -> bool {
    &&& 0 <= i < lines.len()
    &&& acf_name(lines[i]) is Some
    &&& forall|j: int| 0 <= j < i ==> acf_name(#[trigger] lines[j]) is None
}

/// The name that the first line of a manifest with a name gives.
pub open spec fn manifest_name(lines: Seq<Seq<char>>) -> Option<Seq<char>> {
    if exists|i: int| is_first_named(lines, i) {
        acf_name(lines[choose|i: int| is_first_named(lines, i)])
    } else {
        None
    }
}

/// Reads the application's name from the lines of its manifest.
pub fn manifest_game_name(lines: &Vec<String>) -> (name: Option<String>)
    ensures
        name.deep_view() == manifest_name(lines.deep_view()),
{
    let mut i: usize = 0;
    while i < lines.len()
        invariant
            i <= lines.len(),
            forall|j: int| 0 <= j < i ==> acf_name(#[trigger] lines.deep_view()[j]) is None,
        decreases lines.len() - i,
    {
        assert(lines.deep_view()[i as int] == lines[i as int]@);
        let found = parse_acf_name_line(lines[i].as_str());
        if found.is_some() {
            proof {
                assert(is_first_named(lines.deep_view(), i as int));
                let chosen = choose|k: int| is_first_named(lines.deep_view(), k);
                assert(chosen == i);
            }
            return found;
        }
        i = i + 1;
    }
    None
}

/// The application id that an environment entry of a process carries, if it is
/// one of the two entries that Steam sets for a game.
pub open spec fn app_id_of(entry: Seq<char>) -> Option<u32> {
    if "SteamAppId="@.is_prefix_of(entry) {
        numeral_value(entry.skip("SteamAppId="@.len() as int))
    } else if "SteamGameId="@.is_prefix_of(entry) {
        numeral_value(entry.skip("SteamGameId="@.len() as int))
    } else {
        None
    }
}

/// Reads the application id from an environment entry.
pub fn steam_app_id(entry: &str) -> (id: Option<u32>)
    ensures
        id == app_id_of(entry@),
{
    let chars = chars_of(entry);
    proof {
        reveal_strlit("SteamAppId=");
        reveal_strlit("SteamGameId=");
    }
    if starts_with(&chars, "SteamAppId=") {
        let rest = text_of(&chars, 11, chars.len());
        assert(rest@ =~= entry@.skip(11));
        parse_u32(rest.as_str())
    } else if starts_with(&chars, "SteamGameId=") {
        let rest = text_of(&chars, 12, chars.len());
        assert(rest@ =~= entry@.skip(12));
        parse_u32(rest.as_str())
    } else {
        None
    }
}

/// Where the manifest of application `app_id` lies below the Steam directory.
pub open spec fn manifest_path_of(steam_base: Seq<char>, app_id: u32) -> Seq<char> {
    steam_base + "/steamapps/appmanifest_"@ + decimal_text(app_id as nat) + ".acf"@
}

pub fn manifest_path(steam_base: &str, app_id: u32) -> (path: String)
    ensures
        path@ == manifest_path_of(steam_base@, app_id),
{
    let mut path = join2(steam_base, "/steamapps/appmanifest_");
    path.append(decimal(app_id as u64).as_str());
    path.append(".acf");
    path
}

/// The Steam directory of the user whose home is `home`: the one below
/// `.steam` where that exists, else the one below `.local/share`.
pub fn steam_base(home: &str, dot_steam_exists: bool) -> (base: String)
    ensures
        base@ == home@ + (if dot_steam_exists {
            "/.steam/steam"@
        } else {
            "/.local/share/Steam"@
        }),
{
    if dot_steam_exists {
        join2(home, "/.steam/steam")
    } else {
        join2(home, "/.local/share/Steam")
    }
}

/// Whether `name` is made of decimal digits only, as the directory of a process
/// below `/proc` is.
pub fn is_process_dir(name: &str) -> (b: bool)
    ensures
        b == (forall|i: int| 0 <= i < name@.len() ==> is_digit(#[trigger] name@[i])),
{
    for c in it: name.chars()
        invariant
            it.seq() == name@,
            forall|i: int| 0 <= i < it.index() ==> is_digit(#[trigger] name@[i]),
    {
        if !('0' <= c && c <= '9') {
            return false;
        }
    }
    true
}

/// `s` without the word it begins with.
pub open spec fn skip_word(s: Seq<char>) -> Seq<char>
    decreases s.len(),
{
    if s.len() > 0 && !unicode_whitespace(s[0]) {
        skip_word(s.drop_first())
    } else {
        s
    }
}

/// The second of the words of `s`, words being what whitespace separates.
pub open spec fn second_word(s: Seq<char>) -> Option<Seq<char>> {
    let rest = skip_whitespace(skip_word(skip_whitespace(s)));
    if rest.len() == 0 {
        None
    } else {
        Some(rest.take(rest.len() - skip_word(rest).len()))
    }
}

/// Where `chars[from..]` goes on once the word it begins with is skipped.
fn skip_word_from(chars: &Vec<char>, from: usize) -> (end: usize)
    requires
        from <= chars.len(),
    ensures
        from <= end <= chars.len(),
        skip_word(chars@.skip(from as int)) == chars@.skip(end as int),
{
    let mut i = from;
    while i < chars.len() && !is_whitespace(chars[i])
        invariant
            from <= i <= chars.len(),
            skip_word(chars@.skip(from as int)) == skip_word(chars@.skip(i as int)),
        decreases chars.len() - i,
    {
        assert(chars@.skip(i as int).drop_first() =~= chars@.skip(i + 1));
        i = i + 1;
    }
    i
}

/// The user id that a line of a process status names, if it is the line of the
/// user ids: it begins with `Uid:`, and its second word is the id.
pub open spec fn status_uid(line: Seq<char>) -> Option<u32> {
    if "Uid:"@.is_prefix_of(line) {
        match second_word(line) {
            Some(word) => numeral_value(word),
            None => None,
        }
    } else {
        None
    }
}

/// Reads the user id from a line of a process status.
pub fn parse_status_uid(line: &str) -> (uid: Option<u32>)
    ensures
        uid == status_uid(line@),
{
    let chars = chars_of(line);
    if !starts_with(&chars, "Uid:") {
        return None;
    }
    let n = chars.len();
    assert(chars@.subrange(0, n as int) =~= chars@);
    let a = skip_whitespace_from(&chars, 0, n);
    assert(chars@.subrange(a as int, n as int) =~= chars@.skip(a as int));
    let b = skip_word_from(&chars, a);
    assert(chars@.subrange(b as int, n as int) =~= chars@.skip(b as int));
    let c = skip_whitespace_from(&chars, b, n);
    assert(chars@.subrange(c as int, n as int) =~= chars@.skip(c as int));
    if c == n {
        return None;
    }
    let d = skip_word_from(&chars, c);
    let word = text_of(&chars, c, d);
    proof {
        let rest = chars@.skip(c as int);
        assert(skip_word(rest).len() == n - d);
        assert(word@ =~= rest.take(rest.len() - skip_word(rest).len()));
    }
    parse_u32(word.as_str())
}

/// Whether one of the lines of a process status says that the process belongs
/// to user `uid`.
pub fn status_names_user(lines: &Vec<String>, uid: u32) -> (owned: bool)
    ensures
        owned == (exists|i: int|
            0 <= i < lines.len() && status_uid(#[trigger] lines.deep_view()[i]) == Some(uid)),
{
    let mut i: usize = 0;
    while i < lines.len()
        invariant
            i <= lines.len(),
            forall|j: int| 0 <= j < i ==> status_uid(#[trigger] lines.deep_view()[j]) != Some(uid),
        decreases lines.len() - i,
    {
        assert(lines.deep_view()[i as int] == lines[i as int]@);
        match parse_status_uid(lines[i].as_str()) {
            Some(found) => {
                if found == uid {
                    return true;
                }
            },
            None => {},
        }
        i = i + 1;
    }
    false
}

/// The game that a clip is attributed to by default: the one that the user has
/// set, unless that is empty; else the one that was detected, if any; else none.
pub open spec fn default_game(configured: Option<Seq<char>>, detected: Option<Seq<char>>) -> Seq<
    char,
> {
    match configured {
        Some(game) if game.len() > 0 => game,
        _ => match detected {
            Some(game) => game,
            None => Seq::empty(),
        },
    }
}

pub fn detect_game_name(configured: Option<String>, detected: Option<String>) -> (game: String)
    ensures
        game@ == default_game(configured.deep_view(), detected.deep_view()),
{
    if let Some(game) = configured {
        if !game.as_str().is_empty() {
            return game;
        }
    }
    match detected {
        Some(game) => game,
        None => String::new(),
    }
}

} // verus!
