use vstd::prelude::*;

verus! {

/// Whether `c` is whitespace: one of the twenty-five characters that carry the
/// Unicode `White_Space` property.
pub open spec fn unicode_whitespace(c: char) -> bool {
    ||| ('\u{9}' <= c && c <= '\u{D}')
    ||| c == ' '
    ||| c == '\u{85}'
    ||| c == '\u{A0}'
    ||| c == '\u{1680}'
    ||| ('\u{2000}' <= c && c <= '\u{200A}')
    ||| c == '\u{2028}'
    ||| c == '\u{2029}'
    ||| c == '\u{202F}'
    ||| c == '\u{205F}'
    ||| c == '\u{3000}'
}

/// Decides whether `c` is whitespace.
pub fn is_whitespace(c: char) -> (b: bool)
    ensures
        b == unicode_whitespace(c),
{
    ('\u{9}' <= c && c <= '\u{D}') || c == ' ' || c == '\u{85}' || c == '\u{A0}' || c
        == '\u{1680}' || ('\u{2000}' <= c && c <= '\u{200A}') || c == '\u{2028}' || c
        == '\u{2029}' || c == '\u{202F}' || c == '\u{205F}' || c == '\u{3000}'
}

/// `String::push` of std: trusted to append the one character and change nothing else.
pub assume_specification[ String::push ](s: &mut String, c: char)
    ensures
        final(s)@ == old(s)@.push(c),
;

/// Whether the two texts hold the same characters.
pub fn same_text(a: &str, b: &str) -> (same: bool)
    ensures
        same == (a@ == b@),
{
    a.to_owned() == b.to_owned()
}

/// A text is blank when it holds nothing but whitespace (the empty text included).
pub open spec fn is_blank(s: Seq<char>) -> bool {
    forall|i: int| 0 <= i < s.len() ==> unicode_whitespace(#[trigger] s[i])
}

/// Decides `is_blank`.
pub fn blank(s: &str) -> (b: bool)
    ensures
        b == is_blank(s@),
{
    for c in it: s.chars()
        invariant
            it.seq() == s@,
            forall|i: int| 0 <= i < it.index() ==> unicode_whitespace(#[trigger] s@[i]),
    {
        if !is_whitespace(c) {
            return false;
        }
    }
    true
}

/// The character that writes the decimal digit `d`.
pub open spec fn digit_char(d: int) -> char {
    if d == 0 {
        '0'
    } else if d == 1 {
        '1'
    } else if d == 2 {
        '2'
    } else if d == 3 {
        '3'
    } else if d == 4 {
        '4'
    } else if d == 5 {
        '5'
    } else if d == 6 {
        '6'
    } else if d == 7 {
        '7'
    } else if d == 8 {
        '8'
    } else {
        '9'
    }
}

/// The decimal numeral of `n`, most significant digit first, without leading zeros.
pub open spec fn decimal_text(n: nat) -> Seq<char>
    decreases n,
{
    if n < 10 {
        seq![digit_char(n as int)]
    } else {
        decimal_text(n / 10).push(digit_char((n % 10) as int))
    }
}

fn digit(d: u64) -> (c: char)
    requires
        d < 10,
    ensures
        c == digit_char(d as int),
{
    if d == 0 {
        '0'
    } else if d == 1 {
        '1'
    } else if d == 2 {
        '2'
    } else if d == 3 {
        '3'
    } else if d == 4 {
        '4'
    } else if d == 5 {
        '5'
    } else if d == 6 {
        '6'
    } else if d == 7 {
        '7'
    } else if d == 8 {
        '8'
    } else {
        '9'
    }
}

/// Writes `n` as a decimal numeral.
pub fn decimal(n: u64) -> (s: String)
    ensures
        s@ == decimal_text(n as nat),
    decreases n,
{
    if n < 10 {
        let mut s = String::new();
        s.push(digit(n));
        assert(s@ =~= seq![digit_char(n as int)]);
        s
    } else {
        let mut s = decimal(n / 10);
        s.push(digit(n % 10));
        s
    }
}

/// A numeral is never empty, so no argument built from one is.
pub proof fn lemma_decimal_nonempty(n: nat)
    ensures
        decimal_text(n).len() > 0,
    decreases n,
{
    if n >= 10 {
        lemma_decimal_nonempty(n / 10);
    }
}

/// `a` followed by `b`.
pub fn join2(a: &str, b: &str) -> (s: String)
    ensures
        s@ == a@ + b@,
{
    let mut s = a.to_string();
    s.append(b);
    s
}

/// `a`, `b` and `c` in a row.
pub fn join3(a: &str, b: &str, c: &str) -> (s: String)
    ensures
        s@ == a@ + b@ + c@,
{
    let mut s = a.to_string();
    s.append(b);
    s.append(c);
    s
}

/// The lower-case form of an ASCII capital letter; any other character itself.
pub open spec fn lowercase_char(c: char) -> char {
    if 'A' <= c && c <= 'Z' {
        ((c as u8) + 32) as char
    } else {
        c
    }
}

/// `s` with every ASCII capital letter in lower case.
pub open spec fn lowercase_text(s: Seq<char>) -> Seq<char> {
    s.map_values(|c: char| lowercase_char(c))
}

/// Puts the ASCII capital letters of `s` into lower case.
pub fn ascii_lowercase(s: &str) -> (lower: String)
    ensures
        lower@ == lowercase_text(s@),
{
    let mut lower = String::new();
    for c in it: s.chars()
        invariant
            it.seq() == s@,
            lower@ == lowercase_text(s@.take(it.index())),
    {
        let l = if 'A' <= c && c <= 'Z' {
            ((c as u8) + 32) as char
        } else {
            c
        };
        lower.push(l);
        assert(lower@ =~= lowercase_text(s@.take(it.index() + 1)));
    }
    assert(s@.take(s@.len() as int) =~= s@);
    lower
}


/// The characters of `s`.
pub fn chars_of(s: &str) -> (chars: Vec<char>)
    ensures
        chars@ == s@,
{
    let mut chars: Vec<char> = Vec::new();
    for c in it: s.chars()
        invariant
            it.seq() == s@,
            chars@ == s@.take(it.index()),
    {
        chars.push(c);
        assert(chars@ =~= s@.take(it.index() + 1));
    }
    assert(s@.take(s@.len() as int) =~= s@);
    chars
}

/// The text made of the characters `from..to` of `chars`.
pub fn text_of(chars: &Vec<char>, from: usize, to: usize) -> (text: String)
    requires
        from <= to <= chars.len(),
    ensures
        text@ == chars@.subrange(from as int, to as int),
{
    let mut text = String::new();
    let mut i = from;
    while i < to
        invariant
            from <= i <= to <= chars.len(),
            text@ == chars@.subrange(from as int, i as int),
        decreases to - i,
    {
        text.push(chars[i]);
        assert(text@ =~= chars@.subrange(from as int, i + 1));
        i = i + 1;
    }
    text
}

/// `s` without the whitespace it begins with.
pub open spec fn skip_whitespace(s: Seq<char>) -> Seq<char>
    decreases s.len(),
{
    if s.len() > 0 && unicode_whitespace(s[0]) {
        skip_whitespace(s.drop_first())
    } else {
        s
    }
}

/// `s` without the whitespace it ends with.
pub open spec fn drop_trailing_whitespace(s: Seq<char>) -> Seq<char>
    decreases s.len(),
{
    if s.len() > 0 && unicode_whitespace(s.last()) {
        drop_trailing_whitespace(s.drop_last())
    } else {
        s
    }
}

/// `s` without the whitespace around it.
pub open spec fn trimmed(s: Seq<char>) -> Seq<char> {
    drop_trailing_whitespace(skip_whitespace(s))
}

/// Where the text of `chars[from..to]` begins once the whitespace before it is skipped.
pub(crate) fn skip_whitespace_from(chars: &Vec<char>, from: usize, to: usize) -> (start: usize)
    requires
        from <= to <= chars.len(),
    ensures
        from <= start <= to,
        skip_whitespace(chars@.subrange(from as int, to as int)) == chars@.subrange(
            start as int,
            to as int,
        ),
{
    let mut i = from;
    while i < to && is_whitespace(chars[i])
        invariant
            from <= i <= to <= chars.len(),
            skip_whitespace(chars@.subrange(from as int, to as int)) == skip_whitespace(
                chars@.subrange(i as int, to as int),
            ),
        decreases to - i,
    {
        assert(chars@.subrange(i as int, to as int).drop_first() =~= chars@.subrange(
            i + 1,
            to as int,
        ));
        i = i + 1;
    }
    i
}

/// Where the text of `chars[from..to]` ends once the whitespace behind it is dropped.
pub(crate) fn drop_whitespace_before(chars: &Vec<char>, from: usize, to: usize) -> (end: usize)
    requires
        from <= to <= chars.len(),
    ensures
        from <= end <= to,
        drop_trailing_whitespace(chars@.subrange(from as int, to as int)) == chars@.subrange(
            from as int,
            end as int,
        ),
{
    let mut j = to;
    while j > from && is_whitespace(chars[j - 1])
        invariant
            from <= j <= to <= chars.len(),
            drop_trailing_whitespace(chars@.subrange(from as int, to as int))
                == drop_trailing_whitespace(chars@.subrange(from as int, j as int)),
        decreases j - from,
    {
        assert(chars@.subrange(from as int, j as int).drop_last() =~= chars@.subrange(
            from as int,
            j - 1,
        ));
        j = j - 1;
    }
    j
}

/// `s` without the whitespace around it.
pub fn trim(s: &str) -> (text: String)
    ensures
        text@ == trimmed(s@),
{
    let chars = chars_of(s);
    let start = skip_whitespace_from(&chars, 0, chars.len());
    let end = drop_whitespace_before(&chars, start, chars.len());
    assert(chars@.subrange(0, chars.len() as int) =~= chars@);
    text_of(&chars, start, end)
}

/// A text is blank exactly when nothing is left of it once it is trimmed.
pub proof fn lemma_blank_iff_trimmed_empty(s: Seq<char>)
    ensures
        is_blank(s) <==> trimmed(s).len() == 0,
    decreases s.len(),
{
    if s.len() > 0 {
        if unicode_whitespace(s[0]) {
            lemma_blank_iff_trimmed_empty(s.drop_first());
            let rest = s.drop_first();
            if is_blank(rest) {
                assert forall|i: int| 0 <= i < s.len() implies unicode_whitespace(#[trigger] s[i]) by {
                    if i > 0 {
                        assert(s[i] == rest[i - 1]);
                    }
                }
            } else {
                let k = choose|k: int| 0 <= k < rest.len() && !unicode_whitespace(#[trigger] rest[k]);
                assert(s[k + 1] == rest[k]);
            }
        } else {
            assert(skip_whitespace(s) == s);
            lemma_trailing_keeps_first(s);
        }
    }
}

/// Dropping trailing whitespace never takes away a first character that is none.
proof fn lemma_trailing_keeps_first(s: Seq<char>)
    requires
        s.len() > 0,
        !unicode_whitespace(s[0]),
    ensures
        drop_trailing_whitespace(s).len() > 0,
    decreases s.len(),
{
    if unicode_whitespace(s.last()) {
        assert(s.len() > 1);
        assert(s.drop_last()[0] == s[0]);
        lemma_trailing_keeps_first(s.drop_last());
    }
}


/// Whether `chars` begins with `prefix`.
pub fn starts_with(chars: &Vec<char>, prefix: &str) -> (b: bool)
    ensures
        b == prefix@.is_prefix_of(chars@),
{
    let wanted = chars_of(prefix);
    if wanted.len() > chars.len() {
        return false;
    }
    let mut i: usize = 0;
    while i < wanted.len()
        invariant
            i <= wanted.len() <= chars.len(),
            wanted@ == prefix@,
            forall|j: int| 0 <= j < i ==> chars@[j] == wanted@[j],
        decreases wanted.len() - i,
    {
        if chars[i] != wanted[i] {
            assert(chars@.subrange(0, wanted@.len() as int)[i as int] != wanted@[i as int]);
            return false;
        }
        i = i + 1;
    }
    assert(wanted@ =~= chars@.subrange(0, wanted@.len() as int));
    true
}

/// `i` is the first place at or after `from` where `c` stands in `s`.
pub open spec fn is_first_at(s: Seq<char>, from: int, c: char, i: int) -> bool {
    &&& from <= i < s.len()
    &&& s[i] == c
    &&& forall|j: int| from <= j < i ==> s[j] != c
}

/// The first place at or after `from` where `c` stands in `s`.
pub open spec fn position_from(s: Seq<char>, from: int, c: char) -> Option<int> {
    if exists|i: int| is_first_at(s, from, c, i) {
        Some(choose|i: int| is_first_at(s, from, c, i))
    } else {
        None
    }
}

/// Finds the first `c` in `chars` at or after `from`.
pub fn find_from(chars: &Vec<char>, from: usize, c: char) -> (found: Option<usize>)
    ensures
        match found {
            Some(i) => position_from(chars@, from as int, c) == Some(i as int) && from <= i
                < chars.len() && chars@[i as int] == c,
            None => position_from(chars@, from as int, c) is None,
        },
{
    let mut i = from;
    while i < chars.len()
        invariant
            from <= i,
            forall|j: int| from <= j < i && j < chars.len() ==> chars@[j] != c,
        decreases chars.len() - i,
    {
        if chars[i] == c {
            proof {
                assert(is_first_at(chars@, from as int, c, i as int));
                let chosen = choose|k: int| is_first_at(chars@, from as int, c, k);
                assert(chosen == i);
            }
            return Some(i);
        }
        i = i + 1;
    }
    None
}

/// Whether `c` is one of the ten decimal digits.
pub open spec fn is_digit(c: char) -> bool {
    '0' <= c && c <= '9'
}

/// The number that the decimal digits `digits` write; leading zeros count for nothing.
pub open spec fn digits_value(digits: Seq<char>) -> nat
    decreases digits.len(),
{
    if digits.len() == 0 {
        0
    } else {
        digits_value(digits.drop_last()) * 10 + ((digits.last() as u32) - ('0' as u32)) as nat
    }
}

/// Whether `s` is a numeral as `u32` reads it: digits only, at least one, with
/// one plus sign before them at most.
pub open spec fn is_numeral(s: Seq<char>) -> bool {
    let digits = numeral_digits(s);
    digits.len() > 0 && forall|i: int| 0 <= i < digits.len() ==> is_digit(#[trigger] digits[i])
}

/// The digits of a numeral: all of it but a leading plus sign.
pub open spec fn numeral_digits(s: Seq<char>) -> Seq<char> {
    if s.len() > 0 && s[0] == '+' {
        s.drop_first()
    } else {
        s
    }
}

/// The number that `s` writes, where it is a numeral whose value fits 32 bits.
pub open spec fn numeral_value(s: Seq<char>) -> Option<u32> {
    if is_numeral(s) && digits_value(numeral_digits(s)) <= u32::MAX {
        Some(digits_value(numeral_digits(s)) as u32)
    } else {
        None
    }
}

/// The value of digits never shrinks as digits are added.
proof fn lemma_digits_value_grows(digits: Seq<char>, k: int)
    requires
        0 <= k <= digits.len(),
        forall|i: int| 0 <= i < digits.len() ==> is_digit(#[trigger] digits[i]),
    ensures
        digits_value(digits.take(k)) <= digits_value(digits),
    decreases digits.len() - k,
{
    if k < digits.len() {
        lemma_digits_value_grows(digits, k + 1);
        assert(digits.take(k + 1).drop_last() =~= digits.take(k));
        assert(digits.take(k + 1).last() == digits[k]);
    } else {
        assert(digits.take(k) =~= digits);
    }
}

/// Reads a decimal numeral as `u32` reads it.
pub fn parse_u32(s: &str) -> (value: Option<u32>)
    ensures
        value == numeral_value(s@),
{
    let chars = chars_of(s);
    let start: usize = if chars.len() > 0 && chars[0] == '+' {
        1
    } else {
        0
    };
    let ghost digits = numeral_digits(s@);
    assert(digits =~= chars@.subrange(start as int, chars.len() as int));
    if start == chars.len() {
        return None;
    }
    let mut value: u32 = 0;
    let mut i = start;
    assert(digits.take(0) =~= Seq::<char>::empty());
    while i < chars.len()
        invariant
            start <= i <= chars.len(),
            digits == numeral_digits(s@),
            digits == chars@.subrange(start as int, chars.len() as int),
            forall|j: int| 0 <= j < i - start ==> is_digit(#[trigger] digits[j]),
            value == digits_value(digits.take(i - start)),
        decreases chars.len() - i,
    {
        let c = chars[i];
        assert(digits[i - start] == c);
        if !('0' <= c && c <= '9') {
            assert(!is_digit(digits[i - start]));
            return None;
        }
        let d = (c as u32) - ('0' as u32);
        let ghost next = digits.take(i - start + 1);
        proof {
            assert(next.drop_last() =~= digits.take(i - start));
            assert(next.last() == c);
        }
        if value > (u32::MAX - d) / 10 {
            proof {
                assert(digits_value(next) > u32::MAX) by (nonlinear_arith)
                    requires
                        digits_value(next) == value * 10 + d,
                        value > (u32::MAX - d) / 10,
                        d < 10,
                ;
                if is_numeral(s@) {
                    lemma_digits_value_grows(digits, i - start + 1);
                    assert(digits_value(digits) > u32::MAX);
                }
            }
            return None;
        }
        assert(value * 10 + d <= u32::MAX) by (nonlinear_arith)
            requires
                value <= (u32::MAX - d) / 10,
                d < 10,
        ;
        value = value * 10 + d;
        i = i + 1;
    }
    assert(digits.take(digits.len() as int) =~= digits);
    Some(value)
}


/// The texts of `parts` in a row, with `sep` between each two.
pub open spec fn joined_texts(parts: Seq<Seq<char>>, sep: Seq<char>) -> Seq<char>
    decreases parts.len(),
{
    if parts.len() == 0 {
        Seq::empty()
    } else if parts.len() == 1 {
        parts[0]
    } else {
        joined_texts(parts.drop_last(), sep) + sep + parts.last()
    }
}

/// Joins `parts` with `sep` between each two.
pub fn join_texts(parts: &Vec<String>, sep: &str) -> (text: String)
    ensures
        text@ == joined_texts(parts.deep_view(), sep@),
{
    let mut text = String::new();
    let mut i: usize = 0;
    assert(parts.deep_view().take(0) =~= Seq::<Seq<char>>::empty());
    while i < parts.len()
        invariant
            i <= parts.len(),
            text@ == joined_texts(parts.deep_view().take(i as int), sep@),
        decreases parts.len() - i,
    {
        let ghost next = parts.deep_view().take(i + 1);
        proof {
            assert(next.drop_last() =~= parts.deep_view().take(i as int));
            assert(next.last() == parts[i as int]@);
            if i == 0 {
                assert(next[0] == parts[0]@);
            }
        }
        if i > 0 {
            text.append(sep);
        }
        text.append(parts[i].as_str());
        proof {
            if i == 0 {
                assert(text@ =~= parts[0]@);
            }
        }
        i = i + 1;
    }
    assert(parts.deep_view().take(parts.len() as int) =~= parts.deep_view());
    text
}

/// Whether two texts are the same but for the case of their ASCII letters.
pub fn same_ignoring_case(a: &str, b: &str) -> (same: bool)
    ensures
        same == (lowercase_text(a@) == lowercase_text(b@)),
{
    same_text(ascii_lowercase(a).as_str(), ascii_lowercase(b).as_str())
}


/// The lower-case form of `s`, as `str::to_lowercase` gives it.
pub uninterp spec fn unicode_lowercase(s: Seq<char>) -> Seq<char>;

/// `str::to_lowercase` of std: trusted to be a function of the text alone,
/// which `unicode_lowercase` names.
#[verifier::external_body]
pub(crate) fn to_lowercase(s: &str) -> (lower: String)
    ensures
        lower@ == unicode_lowercase(s@),
{
    s.to_lowercase()
}

/// The pieces into which the separator `sep` cuts `s`; there is always one
/// piece more than there are separators.
pub open spec fn pieces(s: Seq<char>, sep: char) -> Seq<Seq<char>>
    decreases s.len(),
{
    if s.len() == 0 {
        seq![Seq::empty()]
    } else {
        let before = pieces(s.drop_last(), sep);
        if s.last() == sep {
            before.push(Seq::empty())
        } else {
            before.drop_last().push(before.last().push(s.last()))
        }
    }
}

/// There is always a piece.
pub proof fn lemma_pieces_nonempty(s: Seq<char>, sep: char)
    ensures
        pieces(s, sep).len() > 0,
    decreases s.len(),
{
    if s.len() > 0 {
        lemma_pieces_nonempty(s.drop_last(), sep);
    }
}

/// Cuts `s` at each `sep`.
pub fn split(s: &str, sep: char) -> (parts: Vec<String>)
    ensures
        parts.deep_view() == pieces(s@, sep),
{
    let mut done: Vec<String> = Vec::new();
    let mut current = String::new();
    proof {
        assert(s@.take(0) =~= Seq::<char>::empty());
        assert(done.deep_view().push(current@) =~= seq![Seq::<char>::empty()]);
    }
    for c in it: s.chars()
        invariant
            it.seq() == s@,
            done.deep_view().push(current@) == pieces(s@.take(it.index()), sep),
    {
        let ghost before = pieces(s@.take(it.index()), sep);
        let ghost next = s@.take(it.index() + 1);
        proof {
            assert(next.drop_last() =~= s@.take(it.index()));
            assert(next.last() == c);
            assert(before.drop_last() =~= done.deep_view());
            assert(before.last() == current@);
        }
        if c == sep {
            let ghost finished = current@;
            done.push(current);
            current = String::new();
            proof {
                assert(done.deep_view() =~= before);
                assert(done.deep_view().push(current@) =~= before.push(Seq::empty()));
            }
        } else {
            current.push(c);
            proof {
                assert(done.deep_view().push(current@) =~= before.drop_last().push(
                    before.last().push(c),
                ));
            }
        }
    }
    proof {
        assert(s@.take(s@.len() as int) =~= s@);
    }
    let ghost all = done.deep_view().push(current@);
    done.push(current);
    assert(done.deep_view() =~= all);
    done
}

/// Whether `pattern` stands in `s` at `i`.
pub open spec fn stands_at(s: Seq<char>, pattern: Seq<char>, i: int) -> bool {
    0 <= i <= s.len() - pattern.len() && s.subrange(i, i + pattern.len()) == pattern
}

/// `i` is the first place where `pattern` stands in `s`.
pub open spec fn is_first_occurrence(s: Seq<char>, pattern: Seq<char>, i: int) -> bool {
    &&& stands_at(s, pattern, i)
    &&& forall|j: int| 0 <= j < i ==> !#[trigger] stands_at(s, pattern, j)
}

/// The first place where `pattern` stands in `s`.
pub open spec fn first_occurrence(s: Seq<char>, pattern: Seq<char>) -> Option<int> {
    if exists|i: int| is_first_occurrence(s, pattern, i) {
        Some(choose|i: int| is_first_occurrence(s, pattern, i))
    } else {
        None
    }
}

/// Whether `pattern` stands in `chars` at `at`.
fn matches_at(chars: &Vec<char>, pattern: &Vec<char>, at: usize) -> (b: bool)
    requires
        at + pattern.len() <= chars.len(),
    ensures
        b == stands_at(chars@, pattern@, at as int),
{
    let mut k: usize = 0;
    while k < pattern.len()
        invariant
            k <= pattern.len(),
            at + pattern.len() <= chars.len(),
            forall|j: int| 0 <= j < k ==> chars@[at + j] == pattern@[j],
        decreases pattern.len() - k,
    {
        if chars[at + k] != pattern[k] {
            assert(chars@.subrange(at as int, at + pattern.len())[k as int] != pattern@[k as int]);
            return false;
        }
        k = k + 1;
    }
    assert(chars@.subrange(at as int, at + pattern.len()) =~= pattern@);
    true
}

/// Finds the first place where `pattern` stands in `chars`.
pub fn find_text(chars: &Vec<char>, pattern: &str) -> (found: Option<usize>)
    ensures
        match found {
            Some(i) => first_occurrence(chars@, pattern@) == Some(i as int) && i + pattern@.len()
                <= chars.len(),
            None => first_occurrence(chars@, pattern@) is None,
        },
{
    let wanted = chars_of(pattern);
    if wanted.len() > chars.len() {
        return None;
    }
    if wanted.len() == 0 {
        proof {
            assert(chars@.subrange(0, 0) =~= pattern@);
            assert(is_first_occurrence(chars@, pattern@, 0));
            let chosen = choose|k: int| is_first_occurrence(chars@, pattern@, k);
            assert(chosen == 0);
        }
        return Some(0);
    }
    let last = chars.len() - wanted.len();
    let mut i: usize = 0;
    while i <= last
        invariant
            i <= last + 1,
            wanted.len() > 0,
            last == chars.len() - wanted.len(),
            wanted@ == pattern@,
            forall|j: int| 0 <= j < i ==> !#[trigger] stands_at(chars@, wanted@, j),
        decreases last + 1 - i,
    {
        if matches_at(chars, &wanted, i) {
            proof {
                assert(is_first_occurrence(chars@, pattern@, i as int));
                let chosen = choose|k: int| is_first_occurrence(chars@, pattern@, k);
                assert(chosen == i);
            }
            return Some(i);
        }
        i = i + 1;
    }
    None
}


} // verus!
