//! Text as a sequence of characters: the searching, trimming, splitting and
//! joining that configuration values and stream bodies need.
//!
//! Every executable function here is stated against a specification function on
//! `Seq<char>`, so that callers reason about the characters of a text and never
//! about its encoding.
use vstd::prelude::*;

verus! {

/// `String::push` appends the given character to the end of the text.
pub assume_specification[ String::push ](s: &mut String, c: char)
    ensures
        final(s)@ == old(s)@.push(c),
;

/// `==` on two texts holds exactly when they have the same characters in the
/// same order.
pub assume_specification[ <str as PartialEq<str>>::eq ](s: &str, other: &str) -> (r: bool)
    ensures
        r == (s@ == other@),
;

// ---------------------------------------------------------------------------
// Specification functions
// ---------------------------------------------------------------------------

/// The characters with the Unicode property `White_Space`.
pub open spec fn is_whitespace(c: char) -> bool {
    let n = c as u32;
    ||| 0x9 <= n <= 0xD
    ||| n == 0x20
    ||| n == 0x85
    ||| n == 0xA0
    ||| n == 0x1680
    ||| 0x2000 <= n <= 0x200A
    ||| n == 0x2028
    ||| n == 0x2029
    ||| n == 0x202F
    ||| n == 0x205F
    ||| n == 0x3000
}

/// The bytes of a character in UTF-8.
pub open spec fn utf8_width(c: char) -> nat {
    if (c as u32) < 0x80 {
        1
    } else if (c as u32) < 0x800 {
        2
    } else if (c as u32) < 0x10000 {
        3
    } else {
        4
    }
}

/// The bytes of a text in UTF-8.
pub open spec fn utf8_len(s: Seq<char>) -> nat
    decreases s.len(),
{
    if s.len() == 0 {
        0
    } else {
        utf8_len(s.drop_last()) + utf8_width(s.last())
    }
}

/// Some character of the text is white space.
pub open spec fn has_whitespace(s: Seq<char>) -> bool {
    exists|i: int| 0 <= i < s.len() && is_whitespace(#[trigger] s[i])
}

/// The text without its leading white space.
pub open spec fn trimmed_start(s: Seq<char>) -> Seq<char>
    decreases s.len(),
{
    if s.len() > 0 && is_whitespace(s[0]) {
        trimmed_start(s.drop_first())
    } else {
        s
    }
}

/// The text without its trailing white space.
pub open spec fn trimmed_end(s: Seq<char>) -> Seq<char>
    decreases s.len(),
{
    if s.len() > 0 && is_whitespace(s.last()) {
        trimmed_end(s.drop_last())
    } else {
        s
    }
}

/// The text without leading and trailing white space.
pub open spec fn trimmed(s: Seq<char>) -> Seq<char> {
    trimmed_end(trimmed_start(s))
}

/// Nothing but white space, or nothing at all.
pub open spec fn is_blank(s: Seq<char>) -> bool {
    trimmed(s).len() == 0
}

/// The text without the occurrences of `c` at its end.
pub open spec fn without_trailing(s: Seq<char>, c: char) -> Seq<char>
    decreases s.len(),
{
    if s.len() > 0 && s.last() == c {
        without_trailing(s.drop_last(), c)
    } else {
        s
    }
}

/// `prefix` is how `s` begins.
pub open spec fn begins_with(s: Seq<char>, prefix: Seq<char>) -> bool {
    prefix.len() <= s.len() && s.subrange(0, prefix.len() as int) == prefix
}

/// What follows `prefix` in `s`, where `s` begins with it.
pub open spec fn after_prefix(s: Seq<char>, prefix: Seq<char>) -> Option<Seq<char>> {
    if begins_with(s, prefix) {
        Some(s.subrange(prefix.len() as int, s.len() as int))
    } else {
        None
    }
}

/// The position of the first occurrence of `needle` in `s`.
pub open spec fn position_of(s: Seq<char>, needle: Seq<char>) -> Option<int>
    decreases s.len(),
{
    if begins_with(s, needle) {
        Some(0)
    } else if s.len() == 0 {
        None
    } else {
        match position_of(s.drop_first(), needle) {
            Some(i) => Some(i + 1),
            None => None,
        }
    }
}

/// `needle` occurs in `s`.
pub open spec fn has(s: Seq<char>, needle: Seq<char>) -> bool {
    position_of(s, needle) is Some
}

/// The parts of `s` before and after the first occurrence of `separator`.
pub open spec fn cut(s: Seq<char>, separator: Seq<char>) -> Option<(Seq<char>, Seq<char>)> {
    match position_of(s, separator) {
        Some(i) => Some((s.subrange(0, i), s.subrange(i + separator.len(), s.len() as int))),
        None => None,
    }
}

/// A line's text once its line feed is gone: one carriage return before the
/// line feed goes with it.
pub open spec fn without_return(line: Seq<char>) -> Seq<char> {
    if line.len() > 0 && line.last() == '\r' {
        line.drop_last()
    } else {
        line
    }
}

/// The lines of a text. A line ends at a line feed, with or without a carriage
/// return before it; what follows the last line feed is a line if it is not
/// empty, and keeps a carriage return at its end.
pub open spec fn lines(s: Seq<char>) -> Seq<Seq<char>>
    decreases s.len(),
{
    if s.len() == 0 {
        Seq::empty()
    } else {
        match position_of(s, seq!['\n']) {
            Some(i) => if 0 <= i < s.len() {
                seq![without_return(s.subrange(0, i))] + lines(s.subrange(i + 1, s.len() as int))
            } else {
                seq![s]
            },
            None => seq![s],
        }
    }
}

/// The pieces of `s` between the occurrences of the character `separator`:
/// always at least one.
pub open spec fn pieces(s: Seq<char>, separator: char) -> Seq<Seq<char>>
    decreases s.len(),
{
    match position_of(s, seq![separator]) {
        Some(i) => if 0 <= i < s.len() {
            seq![s.subrange(0, i)] + pieces(s.subrange(i + 1, s.len() as int), separator)
        } else {
            seq![s]
        },
        None => seq![s],
    }
}

/// The parts one after the other, with `separator` between two of them.
pub open spec fn joined(parts: Seq<Seq<char>>, separator: Seq<char>) -> Seq<char>
    decreases parts.len(),
{
    if parts.len() == 0 {
        Seq::empty()
    } else if parts.len() == 1 {
        parts[0]
    } else {
        joined(parts.drop_last(), separator) + separator + parts.last()
    }
}

/// No text of the list is empty.
pub open spec fn all_filled(texts: Seq<Seq<char>>) -> bool {
    forall|i: int| 0 <= i < texts.len() ==> (#[trigger] texts[i]).len() > 0
}

/// The characters of each text of a list.
pub open spec fn views(texts: Seq<String>) -> Seq<Seq<char>> {
    texts.map_values(|t: String| t@)
}

/// The view of an optional text.
pub open spec fn view_of(text: Option<String>) -> Option<Seq<char>> {
    match text {
        Some(t) => Some(t@),
        None => None,
    }
}

/// `A` to `Z` as `a` to `z`; every other character as it is.
pub open spec fn ascii_lower(c: char) -> char {
    if 'A' <= c <= 'Z' {
        ((c as u8) + 32) as u8 as char
    } else {
        c
    }
}

/// The two texts are the same up to the case of ASCII letters.
pub open spec fn same_ignoring_ascii_case(a: Seq<char>, b: Seq<char>) -> bool {
    a.len() == b.len() && forall|i: int|
        0 <= i < a.len() ==> ascii_lower(#[trigger] a[i]) == ascii_lower(b[i])
}

/// The character of a decimal digit.
pub open spec fn digit(n: nat) -> char {
    (('0' as u8) + n) as u8 as char
}

/// A number in decimal digits, without leading zeros.
pub open spec fn decimal(n: nat) -> Seq<char>
    decreases n,
{
    if n < 10 {
        seq![digit(n)]
    } else {
        decimal(n / 10).push(digit(n % 10))
    }
}

/// An integer in decimal digits, after a minus sign where it is negative.
pub open spec fn signed_decimal(n: int) -> Seq<char> {
    if n < 0 {
        seq!['-'] + decimal((-n) as nat)
    } else {
        decimal(n as nat)
    }
}

// ---------------------------------------------------------------------------
// Executable functions
// ---------------------------------------------------------------------------

/// The characters of a text.
pub fn chars_of(s: &str) -> (chars: Vec<char>)
    ensures
        chars@ == s@,
{
    let mut chars: Vec<char> = Vec::new();
    for c in it: s.chars()
        invariant
            it.seq() == s@,
            chars@ == s@.subrange(0, it.index() as int),
    {
        proof {
            assert(s@.subrange(0, it.index() as int + 1) =~= s@.subrange(
                0,
                it.index() as int,
            ).push(c));
        }
        chars.push(c);
    }
    proof {
        assert(s@.subrange(0, s@.len() as int) =~= s@);
    }
    chars
}

/// The text made of the characters from `from` up to `to`.
pub fn text_of(chars: &Vec<char>, from: usize, to: usize) -> (text: String)
    requires
        from <= to <= chars@.len(),
    ensures
        text@ == chars@.subrange(from as int, to as int),
{
    let mut text = String::new();
    let mut i: usize = from;
    while i < to
        invariant
            from <= i <= to <= chars@.len(),
            text@ == chars@.subrange(from as int, i as int),
        decreases to - i,
    {
        proof {
            assert(chars@.subrange(from as int, i as int + 1) =~= chars@.subrange(
                from as int,
                i as int,
            ).push(chars@[i as int]));
        }
        text.push(chars[i]);
        i += 1;
    }
    text
}

/// Whether a character is white space.
pub fn is_whitespace_char(c: char) -> (yes: bool)
    ensures
        yes == is_whitespace(c),
{
    let n: u32 = c as u32;
    (0x9 <= n && n <= 0xD) || n == 0x20 || n == 0x85 || n == 0xA0 || n == 0x1680 || (0x2000 <= n
        && n <= 0x200A) || n == 0x2028 || n == 0x2029 || n == 0x202F || n == 0x205F || n == 0x3000
}

/// The text without its leading white space.
pub fn trim_start(s: &str) -> (text: String)
    ensures
        text@ == trimmed_start(s@),
{
    let chars = chars_of(s);
    let mut from: usize = 0;
    proof {
        assert(s@.subrange(0, s@.len() as int) =~= s@);
    }
    while from < chars.len() && is_whitespace_char(chars[from])
        invariant
            from <= chars@.len(),
            chars@ == s@,
            trimmed_start(s@) == trimmed_start(s@.subrange(from as int, s@.len() as int)),
        decreases chars@.len() - from,
    {
        proof {
            assert(s@.subrange(from as int, s@.len() as int).drop_first() =~= s@.subrange(
                from as int + 1,
                s@.len() as int,
            ));
        }
        from += 1;
    }
    text_of(&chars, from, chars.len())
}

/// The text without leading and trailing white space.
pub fn trim(s: &str) -> (text: String)
    ensures
        text@ == trimmed(s@),
{
    let started = trim_start(s);
    let chars = chars_of(started.as_str());
    let mut to: usize = chars.len();
    proof {
        assert(chars@.subrange(0, chars@.len() as int) =~= chars@);
    }
    while to > 0 && is_whitespace_char(chars[to - 1])
        invariant
            to <= chars@.len(),
            trimmed_end(chars@) == trimmed_end(chars@.subrange(0, to as int)),
        decreases to,
    {
        proof {
            assert(chars@.subrange(0, to as int).drop_last() =~= chars@.subrange(0, to as int - 1));
        }
        to -= 1;
    }
    text_of(&chars, 0, to)
}

/// Whether a text holds nothing but white space.
pub fn is_blank_text(s: &str) -> (yes: bool)
    ensures
        yes == is_blank(s@),
{
    let text = trim(s);
    text.as_str().is_empty()
}

/// The text without the occurrences of `c` at its end.
pub fn trim_end_char(s: &str, c: char) -> (text: String)
    ensures
        text@ == without_trailing(s@, c),
{
    let chars = chars_of(s);
    let mut to: usize = chars.len();
    proof {
        assert(chars@.subrange(0, chars@.len() as int) =~= chars@);
    }
    while to > 0 && chars[to - 1] == c
        invariant
            to <= chars@.len(),
            without_trailing(chars@, c) == without_trailing(chars@.subrange(0, to as int), c),
        decreases to,
    {
        proof {
            assert(chars@.subrange(0, to as int).drop_last() =~= chars@.subrange(0, to as int - 1));
        }
        to -= 1;
    }
    text_of(&chars, 0, to)
}

/// Whether two texts are the same.
pub fn same(a: &str, b: &str) -> (yes: bool)
    ensures
        yes == (a@ == b@),
{
    a.eq(b)
}

/// Whether `needle` stands in `chars` from `at` on.
fn occurs_at(chars: &Vec<char>, needle: &Vec<char>, at: usize) -> (yes: bool)
    requires
        at <= chars@.len(),
    ensures
        yes == begins_with(chars@.subrange(at as int, chars@.len() as int), needle@),
{
    let ghost rest = chars@.subrange(at as int, chars@.len() as int);
    let total: usize = chars.len();
    if needle.len() > total - at {
        return false;
    }
    let mut i: usize = 0;
    while i < needle.len()
        invariant
            i <= needle@.len() <= rest.len(),
            total == chars@.len(),
            at + rest.len() == chars@.len(),
            rest == chars@.subrange(at as int, chars@.len() as int),
            rest.subrange(0, i as int) == needle@.subrange(0, i as int),
        decreases needle@.len() - i,
    {
        if chars[at + i] != needle[i] {
            proof {
                assert(rest.subrange(0, needle@.len() as int)[i as int] != needle@[i as int]);
            }
            return false;
        }
        proof {
            assert(rest.subrange(0, i as int + 1) =~= rest.subrange(0, i as int).push(
                rest[i as int],
            ));
            assert(needle@.subrange(0, i as int + 1) =~= needle@.subrange(0, i as int).push(
                needle@[i as int],
            ));
        }
        i += 1;
    }
    proof {
        assert(needle@.subrange(0, needle@.len() as int) =~= needle@);
    }
    true
}

/// Whether `s` begins with `prefix`.
pub fn starts_with(s: &str, prefix: &str) -> (yes: bool)
    ensures
        yes == begins_with(s@, prefix@),
{
    let chars = chars_of(s);
    let wanted = chars_of(prefix);
    proof {
        assert(chars@.subrange(0, chars@.len() as int) =~= chars@);
    }
    occurs_at(&chars, &wanted, 0)
}

/// What follows `prefix` in `s`, where `s` begins with it.
pub fn strip_prefix(s: &str, prefix: &str) -> (rest: Option<String>)
    ensures
        view_of(rest) == after_prefix(s@, prefix@),
{
    let chars = chars_of(s);
    let wanted = chars_of(prefix);
    proof {
        assert(chars@.subrange(0, chars@.len() as int) =~= chars@);
    }
    if occurs_at(&chars, &wanted, 0) {
        Some(text_of(&chars, wanted.len(), chars.len()))
    } else {
        None
    }
}

/// What is left of a text without its trailing white space is how the text begins, and
/// has no white space at its end.
proof fn lemma_trimmed_end(s: Seq<char>)
    ensures
        trimmed_end(s).len() <= s.len(),
        trimmed_end(s) == s.take(trimmed_end(s).len() as int),
        trimmed_end(trimmed_end(s)) == trimmed_end(s),
    decreases s.len(),
{
    if s.len() > 0 && is_whitespace(s.last()) {
        lemma_trimmed_end(s.drop_last());
        let n = trimmed_end(s).len() as int;
        assert(s.drop_last().take(n) =~= s.take(n));
    } else {
        assert(s.take(s.len() as int) =~= s);
    }
}

/// A text without its leading white space has none at its start.
proof fn lemma_trimmed_start(s: Seq<char>)
    ensures
        trimmed_start(s).len() > 0 ==> !is_whitespace(trimmed_start(s)[0]),
    decreases s.len(),
{
    if s.len() > 0 && is_whitespace(s[0]) {
        lemma_trimmed_start(s.drop_first());
    }
}

/// A text without white space around it stays as it is when it is trimmed.
pub proof fn lemma_trimmed_twice(s: Seq<char>)
    ensures
        trimmed(trimmed(s)) == trimmed(s),
{
    let started = trimmed_start(s);
    lemma_trimmed_start(s);
    lemma_trimmed_end(started);
    if trimmed(s).len() > 0 {
        assert(trimmed(s)[0] == started[0]);
    }
}

/// A text that is not empty has bytes.
pub proof fn lemma_some_bytes(s: Seq<char>)
    requires
        s.len() > 0,
    ensures
        utf8_len(s) > 0,
{
}

/// Texts that are not empty are not empty together.
pub proof fn lemma_joined_is_filled(parts: Seq<Seq<char>>, separator: Seq<char>)
    requires
        parts.len() > 0,
        all_filled(parts),
    ensures
        joined(parts, separator).len() > 0,
{
    assert(parts[parts.len() - 1].len() > 0);
}

/// Two lists without empty texts, one behind the other.
pub proof fn lemma_filled_lists(a: Seq<Seq<char>>, b: Seq<Seq<char>>)
    requires
        all_filled(a),
        all_filled(b),
    ensures
        all_filled(a + b),
{
    assert forall|i: int| 0 <= i < (a + b).len() implies (#[trigger] (a + b)[i]).len() > 0 by {
        if i < a.len() {
            assert((a + b)[i] == a[i]);
        } else {
            assert((a + b)[i] == b[i - a.len()]);
        }
    }
}

/// Where an occurrence stands, and that it fits.
pub proof fn lemma_position_of(s: Seq<char>, needle: Seq<char>)
    ensures
        match position_of(s, needle) {
            Some(i) => 0 <= i && i + needle.len() <= s.len() && s.subrange(i, i + needle.len())
                == needle,
            None => true,
        },
    decreases s.len(),
{
    if begins_with(s, needle) {
    } else if s.len() > 0 {
        lemma_position_of(s.drop_first(), needle);
        if let Some(i) = position_of(s.drop_first(), needle) {
            assert(s.subrange(i + 1, i + 1 + needle.len()) =~= s.drop_first().subrange(
                i,
                i + needle.len(),
            ));
        }
    }
}

/// More text behind does not move the first occurrence.
pub proof fn lemma_position_stays(s: Seq<char>, more: Seq<char>, needle: Seq<char>)
    requires
        has(s, needle),
    ensures
        position_of(s + more, needle) == position_of(s, needle),
    decreases s.len(),
{
    let whole = s + more;
    lemma_position_of(s, needle);
    if begins_with(s, needle) {
        assert(whole.subrange(0, needle.len() as int) =~= s.subrange(0, needle.len() as int));
    } else {
        assert(whole.subrange(0, needle.len() as int) =~= s.subrange(0, needle.len() as int));
        assert(whole.drop_first() =~= s.drop_first() + more);
        lemma_position_stays(s.drop_first(), more, needle);
    }
}

/// What occurs in the end of a text occurs in the text.
pub proof fn lemma_has_behind(before: Seq<char>, s: Seq<char>, needle: Seq<char>)
    requires
        has(s, needle),
    ensures
        has(before + s, needle),
    decreases before.len(),
{
    let whole = before + s;
    if before.len() == 0 {
        assert(whole =~= s);
    } else {
        assert(whole.drop_first() =~= before.drop_first() + s);
        lemma_has_behind(before.drop_first(), s, needle);
    }
}

/// The position of the first occurrence of `needle` in `chars`.
pub fn find_in(chars: &Vec<char>, needle: &Vec<char>) -> (found: Option<usize>)
    ensures
        match found {
            Some(i) => position_of(chars@, needle@) == Some(i as int) && i + needle@.len()
                <= chars@.len(),
            None => position_of(chars@, needle@) is None,
        },
{
    let mut i: usize = 0;
    proof {
        assert(chars@.subrange(0, chars@.len() as int) =~= chars@);
    }
    loop
        invariant
            i <= chars@.len(),
            position_of(chars@, needle@) == (match position_of(
                chars@.subrange(i as int, chars@.len() as int),
                needle@,
            ) {
                Some(j) => Some(j + i),
                None => None::<int>,
            }),
        decreases chars@.len() - i,
    {
        let ghost rest = chars@.subrange(i as int, chars@.len() as int);
        if occurs_at(chars, needle, i) {
            proof {
                lemma_position_of(chars@, needle@);
            }
            return Some(i);
        }
        if i == chars.len() {
            return None;
        }
        proof {
            assert(rest.drop_first() =~= chars@.subrange(i as int + 1, chars@.len() as int));
        }
        i += 1;
    }
}

/// Whether `needle` occurs in `s`.
pub fn contains(s: &str, needle: &str) -> (yes: bool)
    ensures
        yes == has(s@, needle@),
{
    let chars = chars_of(s);
    let wanted = chars_of(needle);
    find_in(&chars, &wanted).is_some()
}

/// The parts of `s` before and after the first occurrence of `separator`.
pub fn split_once(s: &str, separator: &str) -> (parts: Option<(String, String)>)
    ensures
        match parts {
            Some((before, after)) => cut(s@, separator@) == Some((before@, after@)),
            None => cut(s@, separator@) is None,
        },
{
    let chars = chars_of(s);
    let wanted = chars_of(separator);
    let total: usize = chars.len();
    match find_in(&chars, &wanted) {
        Some(i) => {
            let before = text_of(&chars, 0, i);
            let after = text_of(&chars, i + wanted.len(), total);
            Some((before, after))
        },
        None => None,
    }
}

/// The lines of a text.
pub fn lines_of(s: &str) -> (list: Vec<String>)
    ensures
        views(list@) == lines(s@),
{
    let chars = chars_of(s);
    let mut list: Vec<String> = Vec::new();
    let mut start: usize = 0;
    let mut newline: Vec<char> = Vec::new();
    newline.push('\n');
    proof {
        assert(newline@ =~= seq!['\n']);
        assert(s@.subrange(0, s@.len() as int) =~= s@);
        assert(views(list@) =~= Seq::<Seq<char>>::empty());
        assert(Seq::<Seq<char>>::empty() + lines(s@) =~= lines(s@));
    }
    while start < chars.len()
        invariant
            start <= chars@.len(),
            chars@ == s@,
            newline@ == seq!['\n'],
            views(list@) + lines(s@.subrange(start as int, s@.len() as int)) == lines(s@),
        decreases chars@.len() - start,
    {
        let ghost rest = s@.subrange(start as int, s@.len() as int);
        let ghost before = views(list@);
        let tail = text_of(&chars, start, chars.len());
        let tail_chars = chars_of(tail.as_str());
        match find_in(&tail_chars, &newline) {
            Some(i) => {
                let mut end: usize = i;
                if i > 0 && tail_chars[i - 1] == '\r' {
                    end = i - 1;
                }
                let line = text_of(&tail_chars, 0, end);
                proof {
                    assert(rest.subrange(0, i as int).len() == i);
                    if i > 0 {
                        assert(rest.subrange(0, i as int).last() == rest[i - 1]);
                        assert(rest.subrange(0, i as int).drop_last() =~= rest.subrange(
                            0,
                            i as int - 1,
                        ));
                    }
                    assert(line@ == without_return(rest.subrange(0, i as int)));
                    assert(rest.subrange(i as int + 1, rest.len() as int) =~= s@.subrange(
                        start + i + 1,
                        s@.len() as int,
                    ));
                    assert(views(list@.push(line)) =~= before.push(line@));
                    assert(before.push(line@) + lines(
                        s@.subrange(start + i + 1, s@.len() as int),
                    ) =~= before + (seq![line@] + lines(
                        s@.subrange(start + i + 1, s@.len() as int),
                    )));
                }
                list.push(line);
                start = start + i + 1;
            },
            None => {
                proof {
                    assert(views(list@.push(tail)) =~= before.push(tail@));
                    assert(s@.subrange(s@.len() as int, s@.len() as int) =~= Seq::<char>::empty());
                    assert(before.push(tail@) + lines(Seq::<char>::empty()) =~= before + seq![
                        tail@,
                    ]);
                }
                list.push(tail);
                start = chars.len();
            },
        }
    }
    proof {
        assert(s@.subrange(s@.len() as int, s@.len() as int) =~= Seq::<char>::empty());
        assert(views(list@) + Seq::<Seq<char>>::empty() =~= views(list@));
    }
    list
}

/// The pieces of `s` between the occurrences of the character `separator`.
pub fn split_char(s: &str, separator: char) -> (list: Vec<String>)
    ensures
        views(list@) == pieces(s@, separator),
        list@.len() > 0,
{
    let chars = chars_of(s);
    let mut list: Vec<String> = Vec::new();
    let mut start: usize = 0;
    let mut wanted: Vec<char> = Vec::new();
    wanted.push(separator);
    proof {
        assert(wanted@ =~= seq![separator]);
        assert(s@.subrange(0, s@.len() as int) =~= s@);
        assert(views(list@) =~= Seq::<Seq<char>>::empty());
        assert(Seq::<Seq<char>>::empty() + pieces(s@, separator) =~= pieces(s@, separator));
    }
    loop
        invariant
            start <= chars@.len(),
            chars@ == s@,
            wanted@ == seq![separator],
            views(list@) + pieces(s@.subrange(start as int, s@.len() as int), separator) == pieces(
                s@,
                separator,
            ),
        decreases chars@.len() - start,
    {
        let ghost rest = s@.subrange(start as int, s@.len() as int);
        let ghost before = views(list@);
        let tail = text_of(&chars, start, chars.len());
        let tail_chars = chars_of(tail.as_str());
        match find_in(&tail_chars, &wanted) {
            Some(i) => {
                let piece = text_of(&tail_chars, 0, i);
                proof {
                    assert(rest.subrange(i as int + 1, rest.len() as int) =~= s@.subrange(
                        start + i + 1,
                        s@.len() as int,
                    ));
                    assert(views(list@.push(piece)) =~= before.push(piece@));
                    assert(before.push(piece@) + pieces(
                        s@.subrange(start + i + 1, s@.len() as int),
                        separator,
                    ) =~= before + (seq![piece@] + pieces(
                        s@.subrange(start + i + 1, s@.len() as int),
                        separator,
                    )));
                }
                list.push(piece);
                start = start + i + 1;
            },
            None => {
                proof {
                    assert(views(list@.push(tail)) =~= before + seq![tail@]);
                }
                list.push(tail);
                return list;
            },
        }
    }
}

/// The parts one after the other, with `separator` between two of them.
pub fn join(parts: &Vec<String>, separator: &str) -> (text: String)
    ensures
        text@ == joined(views(parts@), separator@),
{
    let mut text = String::new();
    let mut i: usize = 0;
    let ghost all = views(parts@);
    while i < parts.len()
        invariant
            i <= parts@.len(),
            all == views(parts@),
            text@ == joined(all.subrange(0, i as int), separator@),
        decreases parts@.len() - i,
    {
        if i > 0 {
            text.append(separator);
        }
        text.append(parts[i].as_str());
        proof {
            let next = all.subrange(0, i as int + 1);
            assert(next.drop_last() =~= all.subrange(0, i as int));
            assert(next.last() == parts@[i as int]@);
            if i == 0 {
                assert(all.subrange(0, 0).len() == 0);
                assert(text@ =~= parts@[0]@);
            }
        }
        i += 1;
    }
    proof {
        assert(all.subrange(0, all.len() as int) =~= all);
    }
    text
}

/// `A` to `Z` as `a` to `z`; every other character as it is.
pub fn ascii_lower_char(c: char) -> (lower: char)
    ensures
        lower == ascii_lower(c),
{
    if 'A' <= c && c <= 'Z' {
        let n: u8 = c as u8;
        (n + 32) as char
    } else {
        c
    }
}

/// Whether two texts are the same up to the case of ASCII letters.
pub fn eq_ignore_ascii_case(a: &str, b: &str) -> (yes: bool)
    ensures
        yes == same_ignoring_ascii_case(a@, b@),
{
    let left = chars_of(a);
    let right = chars_of(b);
    if left.len() != right.len() {
        return false;
    }
    let mut i: usize = 0;
    while i < left.len()
        invariant
            i <= left@.len(),
            left@.len() == right@.len(),
            left@ == a@,
            right@ == b@,
            forall|j: int|
                0 <= j < i ==> ascii_lower(#[trigger] left@[j]) == ascii_lower(right@[j]),
        decreases left@.len() - i,
    {
        if ascii_lower_char(left[i]) != ascii_lower_char(right[i]) {
            return false;
        }
        i += 1;
    }
    true
}

/// A number in decimal digits.
pub fn decimal_of(n: u64) -> (text: String)
    ensures
        text@ == decimal(n as nat),
    decreases n,
{
    let last: u8 = (n % 10) as u8;
    let c: char = (48 + last) as char;
    let mut text = if n < 10 {
        String::new()
    } else {
        decimal_of(n / 10)
    };
    text.push(c);
    proof {
        if n < 10 {
            assert(text@ =~= seq![digit(n as nat)]);
        }
    }
    text
}

/// An integer in decimal digits, after a minus sign where it is negative.
pub fn signed_decimal_of(n: i64) -> (text: String)
    ensures
        text@ == signed_decimal(n as int),
{
    if n < 0 {
        let magnitude: u64 = if n == i64::MIN {
            0x8000_0000_0000_0000
        } else {
            (-n) as u64
        };
        let digits = decimal_of(magnitude);
        let mut text = String::new();
        text.push('-');
        text.append(digits.as_str());
        proof {
            assert(text@ =~= seq!['-'] + decimal((-n) as nat));
        }
        text
    } else {
        decimal_of(n as u64)
    }
}

/// The text from `a` and then `b`.
pub fn concat(a: &str, b: &str) -> (text: String)
    ensures
        text@ == a@ + b@,
{
    let mut text = a.to_owned();
    text.append(b);
    text
}

/// Whether a text is in a list.
pub fn list_has(list: &Vec<String>, text: &str) -> (yes: bool)
    ensures
        yes == views(list@).contains(text@),
{
    let mut i: usize = 0;
    while i < list.len()
        invariant
            i <= list@.len(),
            forall|j: int| 0 <= j < i ==> (#[trigger] views(list@)[j]) != text@,
        decreases list@.len() - i,
    {
        assert(views(list@)[i as int] == list@[i as int]@);
        if same(list[i].as_str(), text) {
            return true;
        }
        i += 1;
    }
    false
}

/// Whether two optional texts are the same.
pub fn same_option(a: Option<&str>, b: Option<&str>) -> (yes: bool)
    ensures
        yes == (crate::json::str_view(a) == crate::json::str_view(b)),
{
    match (a, b) {
        (Some(x), Some(y)) => same(x, y),
        (None, None) => true,
        _ => false,
    }
}

/// An optional text, borrowed.
pub fn borrowed(text: &Option<String>) -> (borrow: Option<&str>)
    ensures
        crate::json::str_view(borrow) == view_of(*text),
{
    match text {
        Some(t) => Some(t.as_str()),
        None => None,
    }
}

/// The bytes of a character in UTF-8.
pub fn utf8_width_of(c: char) -> (width: usize)
    ensures
        width == utf8_width(c),
{
    let n: u32 = c as u32;
    if n < 0x80 {
        1
    } else if n < 0x800 {
        2
    } else if n < 0x10000 {
        3
    } else {
        4
    }
}

/// Whether a text takes more than `limit` bytes in UTF-8.
pub fn is_longer_than(s: &str, limit: usize) -> (yes: bool)
    ensures
        yes == (utf8_len(s@) > limit),
{
    let chars = chars_of(s);
    let mut left: usize = limit;
    let mut i: usize = 0;
    proof {
        assert(s@.subrange(0, 0) =~= Seq::empty());
    }
    while i < chars.len()
        invariant
            i <= chars@.len(),
            chars@ == s@,
            left <= limit,
            utf8_len(s@.subrange(0, i as int)) == limit - left,
        decreases chars@.len() - i,
    {
        let width: usize = utf8_width_of(chars[i]);
        proof {
            let next = s@.subrange(0, i as int + 1);
            assert(next.drop_last() =~= s@.subrange(0, i as int));
            assert(next.last() == s@[i as int]);
        }
        if width > left {
            proof {
                lemma_utf8_len_grows(s@, i as int + 1);
            }
            return true;
        }
        left -= width;
        i += 1;
    }
    proof {
        assert(s@.subrange(0, s@.len() as int) =~= s@);
    }
    false
}

/// A beginning of a text takes no more bytes than the text.
proof fn lemma_utf8_len_grows(s: Seq<char>, n: int)
    requires
        0 <= n <= s.len(),
    ensures
        utf8_len(s.subrange(0, n)) <= utf8_len(s),
    decreases s.len(),
{
    if n == s.len() {
        assert(s.subrange(0, n) =~= s);
    } else {
        assert(s.drop_last().subrange(0, n) =~= s.subrange(0, n));
        lemma_utf8_len_grows(s.drop_last(), n);
    }
}

/// Whether some character of a text is white space.
pub fn contains_whitespace(s: &str) -> (yes: bool)
    ensures
        yes == has_whitespace(s@),
{
    let chars = chars_of(s);
    let mut i: usize = 0;
    while i < chars.len()
        invariant
            i <= chars@.len(),
            chars@ == s@,
            forall|j: int| 0 <= j < i ==> !is_whitespace(#[trigger] s@[j]),
        decreases chars@.len() - i,
    {
        if is_whitespace_char(chars[i]) {
            assert(is_whitespace(s@[i as int]));
            return true;
        }
        i += 1;
    }
    false
}

} // verus!
