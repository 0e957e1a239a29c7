//! What the operations on text do to a text.
use crate::llm::sse;
use crate::text;
use vstd::prelude::*;

verus! {

/// White space alone stands before the first and behind the second position, and none at
/// the ends of what is between.
pub open spec fn strips(s: Seq<char>, i: int, j: int) -> bool {
    &&& 0 <= i <= j <= s.len()
    &&& forall|k: int| 0 <= k < i ==> text::is_whitespace(#[trigger] s[k])
    &&& forall|k: int| j <= k < s.len() ==> text::is_whitespace(#[trigger] s[k])
    &&& i < j ==> !text::is_whitespace(s[i]) && !text::is_whitespace(s[j - 1])
}

proof fn lemma_start(s: Seq<char>) -> (i: int)
    ensures
        0 <= i <= s.len(),
        text::trimmed_start(s) == s.skip(i),
        forall|k: int| 0 <= k < i ==> text::is_whitespace(#[trigger] s[k]),
        i < s.len() ==> !text::is_whitespace(s[i]),
    decreases s.len(),
{
    if s.len() > 0 && text::is_whitespace(s[0]) {
        let rest = s.drop_first();
        let i = lemma_start(rest);
        assert(rest.skip(i) =~= s.skip(i + 1));
        assert forall|k: int| 0 <= k < i + 1 implies text::is_whitespace(#[trigger] s[k]) by {
            if k > 0 {
                assert(rest[k - 1] == s[k]);
            }
        }
        i + 1
    } else {
        assert(s.skip(0) =~= s);
        0
    }
}

proof fn lemma_end(s: Seq<char>) -> (j: int)
    ensures
        0 <= j <= s.len(),
        text::trimmed_end(s) == s.take(j),
        forall|k: int| j <= k < s.len() ==> text::is_whitespace(#[trigger] s[k]),
        0 < j ==> !text::is_whitespace(s[j - 1]),
    decreases s.len(),
{
    if s.len() > 0 && text::is_whitespace(s.last()) {
        let rest = s.drop_last();
        let j = lemma_end(rest);
        assert(rest.take(j) =~= s.take(j));
        assert forall|k: int| j <= k < s.len() implies text::is_whitespace(#[trigger] s[k]) by {
            if k < s.len() - 1 {
                assert(rest[k] == s[k]);
            }
        }
        j
    } else {
        assert(s.take(s.len() as int) =~= s);
        s.len() as int
    }
}

/// Trimming takes away the white space at both ends of a text and nothing else; a text is
/// blank exactly where it holds nothing but white space.
pub proof fn law_trimming_takes_white_space_alone(s: Seq<char>)
    ensures
        exists|i: int, j: int| #[trigger] strips(s, i, j) && text::trimmed(s) == s.subrange(i, j),
        text::is_blank(s) <==> forall|k: int| 0 <= k < s.len() ==> text::is_whitespace(
            #[trigger] s[k],
        ),
{
    let i = lemma_start(s);
    let started = s.skip(i);
    let n = lemma_end(started);
    assert(started.take(n) =~= s.subrange(i, i + n));
    assert forall|k: int| i + n <= k < s.len() implies text::is_whitespace(#[trigger] s[k]) by {
        assert(started[k - i] == s[k]);
    }
    if n > 0 {
        assert(started[n - 1] == s[i + n - 1]);
        assert(started[0] == s[i]);
    }
    assert(strips(s, i, i + n));
    if n > 0 {
        assert(!text::is_whitespace(s[i]));
    }
}

/// Texts are joined in order, with the separator between any two of them and nowhere else.
pub proof fn law_joining_adds_separators_between(
    parts: Seq<Seq<char>>,
    part: Seq<char>,
    separator: Seq<char>,
)
    ensures
        text::joined(Seq::empty(), separator) == Seq::<char>::empty(),
        parts.len() == 0 ==> text::joined(parts.push(part), separator) == part,
        parts.len() > 0 ==> text::joined(parts.push(part), separator) == text::joined(
            parts,
            separator,
        ) + separator + part,
{
    assert(parts.push(part).drop_last() =~= parts);
}

/// The position of a text in another is that of its first occurrence, and there is none
/// where it does not occur.
pub proof fn law_positions_are_first_occurrences(s: Seq<char>, needle: Seq<char>, k: int)
    requires
        0 <= k,
        k + needle.len() <= s.len(),
        s.subrange(k, k + needle.len()) == needle,
    ensures
        text::position_of(s, needle) matches Some(i) && 0 <= i <= k && s.subrange(
            i,
            i + needle.len(),
        ) == needle,
    decreases s.len(),
{
    text::lemma_position_of(s, needle);
    if text::begins_with(s, needle) {
        assert(s.subrange(0, needle.len() as int) == needle);
    } else {
        if k == 0 {
            assert(s.subrange(0, needle.len() as int) == needle);
        }
        assert(s.len() > 0);
        let rest = s.drop_first();
        assert(rest.subrange(k - 1, k - 1 + needle.len()) =~= s.subrange(k, k + needle.len()));
        law_positions_are_first_occurrences(rest, needle, k - 1);
    }
}

/// Where a text is found, it stands; where it is not found, it stands nowhere.
pub proof fn law_what_is_found_is_there(s: Seq<char>, needle: Seq<char>)
    ensures
        text::position_of(s, needle) matches Some(i) ==> 0 <= i && i + needle.len() <= s.len()
            && s.subrange(i, i + needle.len()) == needle,
        text::has(s, needle) <==> exists|k: int|
            0 <= k && k + needle.len() <= s.len() && #[trigger] s.subrange(k, k + needle.len())
                == needle,
{
    text::lemma_position_of(s, needle);
    if exists|k: int|
        0 <= k && k + needle.len() <= s.len() && #[trigger] s.subrange(k, k + needle.len())
            == needle {
        let k = choose|k: int|
            0 <= k && k + needle.len() <= s.len() && #[trigger] s.subrange(k, k + needle.len())
                == needle;
        law_positions_are_first_occurrences(s, needle, k);
    }
}

proof fn lemma_single(s: Seq<char>, c: char, n: int)
    requires
        0 <= n < s.len(),
        s[n] == c,
        forall|i: int| 0 <= i < n ==> #[trigger] s[i] != c,
    ensures
        text::position_of(s, seq![c]) == Some(n),
{
    assert(s.subrange(n, n + 1) =~= seq![c]);
    law_positions_are_first_occurrences(s, seq![c], n);
    let i = text::position_of(s, seq![c])->0;
    assert(s.subrange(i, i + 1)[0] == c);
    assert(s[i] == c);
}

proof fn lemma_no_single(s: Seq<char>, c: char)
    requires
        !s.contains(c),
    ensures
        text::position_of(s, seq![c]) is None,
{
    text::lemma_position_of(s, seq![c]);
    if let Some(i) = text::position_of(s, seq![c]) {
        assert(s.subrange(i, i + 1)[0] == c);
        assert(s.contains(s[i]));
    }
}

/// Cutting at a separator gives what stands before its first occurrence and what stands
/// behind it.
pub proof fn law_cutting_parts_at_the_first_separator(
    before: Seq<char>,
    after: Seq<char>,
    separator: char,
)
    requires
        !before.contains(separator),
    ensures
        text::cut(before + seq![separator] + after, seq![separator]) == Some((before, after)),
        text::cut(before, seq![separator]) is None,
{
    let s = before + seq![separator] + after;
    assert forall|i: int| 0 <= i < before.len() implies #[trigger] s[i] != separator by {
        assert(before.contains(before[i]));
    }
    lemma_single(s, separator, before.len() as int);
    lemma_no_single(before, separator);
    assert(s.subrange(0, before.len() as int) =~= before);
    assert(s.subrange(before.len() as int + 1, s.len() as int) =~= after);
}

/// The pieces between separators are those between them, in order, and a text without the
/// separator is one piece.
pub proof fn law_pieces_stand_between_separators(
    piece: Seq<char>,
    rest: Seq<char>,
    separator: char,
)
    requires
        !piece.contains(separator),
    ensures
        text::pieces(piece, separator) == seq![piece],
        text::pieces(piece + seq![separator] + rest, separator) == seq![piece] + text::pieces(
            rest,
            separator,
        ),
{
    let s = piece + seq![separator] + rest;
    assert forall|i: int| 0 <= i < piece.len() implies #[trigger] s[i] != separator by {
        assert(piece.contains(piece[i]));
    }
    lemma_single(s, separator, piece.len() as int);
    lemma_no_single(piece, separator);
    assert(s.subrange(0, piece.len() as int) =~= piece);
    assert(s.subrange(piece.len() as int + 1, s.len() as int) =~= rest);
}

/// A line ends at a line feed, and a carriage return before it goes with it; what follows
/// the last line feed is a line unless it is empty.
pub proof fn law_lines_end_at_line_feeds(line: Seq<char>, rest: Seq<char>)
    requires
        !line.contains('\n'),
    ensures
        text::lines(Seq::empty()) == Seq::<Seq<char>>::empty(),
        line.len() > 0 ==> text::lines(line) == seq![line],
        text::lines(line + seq!['\n'] + rest) == seq![
            if line.len() > 0 && line.last() == '\r' {
                line.drop_last()
            } else {
                line
            },
        ] + text::lines(rest),
{
    let s = line + seq!['\n'] + rest;
    assert forall|i: int| 0 <= i < line.len() implies #[trigger] s[i] != '\n' by {
        assert(line.contains(line[i]));
    }
    lemma_single(s, '\n', line.len() as int);
    lemma_no_single(line, '\n');
    assert(s.subrange(0, line.len() as int) =~= line);
    assert(s.subrange(line.len() as int + 1, s.len() as int) =~= rest);
}

/// The number that decimal digits stand for.
pub open spec fn number_of(digits: Seq<char>) -> nat
    decreases digits.len(),
{
    if digits.len() == 0 {
        0
    } else {
        10 * number_of(digits.drop_last()) + (digits.last() as nat - '0' as nat) as nat
    }
}

/// The decimal digits of a number stand for it, are digits, and do not begin with a zero
/// unless the number is zero. So different numbers have different digits.
pub proof fn law_decimal_digits_stand_for_their_number(n: nat)
    ensures
        number_of(text::decimal(n)) == n,
        text::decimal(n).len() > 0,
        forall|i: int| 0 <= i < text::decimal(n).len() ==> '0' <= #[trigger] text::decimal(n)[i]
            <= '9',
        n > 0 ==> text::decimal(n)[0] != '0',
    decreases n,
{
    if n < 10 {
        let digits = text::decimal(n);
        assert(digits.drop_last() =~= Seq::empty());
        reveal_with_fuel(number_of, 2);
    } else {
        let before = text::decimal(n / 10);
        law_decimal_digits_stand_for_their_number(n / 10);
        let digits = text::decimal(n);
        assert(digits =~= before.push(text::digit(n % 10)));
        assert(digits.drop_last() =~= before);
        assert(digits.last() == text::digit(n % 10));
        assert forall|i: int| 0 <= i < digits.len() implies '0' <= #[trigger] digits[i] <= '9' by {
            if i < before.len() {
                assert(digits[i] == before[i]);
            }
        }
        assert(digits[0] == before[0]);
    }
}

/// A signed number is its digits, behind a minus where it is negative.
pub proof fn law_signed_digits(n: int)
    ensures
        n >= 0 ==> text::signed_decimal(n) == text::decimal(n as nat),
        n < 0 ==> text::signed_decimal(n) == seq!['-'] + text::decimal((-n) as nat),
{
}

proof fn lemma_bytes_of_one_more(c: char, s: Seq<char>)
    ensures
        text::utf8_len(seq![c] + s) == text::utf8_width(c) + text::utf8_len(s),
    decreases s.len(),
{
    let whole = seq![c] + s;
    if s.len() == 0 {
        assert(whole.drop_last() =~= Seq::empty());
        reveal_with_fuel(text::utf8_len, 2);
    } else {
        lemma_bytes_of_one_more(c, s.drop_last());
        assert(whole.drop_last() =~= seq![c] + s.drop_last());
    }
}

proof fn lemma_within(s: Seq<char>, limit: int)
    requires
        limit >= 0,
    ensures
        ({
            let short = sse::within_bytes(s, limit);
            &&& short.len() <= s.len()
            &&& short == s.take(short.len() as int)
            &&& text::utf8_len(short) <= limit
            &&& short.len() < s.len() ==> text::utf8_len(short) + text::utf8_width(
                s[short.len() as int],
            ) > limit
        }),
    decreases s.len(),
{
    if s.len() == 0 || text::utf8_width(s[0]) > limit {
        assert(s.take(0) =~= Seq::empty());
    } else {
        let rest = s.drop_first();
        let w = text::utf8_width(s[0]) as int;
        lemma_within(rest, limit - w);
        let inner = sse::within_bytes(rest, limit - w);
        let short = seq![s[0]] + inner;
        assert(short =~= s.take(short.len() as int));
        lemma_bytes_of_one_more(s[0], inner);
        if inner.len() < rest.len() {
            assert(rest[inner.len() as int] == s[short.len() as int]);
        }
    }
}

/// A body is cut for an error message behind as many whole characters as fit in 500 bytes.
pub proof fn law_bodies_are_cut_to_what_fits(body: Seq<char>)
    ensures
        ({
            let short = sse::truncated(body);
            &&& short.len() <= body.len()
            &&& short == body.take(short.len() as int)
            &&& text::utf8_len(short) <= 500
            &&& short.len() < body.len() ==> text::utf8_len(short) + text::utf8_width(
                body[short.len() as int],
            ) > 500
        }),
{
    lemma_within(body, 500);
}

/// Trailing separators are taken off the end of a text, all of them and nothing else.
pub proof fn law_trailing_characters_are_taken_off(s: Seq<char>, c: char)
    ensures
        ({
            let short = text::without_trailing(s, c);
            &&& short.len() <= s.len()
            &&& short == s.take(short.len() as int)
            &&& short.len() > 0 ==> short.last() != c
            &&& forall|i: int| short.len() <= i < s.len() ==> #[trigger] s[i] == c
        }),
    decreases s.len(),
{
    if s.len() > 0 && s.last() == c {
        let rest = s.drop_last();
        law_trailing_characters_are_taken_off(rest, c);
        let short = text::without_trailing(rest, c);
        assert(rest.take(short.len() as int) =~= s.take(short.len() as int));
        assert forall|i: int| short.len() <= i < s.len() implies #[trigger] s[i] == c by {
            if i < rest.len() {
                assert(rest[i] == s[i]);
            }
        }
    } else {
        assert(s.take(s.len() as int) =~= s);
    }
}

} // verus!
