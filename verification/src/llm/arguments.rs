//! Arguments of tool calls: reading them from the text that a model streamed.
use crate::json;
use crate::json::{Json, JsonView};
use crate::llm::message;
use crate::llm::message::{CompletionError, ErrorView};
use crate::text;
use vstd::prelude::*;

verus! {

/// A lower-case hexadecimal digit.
pub open spec fn hex_digit(n: int) -> char {
    if n < 10 {
        (48 + n) as u8 as char
    } else {
        (87 + n) as u8 as char
    }
}

/// How a control character is written inside a JSON string.
pub open spec fn control_escape(c: char) -> Seq<char> {
    if c == '\u{8}' {
        seq!['\\', 'b']
    } else if c == '\t' {
        seq!['\\', 't']
    } else if c == '\n' {
        seq!['\\', 'n']
    } else if c == '\u{c}' {
        seq!['\\', 'f']
    } else if c == '\r' {
        seq!['\\', 'r']
    } else {
        seq![
            '\\',
            'u',
            '0',
            '0',
            hex_digit((c as u32 / 16) as int),
            hex_digit((c as u32 % 16) as int),
        ]
    }
}

/// JSON text with the control characters inside its strings escaped. `in_string`
/// tells whether the text starts inside a string, and `after_backslash` whether
/// its first character is the second of an escape there.
pub open spec fn escaped(s: Seq<char>, in_string: bool, after_backslash: bool) -> Seq<char>
    decreases s.len(),
{
    if s.len() == 0 {
        Seq::empty()
    } else if !in_string {
        seq![s[0]] + escaped(s.drop_first(), s[0] == '"', false)
    } else if after_backslash {
        seq![s[0]] + escaped(s.drop_first(), true, false)
    } else if json::is_control(s[0]) {
        control_escape(s[0]) + escaped(s.drop_first(), true, false)
    } else {
        seq![s[0]] + escaped(s.drop_first(), s[0] != '"', s[0] == '\\')
    }
}

/// What escaping makes of the first `n` characters when it looks at each alone.
pub open spec fn each_escaped(s: Seq<char>, n: int) -> Seq<char>
    decreases n,
{
    if n <= 0 {
        Seq::empty()
    } else {
        each_escaped(s, n - 1) + (if json::is_raw_control(s, n - 1) {
            control_escape(s[n - 1])
        } else {
            seq![s[n - 1]]
        })
    }
}

/// Escaping a text is escaping how it begins and then the rest.
proof fn lemma_escaped_so_far(s: Seq<char>, n: int)
    requires
        0 <= n <= s.len(),
    ensures
        escaped(s, false, false) == each_escaped(s, n) + escaped(
            s.skip(n),
            json::state_after(s, n).0,
            json::state_after(s, n).1,
        ),
    decreases n,
{
    if n == 0 {
        assert(s.skip(0) =~= s);
        assert(Seq::<char>::empty() + escaped(s, false, false) =~= escaped(s, false, false));
    } else {
        lemma_escaped_so_far(s, n - 1);
        let rest = s.skip(n - 1);
        let before = each_escaped(s, n - 1);
        let (in_string, after_backslash) = json::state_after(s, n);
        let tail = escaped(s.skip(n), in_string, after_backslash);
        assert(rest[0] == s[n - 1]);
        assert(rest.drop_first() =~= s.skip(n));
        if json::is_raw_control(s, n - 1) {
            assert(before + (control_escape(s[n - 1]) + tail) =~= before + control_escape(s[n - 1])
                + tail);
        } else {
            assert(before + (seq![s[n - 1]] + tail) =~= before + seq![s[n - 1]] + tail);
        }
    }
}

/// Each control character that stands raw inside a string is replaced by its JSON
/// escape, and every other character, inside a string or outside, is kept.
pub proof fn law_only_raw_controls_are_replaced(s: Seq<char>)
    ensures
        escaped(s, false, false) == each_escaped(s, s.len() as int),
{
    let n = s.len() as int;
    lemma_escaped_so_far(s, n);
    assert(s.skip(n) =~= Seq::<char>::empty());
    assert(each_escaped(s, n) + Seq::<char>::empty() =~= each_escaped(s, n));
}

/// How a text begins is kept where no control character stands raw in it.
proof fn lemma_clean_text_is_kept(s: Seq<char>, n: int)
    requires
        0 <= n <= s.len(),
        forall|i: int| 0 <= i < n ==> !#[trigger] json::is_raw_control(s, i),
    ensures
        each_escaped(s, n) == s.take(n),
    decreases n,
{
    if n > 0 {
        lemma_clean_text_is_kept(s, n - 1);
        assert(!json::is_raw_control(s, n - 1));
        assert(s.take(n - 1) + seq![s[n - 1]] =~= s.take(n));
    } else {
        assert(s.take(0) =~= Seq::<char>::empty());
    }
}

/// A text comes back as it is where no control character stands raw inside one of its
/// strings, whatever line breaks stand between its tokens. Every text that
/// [`Json::parse`] reads is such a text.
pub proof fn law_escaping_keeps_clean_text(s: Seq<char>)
    requires
        json::has_clean_strings(s),
    ensures
        escaped(s, false, false) == s,
{
    law_only_raw_controls_are_replaced(s);
    lemma_clean_text_is_kept(s, s.len() as int);
    assert(s.take(s.len() as int) =~= s);
}

/// Escaping what was escaped changes nothing more.
pub proof fn law_escaping_twice_is_escaping_once(
    s: Seq<char>,
    in_string: bool,
    after_backslash: bool,
)
    ensures
        escaped(escaped(s, in_string, after_backslash), in_string, after_backslash) == escaped(
            s,
            in_string,
            after_backslash,
        ),
    decreases s.len(),
{
    if s.len() > 0 {
        let rest = s.drop_first();
        let once = escaped(s, in_string, after_backslash);
        if !in_string {
            law_escaping_twice_is_escaping_once(rest, s[0] == '"', false);
            assert(once.drop_first() =~= escaped(rest, s[0] == '"', false));
        } else if after_backslash {
            law_escaping_twice_is_escaping_once(rest, true, false);
            assert(once.drop_first() =~= escaped(rest, true, false));
        } else if json::is_control(s[0]) {
            law_escaping_twice_is_escaping_once(rest, true, false);
            let tail = escaped(rest, true, false);
            let mark = control_escape(s[0]);
            assert(once =~= mark + tail);
            assert(once[0] == '\\');
            let second = once.drop_first();
            assert(second =~= mark.drop_first() + tail);
            let third = second.drop_first();
            assert(escaped(once, true, false) == seq!['\\'] + escaped(second, true, true));
            assert(escaped(second, true, true) == seq![second[0]] + escaped(third, true, false));
            assert(escaped(once, true, false) == seq!['\\'] + (seq![second[0]] + escaped(
                third,
                true,
                false,
            )));
            if mark.len() == 2 {
                assert(third =~= tail);
                assert(seq!['\\'] + (seq![second[0]] + tail) =~= once);
            } else {
                let n = s[0] as u32;
                assert(0 <= n / 16 < 2 && 0 <= n % 16 < 16);
                let a = mark[2];
                let b = mark[3];
                let c = mark[4];
                let d = mark[5];
                let t3 = third.drop_first();
                let t4 = t3.drop_first();
                let t5 = t4.drop_first();
                let t6 = t5.drop_first();
                assert(third[0] == a && t3[0] == b && t4[0] == c && t5[0] == d);
                assert(t6 =~= tail);
                assert(escaped(t5, true, false) == seq![d] + tail);
                assert(escaped(t4, true, false) == seq![c] + (seq![d] + tail));
                assert(escaped(t3, true, false) == seq![b] + (seq![c] + (seq![d] + tail)));
                assert(escaped(third, true, false) == seq![a] + (seq![b] + (seq![c] + (seq![d]
                    + tail))));
                assert(escaped(once, true, false) =~= once);
            }
        } else {
            law_escaping_twice_is_escaping_once(rest, s[0] != '"', s[0] == '\\');
            assert(once.drop_first() =~= escaped(rest, s[0] != '"', s[0] == '\\'));
        }
    }
}

/// A lower-case hexadecimal digit.
fn hex_char(n: u8) -> (c: char)
    requires
        n < 16,
    ensures
        c == hex_digit(n as int),
{
    if n < 10 {
        (48 + n) as char
    } else {
        (87 + n) as char
    }
}

/// Escapes the control characters inside the strings of a JSON text, as models
/// that write raw line breaks into string arguments make necessary.
pub fn escape_control_characters_in_json_strings(input: &str) -> (output: String)
    ensures
        output@ == escaped(input@, false, false),
{
    let chars = text::chars_of(input);
    let mut output = String::new();
    let mut in_string = false;
    let mut escape_next = false;
    let mut i: usize = 0;
    proof {
        assert(input@.subrange(0, input@.len() as int) =~= input@);
        assert(output@ + escaped(input@, false, false) =~= escaped(input@, false, false));
    }
    while i < chars.len()
        invariant
            i <= chars@.len(),
            chars@ == input@,
            !in_string ==> !escape_next,
            output@ + escaped(
                input@.subrange(i as int, input@.len() as int),
                in_string,
                escape_next,
            ) == escaped(input@, false, false),
        decreases chars@.len() - i,
    {
        let c: char = chars[i];
        let ghost rest = input@.subrange(i as int, input@.len() as int);
        let ghost tail = rest.drop_first();
        let ghost before = output@;
        let ghost was_in_string = in_string;
        let ghost was_escape = escape_next;
        proof {
            assert(rest[0] == c);
            assert(tail =~= input@.subrange(i as int + 1, input@.len() as int));
        }
        if in_string && !escape_next && (c as u32) < 0x20 {
            let n: u32 = c as u32;
            output.push('\\');
            if c == '\u{8}' {
                output.push('b');
            } else if c == '\t' {
                output.push('t');
            } else if c == '\n' {
                output.push('n');
            } else if c == '\u{c}' {
                output.push('f');
            } else if c == '\r' {
                output.push('r');
            } else {
                let high: u8 = (n / 16) as u8;
                let low: u8 = (n % 16) as u8;
                output.push('u');
                output.push('0');
                output.push('0');
                output.push(hex_char(high));
                output.push(hex_char(low));
            }
            proof {
                assert(output@ =~= before + control_escape(c));
                assert(output@ + escaped(tail, true, false) =~= before + (control_escape(c)
                    + escaped(tail, true, false)));
            }
        } else {
            output.push(c);
            if !in_string {
                in_string = c == '"';
            } else if escape_next {
                escape_next = false;
            } else {
                in_string = c != '"';
                escape_next = c == '\\';
            }
            proof {
                assert(output@ + escaped(tail, in_string, escape_next) =~= before + (seq![c]
                    + escaped(tail, in_string, escape_next)));
            }
        }
        i += 1;
    }
    proof {
        assert(input@.subrange(input@.len() as int, input@.len() as int) =~= Seq::<char>::empty());
        assert(output@ + Seq::<char>::empty() =~= output@);
    }
    output
}

/// The result of reading a tool's streamed arguments, from what the reader makes
/// of the text and of the text with its control characters escaped.
pub open spec fn streamed_arguments(
    tool_name: Seq<char>,
    raw: Seq<char>,
    direct: Result<JsonView, Seq<char>>,
    sanitized: Result<JsonView, Seq<char>>,
) -> Result<JsonView, ErrorView> {
    let failure = "invalid streamed tool arguments for '"@ + tool_name + "': "@;
    if text::is_blank(raw) {
        Ok(json::empty_object())
    } else {
        match direct {
            Ok(value) => Ok(value),
            Err(error) => if escaped(raw, false, false) != raw {
                match sanitized {
                    Ok(value) => Ok(value),
                    Err(second) => Err(
                        ErrorView::Provider(
                            failure + error + "; after sanitization: "@ + second,
                        ),
                    ),
                }
            } else {
                Err(ErrorView::Provider(failure + error))
            },
        }
    }
}

/// The view of a reading.
pub open spec fn reading_view(reading: Result<Json, String>) -> Result<JsonView, Seq<char>> {
    match reading {
        Ok(value) => Ok(value@),
        Err(message) => Err(message@),
    }
}

/// Decides what a tool's streamed arguments are, from what the reader made of the
/// text and of the text with its control characters escaped.
pub fn choose_streamed_arguments(
    tool_name: &str,
    raw_arguments: &str,
    direct: Result<Json, String>,
    sanitized: Result<Json, String>,
) -> (arguments: Result<Json, CompletionError>)
    ensures
        message::json_result(arguments) == streamed_arguments(
            tool_name@,
            raw_arguments@,
            reading_view(direct),
            reading_view(sanitized),
        ),
{
    if text::is_blank_text(raw_arguments) {
        return Ok(Json::object());
    }
    let error = match direct {
        Ok(value) => {
            return Ok(value);
        },
        Err(error) => error,
    };
    let failure = "invalid streamed tool arguments for '".to_owned().concat(tool_name).concat(
        "': ",
    ).concat(error.as_str());
    let clean = escape_control_characters_in_json_strings(raw_arguments);
    if !text::same(clean.as_str(), raw_arguments) {
        match sanitized {
            Ok(value) => Ok(value),
            Err(second) => Err(
                CompletionError::ProviderError(
                    failure.concat("; after sanitization: ").concat(second.as_str()),
                ),
            ),
        }
    } else {
        Err(CompletionError::ProviderError(failure))
    }
}

/// The arguments of a tool call that was streamed as text.
pub open spec fn streamed_arguments_of(tool_name: Seq<char>, raw: Seq<char>) -> Result<
    JsonView,
    ErrorView,
> {
    streamed_arguments(
        tool_name,
        raw,
        json::parsed(raw),
        json::parsed(escaped(raw, false, false)),
    )
}

/// Reads the arguments of a tool call that was streamed as text. Arguments that are JSON
/// need no escaping.
pub fn parse_streamed_tool_arguments(tool_name: &str, raw_arguments: &str) -> (arguments: Result<
    Json,
    CompletionError,
>)
    ensures
        message::json_result(arguments) == streamed_arguments_of(tool_name@, raw_arguments@),
        json::parsed(raw_arguments@) is Ok ==> escaped(raw_arguments@, false, false)
            == raw_arguments@,
{
    let direct = Json::parse(raw_arguments);
    proof {
        if direct is Ok {
            law_escaping_keeps_clean_text(raw_arguments@);
        }
    }
    let clean = escape_control_characters_in_json_strings(raw_arguments);
    let sanitized = Json::parse(clean.as_str());
    choose_streamed_arguments(tool_name, raw_arguments, direct, sanitized)
}

/// The arguments in a reply's field, from what the reader makes of its text:
/// text that is no JSON, and a missing field, stand for no arguments.
pub open spec fn field_arguments(
    field: JsonView,
    reading: Result<JsonView, Seq<char>>,
) -> JsonView {
    match field {
        JsonView::Str(_) => match reading {
            Ok(value) => value,
            Err(_) => json::empty_object(),
        },
        JsonView::Null => json::empty_object(),
        _ => field,
    }
}

/// The arguments in a reply's field.
pub open spec fn arguments_in(field: JsonView) -> JsonView {
    field_arguments(
        field,
        match field {
            JsonView::Str(raw) => json::parsed(raw),
            _ => Err(Seq::empty()),
        },
    )
}

/// Decides what the arguments in a reply's field are, from what the reader made
/// of its text.
pub fn choose_field_arguments(arguments_field: &Json, reading: Result<Json, String>) -> (arguments:
    Json)
    ensures
        arguments@ == field_arguments(arguments_field@, reading_view(reading)),
{
    match arguments_field {
        Json::Str(_) => match reading {
            Ok(value) => value,
            Err(_) => Json::object(),
        },
        Json::Null => Json::object(),
        _ => arguments_field.duplicate(),
    }
}

/// Reads the arguments in a reply's field.
pub fn parse_openai_tool_arguments(arguments_field: &Json) -> (arguments: Json)
    ensures
        arguments@ == arguments_in(arguments_field@),
{
    let reading = match arguments_field.as_str() {
        Some(raw) => Json::parse(raw),
        None => Err(String::new()),
    };
    choose_field_arguments(arguments_field, reading)
}

/// Streamed arguments that are JSON are that JSON; blank ones are an empty object; others
/// are what the text reads as with its control characters escaped, and an error where it
/// still does not read.
pub proof fn law_streamed_arguments_are_what_they_read_as(tool_name: Seq<char>, raw: Seq<char>)
    ensures
        text::is_blank(raw) ==> streamed_arguments_of(tool_name, raw) == Ok::<JsonView, ErrorView>(
            JsonView::Object(Seq::empty()),
        ),
        !text::is_blank(raw) && json::parsed(raw) is Ok ==> streamed_arguments_of(tool_name, raw)
            == Ok::<JsonView, ErrorView>(json::parsed(raw)->Ok_0),
        !text::is_blank(raw) && json::parsed(raw) is Err && json::parsed(
            escaped(raw, false, false),
        ) is Ok ==> streamed_arguments_of(tool_name, raw) == Ok::<JsonView, ErrorView>(
            json::parsed(escaped(raw, false, false))->Ok_0,
        ),
        !text::is_blank(raw) && json::parsed(raw) is Err && json::parsed(
            escaped(raw, false, false),
        ) is Err ==> streamed_arguments_of(tool_name, raw) is Err,
{
}

/// The arguments of a whole tool call are what their text reads as, or the value itself
/// where it is no text; text that does not read, and nothing at all, are an empty object.
pub proof fn law_arguments_are_the_value_or_what_it_reads_as(field: JsonView)
    ensures
        field matches JsonView::Str(raw) ==> arguments_in(field) == (match json::parsed(raw) {
            Ok(value) => value,
            Err(_) => JsonView::Object(Seq::empty()),
        }),
        field is Null ==> arguments_in(field) == JsonView::Object(Seq::empty()),
        !(field is Str) && !(field is Null) ==> arguments_in(field) == field,
{
}

} // verus!
