//! Server-sent events: how a stream's text falls into blocks, and what data a
//! block carries.
use crate::text;
use vstd::prelude::*;

verus! {

/// The first block of a stream's text and what follows its separator. A pair of
/// line feeds anywhere in the text goes before a pair of carriage-return line
/// feeds.
pub open spec fn next_block(buffer: Seq<char>) -> Option<(Seq<char>, Seq<char>)> {
    match text::cut(buffer, seq!['\n', '\n']) {
        Some(parts) => Some(parts),
        None => text::cut(buffer, seq!['\r', '\n', '\r', '\n']),
    }
}

/// The data of one line of a block, where it is a data line.
pub open spec fn data_of_line(line: Seq<char>) -> Option<Seq<char>> {
    match text::after_prefix(line, "data: "@) {
        Some(data) => Some(data),
        None => match text::after_prefix(line, "data:"@) {
            Some(data) => Some(text::trimmed_start(data)),
            None => None,
        },
    }
}

/// The data of the data lines among `list`, in order.
pub open spec fn data_lines(list: Seq<Seq<char>>) -> Seq<Seq<char>>
    decreases list.len(),
{
    if list.len() == 0 {
        Seq::empty()
    } else {
        match data_of_line(list.last()) {
            Some(data) => data_lines(list.drop_last()).push(data),
            None => data_lines(list.drop_last()),
        }
    }
}

/// The data that a block carries: that of its data lines, one below the other.
pub open spec fn payload(block: Seq<char>) -> Option<Seq<char>> {
    let data = data_lines(text::lines(block));
    if data.len() == 0 {
        None
    } else {
        Some(text::joined(data, seq!['\n']))
    }
}

/// An optional value as a sequence of at most one.
pub open spec fn at_most_one(value: Option<Seq<char>>) -> Seq<Seq<char>> {
    match value {
        Some(v) => seq![v],
        None => Seq::empty(),
    }
}

/// The data of all blocks of a stream's text, in order. What is left behind the
/// last separator is a block too unless it is blank.
pub open spec fn payloads(body: Seq<char>) -> Seq<Seq<char>>
    decreases body.len(),
{
    match next_block(body) {
        Some((block, rest)) => if rest.len() < body.len() {
            at_most_one(payload(block)) + payloads(rest)
        } else {
            Seq::empty()
        },
        None => if text::is_blank(body) {
            Seq::empty()
        } else {
            at_most_one(payload(body))
        },
    }
}

/// A payload that carries no event: blank, or the end-of-stream mark.
pub open spec fn is_no_event(data: Seq<char>) -> bool {
    data.len() == 0 || data == "[DONE]"@
}

/// Nothing is lost when a block is taken: the block, its separator and the rest
/// are the whole text, and the rest is shorter.
pub proof fn law_block_and_rest_are_the_buffer(buffer: Seq<char>)
    ensures
        match next_block(buffer) {
            Some((block, rest)) => {
                &&& rest.len() < buffer.len()
                &&& buffer == block + seq!['\n', '\n'] + rest || buffer == block + seq![
                    '\r',
                    '\n',
                    '\r',
                    '\n',
                ] + rest
            },
            None => true,
        },
{
    let short = seq!['\n', '\n'];
    let long = seq!['\r', '\n', '\r', '\n'];
    text::lemma_position_of(buffer, short);
    text::lemma_position_of(buffer, long);
    if let Some(i) = text::position_of(buffer, short) {
        assert(buffer =~= buffer.subrange(0, i) + short + buffer.subrange(
            i + 2,
            buffer.len() as int,
        )) by {
            assert(buffer.subrange(i, i + 2) =~= short);
            assert(forall|k: int| i <= k < i + 2 ==> buffer[k] == buffer.subrange(i, i + 2)[k - i]);
        }
    } else if let Some(i) = text::position_of(buffer, long) {
        assert(buffer =~= buffer.subrange(0, i) + long + buffer.subrange(
            i + 4,
            buffer.len() as int,
        )) by {
            assert(buffer.subrange(i, i + 4) =~= long);
            assert(forall|k: int| i <= k < i + 4 ==> buffer[k] == buffer.subrange(i, i + 4)[k - i]);
        }
    }
}

/// Takes the first block off the buffer.
pub fn extract_sse_block(buffer: &mut String) -> (block: Option<String>)
    ensures
        match block {
            Some(b) => {
                &&& next_block(old(buffer)@) == Some((b@, final(buffer)@))
                &&& final(buffer)@.len() < old(buffer)@.len()
            },
            None => next_block(old(buffer)@) is None && final(buffer)@ == old(buffer)@,
        },
{
    proof {
        law_block_and_rest_are_the_buffer(buffer@);
        reveal_strlit("\n\n");
        reveal_strlit("\r\n\r\n");
        assert("\n\n"@ =~= seq!['\n', '\n']);
        assert("\r\n\r\n"@ =~= seq!['\r', '\n', '\r', '\n']);
    }
    let found = match text::split_once(buffer.as_str(), "\n\n") {
        Some(parts) => Some(parts),
        None => text::split_once(buffer.as_str(), "\r\n\r\n"),
    };
    match found {
        Some((block, rest)) => {
            *buffer = rest;
            Some(block)
        },
        None => None,
    }
}

/// The data that a block carries.
pub fn extract_sse_data_payload(block: &str) -> (data: Option<String>)
    ensures
        text::view_of(data) == payload(block@),
{
    let list = text::lines_of(block);
    let ghost all = text::lines(block@);
    let mut data: Vec<String> = Vec::new();
    let mut i: usize = 0;
    proof {
        assert(text::views(data@) =~= data_lines(all.subrange(0, 0)));
    }
    while i < list.len()
        invariant
            i <= list@.len(),
            text::views(list@) == all,
            text::views(data@) == data_lines(all.subrange(0, i as int)),
        decreases list@.len() - i,
    {
        let line = list[i].as_str();
        proof {
            assert(line@ == all[i as int]);
            let next = all.subrange(0, i as int + 1);
            assert(next.drop_last() =~= all.subrange(0, i as int));
            assert(next.last() == line@);
        }
        let found = match text::strip_prefix(line, "data: ") {
            Some(rest) => Some(rest),
            None => match text::strip_prefix(line, "data:") {
                Some(rest) => Some(text::trim_start(rest.as_str())),
                None => None,
            },
        };
        if let Some(rest) = found {
            proof {
                assert(text::views(data@.push(rest)) =~= text::views(data@).push(rest@));
            }
            data.push(rest);
        }
        i += 1;
    }
    proof {
        assert(all.subrange(0, all.len() as int) =~= all);
        reveal_strlit("\n");
        assert("\n"@ =~= seq!['\n']);
    }
    if data.is_empty() {
        None
    } else {
        Some(text::join(&data, "\n"))
    }
}

/// The data of all blocks of a stream's text.
pub fn sse_payloads(body: &str) -> (list: Vec<String>)
    ensures
        text::views(list@) == payloads(body@),
{
    let mut list: Vec<String> = Vec::new();
    let mut buffer = body.to_owned();
    let ghost mut taken = Seq::<Seq<char>>::empty();
    proof {
        assert(taken + payloads(body@) =~= payloads(body@));
        assert(text::views(list@) =~= taken);
    }
    loop
        invariant
            text::views(list@) == taken,
            taken + payloads(buffer@) == payloads(body@),
        decreases buffer@.len(),
    {
        let ghost before = buffer@;
        match extract_sse_block(&mut buffer) {
            Some(block) => {
                let found = extract_sse_data_payload(block.as_str());
                let ghost next = taken + at_most_one(text::view_of(found));
                proof {
                    assert(payloads(before) == at_most_one(payload(block@)) + payloads(buffer@));
                    assert(next + payloads(buffer@) =~= taken + (at_most_one(payload(block@))
                        + payloads(buffer@)));
                }
                if let Some(data) = found {
                    proof {
                        assert(text::views(list@.push(data)) =~= taken + seq![data@]);
                    }
                    list.push(data);
                } else {
                    proof {
                        assert(next =~= taken);
                    }
                }
                proof {
                    taken = next;
                }
            },
            None => {
                if text::is_blank_text(buffer.as_str()) {
                    proof {
                        assert(taken + Seq::<Seq<char>>::empty() =~= taken);
                    }
                    return list;
                }
                if let Some(data) = extract_sse_data_payload(buffer.as_str()) {
                    proof {
                        assert(text::views(list@.push(data)) =~= taken + seq![data@]);
                    }
                    list.push(data);
                } else {
                    proof {
                        assert(taken + Seq::<Seq<char>>::empty() =~= taken);
                    }
                }
                return list;
            },
        }
    }
}

/// The longest beginning of a text whose UTF-8 bytes number at most `limit`.
pub open spec fn within_bytes(s: Seq<char>, limit: int) -> Seq<char>
    decreases s.len(),
{
    if s.len() == 0 || text::utf8_width(s[0]) > limit {
        Seq::empty()
    } else {
        seq![s[0]] + within_bytes(s.drop_first(), limit - text::utf8_width(s[0]))
    }
}

/// A response body as it stands in an error message.
pub open spec fn truncated(body: Seq<char>) -> Seq<char> {
    within_bytes(body, 500)
}

/// Truncates a response body for an error message, so that no megabytes of
/// markup end up in one: at most 500 bytes, and whole characters.
pub fn truncate_body(body: &str) -> (short: String)
    ensures
        short@ == truncated(body@),
{
    let chars = text::chars_of(body);
    let mut short = String::new();
    let mut left: usize = 500;
    let mut i: usize = 0;
    proof {
        assert(body@.subrange(0, body@.len() as int) =~= body@);
        assert(short@ + within_bytes(body@, 500) =~= within_bytes(body@, 500));
    }
    while i < chars.len()
        invariant
            i <= chars@.len(),
            chars@ == body@,
            short@ + within_bytes(body@.subrange(i as int, body@.len() as int), left as int)
                == within_bytes(body@, 500),
        decreases chars@.len() - i,
    {
        let c: char = chars[i];
        let width: usize = text::utf8_width_of(c);
        let ghost rest = body@.subrange(i as int, body@.len() as int);
        if width > left {
            proof {
                assert(short@ + Seq::<char>::empty() =~= short@);
            }
            return short;
        }
        proof {
            assert(rest.drop_first() =~= body@.subrange(i as int + 1, body@.len() as int));
            assert(short@.push(c) + within_bytes(rest.drop_first(), left - width) =~= short@ + (
            seq![c] + within_bytes(rest.drop_first(), left - width)));
        }
        short.push(c);
        left -= width;
        i += 1;
    }
    proof {
        assert(short@ + Seq::<char>::empty() =~= short@);
    }
    short
}

} // verus!
