//! A chat-completions reply as it arrives: chunks of text in, events out.
use crate::json;
use crate::json::{Json, JsonView};
use crate::llm::arguments;
use crate::llm::chat_sse;
use crate::llm::message;
use crate::llm::message::{
    CompletionError, ErrorView, RawStreamingChoice, RawStreamingResponse, StreamEvent,
};
use crate::llm::pending;
use crate::llm::pending::{OpenAiStreamingToolCall, PendingCall};
use crate::llm::replay;
use crate::llm::response;
use crate::llm::sse;
use crate::llm::stream_event;
use crate::llm::stream_event::Outcome;
use crate::text;
use std::collections::BTreeMap;
use vstd::prelude::*;

verus! {

/// What has arrived of a stream.
pub struct ChatStream {
    pub provider_label: String,
    /// Text behind the last complete block.
    pub block_buffer: String,
    /// All text up to the chunk in which the first data came.
    pub raw_text: String,
    /// The complete blocks.
    pub sse_text: String,
    pub saw_data_event: bool,
    pub pending_tool_calls: BTreeMap<usize, OpenAiStreamingToolCall>,
}

/// What a step of a stream yields: events, and then the error that ends the
/// stream, where there is one.
pub struct StreamStep {
    pub events: Vec<RawStreamingChoice>,
    pub error: Option<CompletionError>,
}

/// The view of a [`ChatStream`].
#[verifier::ext_equal]
pub struct StreamView {
    pub label: Seq<char>,
    pub buffer: Seq<char>,
    pub raw: Seq<char>,
    pub sse: Seq<char>,
    pub saw_data_event: bool,
    pub pending: Map<usize, PendingCall>,
}

impl View for ChatStream {
    type V = StreamView;

    open spec fn view(&self) -> StreamView {
        StreamView {
            label: self.provider_label@,
            buffer: self.block_buffer@,
            raw: self.raw_text@,
            sse: self.sse_text@,
            saw_data_event: self.saw_data_event,
            pending: pending::pending_view(self.pending_tool_calls@),
        }
    }
}

/// The view of an optional error.
pub open spec fn error_view(error: Option<CompletionError>) -> Option<ErrorView> {
    match error {
        Some(e) => Some(e@),
        None => None,
    }
}

/// The complete blocks of a text.
pub open spec fn blocks(buffer: Seq<char>) -> Seq<Seq<char>>
    decreases buffer.len(),
{
    match sse::next_block(buffer) {
        Some((block, rest)) => if rest.len() < buffer.len() {
            seq![block] + blocks(rest)
        } else {
            Seq::empty()
        },
        None => Seq::empty(),
    }
}

/// The text behind the last complete block.
pub open spec fn remainder(buffer: Seq<char>) -> Seq<char>
    decreases buffer.len(),
{
    match sse::next_block(buffer) {
        Some((_, rest)) => if rest.len() < buffer.len() {
            remainder(rest)
        } else {
            buffer
        },
        None => buffer,
    }
}

/// The data of a block, where it carries an event.
pub open spec fn event_data(block: Seq<char>) -> Option<Seq<char>> {
    match sse::payload(block) {
        Some(data) => if sse::is_no_event(text::trimmed(data)) {
            None
        } else {
            Some(text::trimmed(data))
        },
        None => None,
    }
}

/// The event of a block. Data that is no JSON is passed over.
pub open spec fn event_body(block: Seq<char>) -> Option<JsonView> {
    match event_data(block) {
        Some(data) => match json::parsed(data) {
            Ok(body) => Some(body),
            Err(_) => None,
        },
        None => None,
    }
}

/// The events of blocks, in order.
pub open spec fn event_bodies(list: Seq<Seq<char>>) -> Seq<JsonView>
    decreases list.len(),
{
    if list.len() == 0 {
        Seq::empty()
    } else {
        match event_body(list.last()) {
            Some(body) => event_bodies(list.drop_last()).push(body),
            None => event_bodies(list.drop_last()),
        }
    }
}

/// One of the blocks carries data of an event.
pub open spec fn has_event_data(list: Seq<Seq<char>>) -> bool
    decreases list.len(),
{
    list.len() > 0 && (event_data(list.last()) is Some || has_event_data(list.drop_last()))
}

/// Blocks as the text of a stream.
pub open spec fn sse_of(list: Seq<Seq<char>>) -> Seq<char>
    decreases list.len(),
{
    if list.len() == 0 {
        Seq::empty()
    } else {
        sse_of(list.drop_last()) + list.last() + "\n\n"@
    }
}

/// Events taken in, up to the first that fails, which yields nothing but its
/// error. `fresh` holds internal ids for each event.
pub open spec fn after_events(
    pending: Map<usize, PendingCall>,
    bodies: Seq<JsonView>,
    fresh: Seq<Seq<Seq<Seq<char>>>>,
) -> Outcome
    decreases bodies.len(),
{
    if bodies.len() == 0 {
        Outcome { pending, events: Seq::empty(), error: None }
    } else {
        let before = after_events(pending, bodies.drop_last(), fresh);
        if before.error is Some {
            before
        } else {
            and_then_event(before, bodies.last(), fresh[bodies.len() - 1])
        }
    }
}

/// One more event taken in.
pub open spec fn and_then_event(
    before: Outcome,
    body: JsonView,
    fresh: Seq<Seq<Seq<char>>>,
) -> Outcome {
    let one = stream_event::after_event(before.pending, body, fresh);
    Outcome {
        pending: one.pending,
        events: if one.error is Some {
            before.events
        } else {
            before.events + one.events
        },
        error: one.error,
    }
}

/// All ids have the shape of an internal id.
pub open spec fn ids_are_fresh(fresh: Seq<Seq<Seq<Seq<char>>>>) -> bool {
    forall|k: int| 0 <= k < fresh.len() ==> stream_event::are_call_ids(#[trigger] fresh[k])
}

/// There are ids for each event that is taken in.
pub open spec fn ids_suffice(
    pending: Map<usize, PendingCall>,
    bodies: Seq<JsonView>,
    fresh: Seq<Seq<Seq<Seq<char>>>>,
) -> bool {
    forall|k: int|
        0 <= k < bodies.len() && after_events(
            pending,
            #[trigger] bodies.subrange(0, k),
            fresh,
        ).error is None ==> k < fresh.len() && stream_event::enough_ids(bodies[k], fresh[k])
}

/// A stream after a chunk of text in which nothing failed.
pub open spec fn after_chunk(
    s: StreamView,
    chunk: Seq<char>,
    pending: Map<usize, PendingCall>,
) -> StreamView {
    let list = blocks(s.buffer + chunk);
    StreamView {
        label: s.label,
        buffer: remainder(s.buffer + chunk),
        raw: if s.saw_data_event {
            s.raw
        } else {
            s.raw + chunk
        },
        sse: s.sse + sse_of(list),
        saw_data_event: s.saw_data_event || has_event_data(list),
        pending,
    }
}

/// The view of a [`StreamStep`].
pub struct StepView {
    pub events: Seq<StreamEvent>,
    pub error: Option<ErrorView>,
}

impl View for StreamStep {
    type V = StepView;

    open spec fn view(&self) -> StepView {
        StepView { events: message::event_views(self.events@), error: error_view(self.error) }
    }
}

/// A stream takes in a chunk of text: the step yields the events of the blocks that
/// the chunk completes, up to the first that fails, and the stream moves on behind
/// them.
pub open spec fn takes_in(
    before: StreamView,
    chunk: Seq<char>,
    fresh: Seq<Seq<Seq<Seq<char>>>>,
    after: StreamView,
    step: StepView,
) -> bool {
    let bodies = event_bodies(blocks(before.buffer + chunk));
    let expected = after_events(before.pending, bodies, fresh);
    &&& ids_are_fresh(fresh)
    &&& ids_suffice(before.pending, bodies, fresh)
    &&& step.events == expected.events
    &&& step.error == expected.error
    &&& after.label == before.label
    &&& after.pending == expected.pending
    &&& expected.error is None ==> after == after_chunk(before, chunk, expected.pending)
}

/// The data that is left behind the last complete block, where it carries an event.
pub open spec fn left_over(s: StreamView) -> Option<Seq<char>> {
    if text::is_blank(s.buffer) {
        None
    } else {
        event_data(s.buffer)
    }
}

/// The event that is left behind the last complete block.
pub open spec fn left_over_body(s: StreamView) -> Option<JsonView> {
    match left_over(s) {
        Some(data) => match json::parsed(data) {
            Ok(body) => Some(body),
            Err(_) => None,
        },
        None => None,
    }
}

/// The end of a stream, as far as events go: what is left behind the last complete
/// block, and then the pending tool calls.
pub open spec fn last_events(s: StreamView, fresh: Seq<Seq<Seq<char>>>) -> StepView {
    let start = Outcome { pending: s.pending, events: Seq::empty(), error: None };
    let read = match left_over_body(s) {
        Some(body) => and_then_event(start, body, fresh),
        None => start,
    };
    if read.error is Some {
        StepView { events: read.events, error: read.error }
    } else {
        match pending::flushed(read.pending) {
            Ok(more) => StepView { events: read.events + more, error: None },
            Err(error) => StepView { events: read.events, error: Some(error) },
        }
    }
}

/// The final response of a reply.
pub open spec fn final_response(body: JsonView, usage: message::Usage) -> StreamEvent {
    StreamEvent::FinalResponse { body, usage: Some(usage) }
}

/// The final response of a stream of events: the reply that its blocks describe.
pub open spec fn final_of_events(sse_text: Seq<char>, label: Seq<char>) -> StepView {
    match chat_sse::chat_reply(sse_text, label) {
        Ok(body) => match response::openai_reply(body, label) {
            Ok(reply) => StepView {
                events: seq![final_response(body, reply.usage)],
                error: None,
            },
            Err(error) => StepView { events: Seq::empty(), error: Some(error) },
        },
        Err(error) => StepView { events: Seq::empty(), error: Some(error) },
    }
}

/// The events of a reply that came whole and not as events, from what the reader
/// makes of it; `fresh` holds an internal id for each part.
pub open spec fn whole_reply(
    raw: Seq<char>,
    label: Seq<char>,
    reading: Result<JsonView, Seq<char>>,
    fresh: Seq<Seq<char>>,
) -> StepView {
    match reading {
        Ok(body) => match response::openai_reply(body, label) {
            Ok(reply) => StepView {
                events: replay::choice_events(reply.choice, fresh) + (match reply.message_id {
                    Some(id) => seq![StreamEvent::MessageId(id)],
                    None => Seq::empty(),
                }) + seq![final_response(body, reply.usage)],
                error: None,
            },
            Err(error) => StepView { events: Seq::empty(), error: Some(error) },
        },
        Err(error) => StepView {
            events: Seq::empty(),
            error: Some(
                ErrorView::Provider(
                    label + " response is neither SSE nor JSON: "@ + error + ". Body: "@
                        + sse::truncated(raw),
                ),
            ),
        },
    }
}

/// A step yields the events of a reply that came whole.
pub open spec fn is_whole_reply(
    raw: Seq<char>,
    label: Seq<char>,
    reading: Result<JsonView, Seq<char>>,
    fresh: Seq<Seq<char>>,
    step: StepView,
) -> bool {
    &&& replay::are_ids(fresh)
    &&& part_ids_suffice(reading, label, fresh)
    &&& step == whole_reply(raw, label, reading, fresh)
}

/// There is an id for each part of a reply that came whole.
pub open spec fn part_ids_suffice(
    reading: Result<JsonView, Seq<char>>,
    label: Seq<char>,
    fresh: Seq<Seq<char>>,
) -> bool {
    match reading {
        Ok(body) => match response::openai_reply(body, label) {
            Ok(reply) => reply.choice.len() <= fresh.len(),
            Err(_) => true,
        },
        Err(_) => true,
    }
}

/// The end of a stream: the last events, and the final response, which is made from
/// the events where there were any and from the whole text where there were none.
pub open spec fn finished(
    s: StreamView,
    fresh: Seq<Seq<Seq<char>>>,
    part_ids: Seq<Seq<char>>,
) -> StepView {
    let last = last_events(s, fresh);
    if last.error is Some {
        last
    } else {
        let end = if s.saw_data_event || left_over(s) is Some {
            final_of_events(s.sse, s.label)
        } else {
            whole_reply(s.raw, s.label, json::parsed(s.raw), part_ids)
        };
        StepView { events: last.events + end.events, error: end.error }
    }
}

/// A stream's events end with a step that its text fixes up to internal ids.
pub open spec fn ends_events(s: StreamView, fresh: Seq<Seq<Seq<char>>>, step: StepView) -> bool {
    &&& stream_event::are_call_ids(fresh)
    &&& left_over_body(s) matches Some(body) ==> stream_event::enough_ids(body, fresh)
    &&& step == last_events(s, fresh)
}

/// A stream ends with a step that its text fixes up to internal ids.
pub open spec fn ends_with(
    s: StreamView,
    fresh: Seq<Seq<Seq<char>>>,
    part_ids: Seq<Seq<char>>,
    step: StepView,
) -> bool {
    &&& stream_event::are_call_ids(fresh)
    &&& left_over_body(s) matches Some(body) ==> stream_event::enough_ids(body, fresh)
    &&& replay::are_ids(part_ids)
    &&& last_events(s, fresh).error is None && !s.saw_data_event && left_over(s) is None
        ==> part_ids_suffice(json::parsed(s.raw), s.label, part_ids)
    &&& step == finished(s, fresh, part_ids)
}

// ---------------------------------------------------------------------------
// Lemmas
// ---------------------------------------------------------------------------

/// Ids beyond the events do not matter.
proof fn lemma_only_used_ids_matter(
    pending: Map<usize, PendingCall>,
    bodies: Seq<JsonView>,
    a: Seq<Seq<Seq<Seq<char>>>>,
    b: Seq<Seq<Seq<Seq<char>>>>,
)
    requires
        forall|k: int| 0 <= k < bodies.len() ==> a[k] == b[k],
    ensures
        after_events(pending, bodies, a) == after_events(pending, bodies, b),
    decreases bodies.len(),
{
    if bodies.len() > 0 {
        lemma_only_used_ids_matter(pending, bodies.drop_last(), a, b);
    }
}

/// Once an event has failed, later ones change nothing.
proof fn lemma_failed_event_stays(
    pending: Map<usize, PendingCall>,
    bodies: Seq<JsonView>,
    fresh: Seq<Seq<Seq<Seq<char>>>>,
    n: int,
)
    requires
        0 <= n <= bodies.len(),
        after_events(pending, bodies.subrange(0, n), fresh).error is Some,
    ensures
        after_events(pending, bodies, fresh) == after_events(
            pending,
            bodies.subrange(0, n),
            fresh,
        ),
    decreases bodies.len(),
{
    if n == bodies.len() {
        assert(bodies.subrange(0, n) =~= bodies);
    } else {
        assert(bodies.drop_last().subrange(0, n) =~= bodies.subrange(0, n));
        lemma_failed_event_stays(pending, bodies.drop_last(), fresh, n);
    }
}

/// Ids for the events up to one that failed are enough.
proof fn lemma_ids_suffice_up_to_a_failure(
    pending: Map<usize, PendingCall>,
    bodies: Seq<JsonView>,
    fresh: Seq<Seq<Seq<Seq<char>>>>,
)
    requires
        fresh.len() <= bodies.len(),
        after_events(pending, bodies.subrange(0, fresh.len() as int), fresh).error is Some,
        forall|k: int|
            0 <= k < fresh.len() ==> #[trigger] stream_event::enough_ids(bodies[k], fresh[k]),
    ensures
        ids_suffice(pending, bodies, fresh),
{
    let n = fresh.len() as int;
    assert forall|k: int|
        #![trigger bodies.subrange(0, k)]
        0 <= k < bodies.len() && after_events(pending, bodies.subrange(0, k), fresh).error
            is None implies k < fresh.len() && stream_event::enough_ids(bodies[k], fresh[k]) by {
        if k >= n {
            let first = bodies.subrange(0, k);
            assert(first.subrange(0, n) =~= bodies.subrange(0, n));
            lemma_failed_event_stays(pending, first, fresh, n);
        }
    }
}

/// The events of the first blocks come first.
proof fn lemma_event_bodies_concat(a: Seq<Seq<char>>, b: Seq<Seq<char>>)
    ensures
        event_bodies(a + b) == event_bodies(a) + event_bodies(b),
    decreases b.len(),
{
    if b.len() == 0 {
        assert(a + b =~= a);
        assert(event_bodies(a) + event_bodies(b) =~= event_bodies(a));
    } else {
        assert((a + b).drop_last() =~= a + b.drop_last());
        assert((a + b).last() == b.last());
        lemma_event_bodies_concat(a, b.drop_last());
        match event_body(b.last()) {
            Some(body) => {
                assert((event_bodies(a) + event_bodies(b.drop_last())).push(body) =~= event_bodies(
                    a,
                ) + event_bodies(b.drop_last()).push(body));
            },
            None => {},
        }
    }
}

// ---------------------------------------------------------------------------
// Laws
// ---------------------------------------------------------------------------

/// A text parts its blocks by one kind of separator.
pub open spec fn has_one_separator(s: Seq<char>) -> bool {
    !(text::has(s, seq!['\n', '\n']) && text::has(s, seq!['\r', '\n', '\r', '\n']))
}

/// The next block of a text is its next block with more text behind it, too.
proof fn lemma_next_block_stays(x: Seq<char>, y: Seq<char>, block: Seq<char>, rest: Seq<char>)
    requires
        has_one_separator(x + y),
        sse::next_block(x) == Some((block, rest)),
    ensures
        sse::next_block(x + y) == Some((block, rest + y)),
        has_one_separator(rest + y),
        rest.len() < x.len(),
{
    let short = seq!['\n', '\n'];
    let long = seq!['\r', '\n', '\r', '\n'];
    let separator = if text::has(x, short) {
        short
    } else {
        long
    };
    text::lemma_position_of(x, separator);
    text::lemma_position_stays(x, y, separator);
    let at = text::position_of(x, separator)->0;
    let whole = x + y;
    assert(whole.subrange(0, at) =~= x.subrange(0, at));
    assert(whole.subrange(at + separator.len(), whole.len() as int) =~= x.subrange(
        at + separator.len(),
        x.len() as int,
    ) + y);
    let before = x.subrange(0, at + separator.len());
    assert(whole =~= before + (rest + y));
    if text::has(rest + y, short) {
        text::lemma_has_behind(before, rest + y, short);
    }
    if text::has(rest + y, long) {
        text::lemma_has_behind(before, rest + y, long);
    }
}

/// It does not matter to the blocks of a text in which pieces it arrives, as long as
/// they are parted by one kind of separator: the blocks of the first piece, and then
/// those of what it leaves with the second behind it, are those of the whole.
pub proof fn law_blocks_do_not_depend_on_pieces(x: Seq<char>, y: Seq<char>)
    requires
        has_one_separator(x + y),
    ensures
        blocks(x + y) == blocks(x) + blocks(remainder(x) + y),
        remainder(x + y) == remainder(remainder(x) + y),
    decreases x.len(),
{
    match sse::next_block(x) {
        None => {
            assert(Seq::<Seq<char>>::empty() + blocks(x + y) =~= blocks(x + y));
        },
        Some((block, rest)) => {
            lemma_next_block_stays(x, y, block, rest);
            law_blocks_do_not_depend_on_pieces(rest, y);
            assert(seq![block] + (blocks(rest) + blocks(remainder(rest) + y)) =~= (seq![block]
                + blocks(rest)) + blocks(remainder(rest) + y));
        },
    }
}

/// Events taken in after others are taken in with them.
proof fn lemma_after_more_events(
    pending: Map<usize, PendingCall>,
    first: Seq<JsonView>,
    second: Seq<JsonView>,
    a: Seq<Seq<Seq<Seq<char>>>>,
    b: Seq<Seq<Seq<Seq<char>>>>,
)
    requires
        a.len() == first.len(),
        after_events(pending, first, a).error is None,
        ids_suffice(after_events(pending, first, a).pending, second, b),
    ensures
        ({
            let one = after_events(pending, first, a);
            let two = after_events(one.pending, second, b);
            after_events(pending, first + second, a + b) == (Outcome {
                pending: two.pending,
                events: one.events + two.events,
                error: two.error,
            })
        }),
    decreases second.len(),
{
    let one = after_events(pending, first, a);
    if second.len() == 0 {
        assert(first + second =~= first);
        lemma_only_used_ids_matter(pending, first, a, a + b);
        assert(one.events + Seq::<StreamEvent>::empty() =~= one.events);
    } else {
        let shorter = second.drop_last();
        assert forall|k: int|
            #![trigger shorter.subrange(0, k)]
            0 <= k < shorter.len() && after_events(
                one.pending,
                shorter.subrange(0, k),
                b,
            ).error is None implies k < b.len() && stream_event::enough_ids(shorter[k], b[k]) by {
            assert(shorter.subrange(0, k) =~= second.subrange(0, k));
        }
        lemma_after_more_events(pending, first, shorter, a, b);
        assert((first + second).drop_last() =~= first + shorter);
        assert((first + second).last() == second.last());
        let two = after_events(one.pending, shorter, b);
        if two.error is None {
            assert(second.subrange(0, shorter.len() as int) =~= shorter);
            assert((a + b)[(first + second).len() - 1] == b[second.len() - 1]);
            let more = stream_event::after_event(two.pending, second.last(), b[second.len() - 1]);
            assert((one.events + two.events) + more.events =~= one.events + (two.events
                + more.events));
        }
    }
}

/// The text of blocks and of more blocks is that of all of them.
proof fn lemma_sse_of_concat(a: Seq<Seq<char>>, b: Seq<Seq<char>>)
    ensures
        sse_of(a + b) == sse_of(a) + sse_of(b),
        has_event_data(a + b) == (has_event_data(a) || has_event_data(b)),
    decreases b.len(),
{
    if b.len() == 0 {
        assert(a + b =~= a);
        assert(sse_of(a) + sse_of(b) =~= sse_of(a));
    } else {
        assert((a + b).drop_last() =~= a + b.drop_last());
        assert((a + b).last() == b.last());
        lemma_sse_of_concat(a, b.drop_last());
        assert(sse_of(a) + sse_of(b.drop_last()) + b.last() + "\n\n"@ =~= sse_of(a) + (sse_of(
            b.drop_last(),
        ) + b.last() + "\n\n"@));
    }
}

/// Ids for some events and then for others are ids for all of them.
proof fn lemma_ids_suffice_for_more(
    pending: Map<usize, PendingCall>,
    first: Seq<JsonView>,
    second: Seq<JsonView>,
    a: Seq<Seq<Seq<Seq<char>>>>,
    b: Seq<Seq<Seq<Seq<char>>>>,
)
    requires
        a.len() == first.len(),
        after_events(pending, first, a).error is None,
        forall|k: int|
            0 <= k < first.len() ==> #[trigger] stream_event::enough_ids(first[k], a[k]),
        ids_suffice(after_events(pending, first, a).pending, second, b),
    ensures
        ids_suffice(pending, first + second, a + b),
{
    let all = first + second;
    let ids = a + b;
    let middle = after_events(pending, first, a).pending;
    assert forall|k: int|
        #![trigger all.subrange(0, k)]
        0 <= k < all.len() && after_events(pending, all.subrange(0, k), ids).error
            is None implies k < ids.len() && stream_event::enough_ids(all[k], ids[k]) by {
        if k < first.len() {
            assert(stream_event::enough_ids(first[k], a[k]));
        } else {
            let n = k - first.len();
            let part = second.subrange(0, n);
            assert(all.subrange(0, k) =~= first + part);
            assert forall|j: int|
                #![trigger part.subrange(0, j)]
                0 <= j < part.len() && after_events(middle, part.subrange(0, j), b).error
                    is None implies j < b.len() && stream_event::enough_ids(part[j], b[j]) by {
                assert(part.subrange(0, j) =~= second.subrange(0, j));
            }
            lemma_after_more_events(pending, first, part, a, b);
            assert(stream_event::enough_ids(second[n], b[n]));
        }
    }
}

/// A run of events in which nothing failed has ids for each of them.
proof fn lemma_ids_of_a_run(
    pending: Map<usize, PendingCall>,
    bodies: Seq<JsonView>,
    fresh: Seq<Seq<Seq<Seq<char>>>>,
)
    requires
        ids_suffice(pending, bodies, fresh),
        after_events(pending, bodies, fresh).error is None,
    ensures
        bodies.len() <= fresh.len(),
        forall|k: int|
            0 <= k < bodies.len() ==> #[trigger] stream_event::enough_ids(bodies[k], fresh[k]),
{
    assert forall|k: int| 0 <= k < bodies.len() implies k < fresh.len()
        && #[trigger] stream_event::enough_ids(bodies[k], fresh[k]) by {
        if after_events(pending, bodies.subrange(0, k), fresh).error is Some {
            lemma_failed_event_stays(pending, bodies, fresh, k);
        }
    }
    if bodies.len() > 0 {
        assert(stream_event::enough_ids(bodies[bodies.len() - 1], fresh[bodies.len() - 1]));
    }
}

/// A stream after two pieces of text, but for the text that is kept until the first
/// event is seen: that is kept whole where both pieces come at once.
pub open spec fn after_pieces(
    start: StreamView,
    a: Seq<char>,
    b: Seq<char>,
    end: StreamView,
) -> StreamView {
    StreamView {
        raw: if start.saw_data_event {
            start.raw
        } else {
            start.raw + (a + b)
        },
        ..end
    }
}

/// It does not matter in which pieces the text of a stream arrives, as long as its
/// blocks are parted by one kind of separator: two pieces that come one after the
/// other yield together what they yield when they come as one.
pub proof fn law_stream_does_not_depend_on_pieces(
    start: StreamView,
    a: Seq<char>,
    b: Seq<char>,
    fresh_a: Seq<Seq<Seq<Seq<char>>>>,
    fresh_b: Seq<Seq<Seq<Seq<char>>>>,
    middle: StreamView,
    end: StreamView,
    step_a: StepView,
    step_b: StepView,
)
    requires
        has_one_separator(start.buffer + a + b),
        takes_in(start, a, fresh_a, middle, step_a),
        step_a.error is None,
        takes_in(middle, b, fresh_b, end, step_b),
    ensures
        exists|fresh: Seq<Seq<Seq<Seq<char>>>>| #[trigger]
            takes_in(
                start,
                a + b,
                fresh,
                after_pieces(start, a, b, end),
                StepView { events: step_a.events + step_b.events, error: step_b.error },
            ),
{
    let x = start.buffer + a;
    law_blocks_do_not_depend_on_pieces(x, b);
    assert(start.buffer + (a + b) =~= x + b);
    let list_a = blocks(x);
    let list_b = blocks(remainder(x) + b);
    lemma_event_bodies_concat(list_a, list_b);
    lemma_sse_of_concat(list_a, list_b);
    let first = event_bodies(list_a);
    let second = event_bodies(list_b);
    lemma_ids_of_a_run(start.pending, first, fresh_a);
    let ids = fresh_a.subrange(0, first.len() as int);
    lemma_only_used_ids_matter(start.pending, first, fresh_a, ids);
    assert forall|k: int| 0 <= k < first.len() implies #[trigger] stream_event::enough_ids(
        first[k],
        ids[k],
    ) by {
        assert(stream_event::enough_ids(first[k], fresh_a[k]));
    }
    lemma_after_more_events(start.pending, first, second, ids, fresh_b);
    lemma_ids_suffice_for_more(start.pending, first, second, ids, fresh_b);
    let fresh = ids + fresh_b;
    assert forall|k: int| 0 <= k < fresh.len() implies stream_event::are_call_ids(
        #[trigger] fresh[k],
    ) by {
        if k < ids.len() {
            assert(stream_event::are_call_ids(fresh_a[k]));
        } else {
            assert(stream_event::are_call_ids(fresh_b[k - ids.len()]));
        }
    }
    let step = StepView { events: step_a.events + step_b.events, error: step_b.error };
    let after = after_pieces(start, a, b, end);
    if step.error is None {
        assert(start.sse + sse_of(list_a) + sse_of(list_b) =~= start.sse + (sse_of(list_a)
            + sse_of(list_b)));
        assert(after =~= after_chunk(start, a + b, end.pending));
    }
    assert(takes_in(start, a + b, fresh, after, step));
}

// ---------------------------------------------------------------------------
// Executable functions
// ---------------------------------------------------------------------------

/// The text that `String::from_utf8_lossy` makes of bytes.
pub uninterp spec fn lossy_text(bytes: Seq<u8>) -> Seq<char>;

/// `String::from_utf8_lossy`: bytes as text, with replacement characters for what
/// is no UTF-8. The text depends on the bytes alone.
#[verifier::external_body]
fn text_of_bytes(bytes: &Vec<u8>) -> (t: String)
    ensures
        t@ == lossy_text(bytes@),
{
    String::from_utf8_lossy(bytes).to_string()
}

/// The data of a block, where it carries an event.
fn data_of_block(block: &str) -> (data: Option<String>)
    ensures
        text::view_of(data) == event_data(block@),
{
    match sse::extract_sse_data_payload(block) {
        Some(payload) => {
            let data = text::trim(payload.as_str());
            if chat_sse::is_no_event_text(data.as_str()) {
                None
            } else {
                Some(data)
            }
        },
        None => None,
    }
}

impl ChatStream {
    /// A stream of which nothing has arrived.
    pub fn new(provider_label: String) -> (stream: ChatStream)
        ensures
            stream@ == (StreamView {
                label: provider_label@,
                buffer: Seq::empty(),
                raw: Seq::empty(),
                sse: Seq::empty(),
                saw_data_event: false,
                pending: Map::empty(),
            }),
    {
        let stream = ChatStream {
            provider_label,
            block_buffer: String::new(),
            raw_text: String::new(),
            sse_text: String::new(),
            saw_data_event: false,
            pending_tool_calls: BTreeMap::new(),
        };
        proof {
            assert(pending::pending_view(stream.pending_tool_calls@) =~= Map::<
                usize,
                PendingCall,
            >::empty());
        }
        stream
    }

    /// Takes in a chunk of bytes.
    pub fn push_chunk(&mut self, chunk: &Vec<u8>) -> (step: StreamStep)
        ensures
            exists|fresh: Seq<Seq<Seq<Seq<char>>>>| #[trigger]
                takes_in(old(self)@, lossy_text(chunk@), fresh, final(self)@, step@),
    {
        let chunk_text = text_of_bytes(chunk);
        self.push_text(chunk_text.as_str())
    }

    /// Takes in a chunk of text: the events of the blocks that it completes.
    pub fn push_text(&mut self, chunk_text: &str) -> (step: StreamStep)
        ensures
            exists|fresh: Seq<Seq<Seq<Seq<char>>>>| #[trigger]
                takes_in(old(self)@, chunk_text@, fresh, final(self)@, step@),
    {
        let ghost start = self@;
        let ghost whole = start.buffer + chunk_text@;
        if !self.saw_data_event {
            self.raw_text.append(chunk_text);
        }
        self.block_buffer.append(chunk_text);
        let ghost raw = self@.raw;
        let mut events: Vec<RawStreamingChoice> = Vec::new();
        let ghost mut done = Seq::<Seq<char>>::empty();
        let ghost mut fresh = Seq::<Seq<Seq<Seq<char>>>>::empty();
        proof {
            assert(message::event_views(events@) =~= Seq::<StreamEvent>::empty());
            assert(done + blocks(whole) =~= blocks(whole));
            assert(start.sse + sse_of(done) =~= start.sse);
        }
        loop
            invariant
                start == old(self)@,
                whole == start.buffer + chunk_text@,
                self@.label == start.label,
                self@.raw == raw,
                self@.sse == start.sse + sse_of(done),
                self@.saw_data_event == (start.saw_data_event || has_event_data(done)),
                done + blocks(self@.buffer) == blocks(whole),
                remainder(self@.buffer) == remainder(whole),
                fresh.len() == event_bodies(done).len(),
                ids_are_fresh(fresh),
                forall|k: int|
                    0 <= k < fresh.len() ==> #[trigger] stream_event::enough_ids(
                        event_bodies(done)[k],
                        fresh[k],
                    ),
                after_events(start.pending, event_bodies(done), fresh) == (Outcome {
                    pending: self@.pending,
                    events: message::event_views(events@),
                    error: None,
                }),
            ensures
                self@.label == start.label,
                self@.raw == raw,
                self@.sse == start.sse + sse_of(done),
                self@.saw_data_event == (start.saw_data_event || has_event_data(done)),
                done == blocks(whole),
                self@.buffer == remainder(whole),
                ids_are_fresh(fresh),
                fresh.len() == event_bodies(done).len(),
                forall|k: int|
                    0 <= k < fresh.len() ==> #[trigger] stream_event::enough_ids(
                        event_bodies(done)[k],
                        fresh[k],
                    ),
                after_events(start.pending, event_bodies(done), fresh) == (Outcome {
                    pending: self@.pending,
                    events: message::event_views(events@),
                    error: None,
                }),
            decreases self@.buffer.len(),
        {
            let ghost buffer0 = self@.buffer;
            let block = match sse::extract_sse_block(&mut self.block_buffer) {
                Some(block) => block,
                None => {
                    proof {
                        assert(done + Seq::<Seq<char>>::empty() =~= done);
                    }
                    break;
                },
            };
            self.sse_text.append(block.as_str());
            self.sse_text.append("\n\n");
            let ghost next = done.push(block@);
            proof {
                assert(next.drop_last() =~= done);
                assert(next.last() == block@);
                assert(blocks(buffer0) == seq![block@] + blocks(self@.buffer));
                assert(next + blocks(self@.buffer) =~= done + (seq![block@] + blocks(
                    self@.buffer,
                )));
                assert(self@.sse =~= start.sse + sse_of(next));
            }
            if let Some(data) = data_of_block(block.as_str()) {
                self.saw_data_event = true;
                if let Ok(body) = Json::parse(data.as_str()) {
                    let ghost pending0 = self@.pending;
                    let ghost events0 = message::event_views(events@);
                    let outcome = stream_event::process_openai_chat_stream_event(
                        &body,
                        &mut self.pending_tool_calls,
                    );
                    proof {
                        let ids = choose|ids: Seq<Seq<Seq<char>>>|
                            {
                                let expected = #[trigger] stream_event::after_event(
                                    pending0,
                                    body@,
                                    ids,
                                );
                                &&& stream_event::are_call_ids(ids)
                                &&& stream_event::enough_ids(body@, ids)
                                &&& self@.pending == expected.pending
                                &&& match outcome {
                                    Ok(more) => expected.error is None && message::event_views(
                                        more@,
                                    ) == expected.events,
                                    Err(error) => expected.error == Some(error@),
                                }
                            };
                        let longer = fresh.push(ids);
                        lemma_only_used_ids_matter(
                            start.pending,
                            event_bodies(done),
                            fresh,
                            longer,
                        );
                        assert(event_bodies(next).drop_last() =~= event_bodies(done));
                        assert(event_bodies(next).last() == body@);
                        assert(longer[event_bodies(done).len() as int] == ids);
                        assert forall|k: int| 0 <= k < longer.len() implies
                            #[trigger] stream_event::enough_ids(
                            event_bodies(next)[k],
                            longer[k],
                        ) by {
                            if k < fresh.len() {
                                assert(stream_event::enough_ids(event_bodies(done)[k], fresh[k]));
                            }
                        }
                        fresh = longer;
                    }
                    match outcome {
                        Ok(more) => {
                            let mut more = more;
                            let ghost had = events@;
                            let ghost added = more@;
                            events.append(&mut more);
                            proof {
                                assert(events@ =~= had + added);
                                assert(message::event_views(events@) =~= events0
                                    + message::event_views(added));
                            }
                        },
                        Err(error) => {
                            proof {
                                let rest = blocks(self@.buffer);
                                lemma_event_bodies_concat(next, rest);
                                let all = event_bodies(blocks(whole));
                                assert(all.subrange(0, event_bodies(next).len() as int)
                                    =~= event_bodies(next));
                                let n = event_bodies(next).len() as int;
                                lemma_failed_event_stays(start.pending, all, fresh, n);
                                assert forall|k: int| 0 <= k < n implies
                                    #[trigger] stream_event::enough_ids(all[k], fresh[k]) by {
                                    assert(all[k] == event_bodies(next)[k]);
                                    assert(stream_event::enough_ids(
                                        event_bodies(next)[k],
                                        fresh[k],
                                    ));
                                }
                                lemma_ids_suffice_up_to_a_failure(start.pending, all, fresh);
                            }
                            let step = StreamStep { events, error: Some(error) };
                            proof {
                                assert(takes_in(start, chunk_text@, fresh, self@, step@));
                            }
                            return step;
                        },
                    }
                }
            }
            proof {
                done = next;
            }
        }
        let step = StreamStep { events, error: None };
        proof {
            assert(self@ =~= after_chunk(start, chunk_text@, self@.pending));
            assert(takes_in(start, chunk_text@, fresh, self@, step@));
        }
        step
    }

    /// Takes in what is left behind the last complete block, and completes the
    /// pending tool calls.
    fn end_events(&mut self) -> (step: StreamStep)
        ensures
            exists|fresh: Seq<Seq<Seq<char>>>| #[trigger] ends_events(old(self)@, fresh, step@),
            final(self)@.label == old(self)@.label,
            final(self)@.raw == old(self)@.raw,
            final(self)@.sse == old(self)@.sse,
            final(self)@.saw_data_event == (old(self)@.saw_data_event || left_over(old(self)@)
                is Some),
    {
        let ghost start = self@;
        let mut events: Vec<RawStreamingChoice> = Vec::new();
        let ghost mut fresh = Seq::<Seq<Seq<char>>>::empty();
        proof {
            assert(message::event_views(events@) =~= Seq::<StreamEvent>::empty());
        }
        let data = if text::is_blank_text(self.block_buffer.as_str()) {
            None
        } else {
            data_of_block(self.block_buffer.as_str())
        };
        if let Some(data) = data {
            self.saw_data_event = true;
            if let Ok(body) = Json::parse(data.as_str()) {
                let outcome = stream_event::process_openai_chat_stream_event(
                    &body,
                    &mut self.pending_tool_calls,
                );
                proof {
                    fresh = choose|ids: Seq<Seq<Seq<char>>>|
                        {
                            let expected = #[trigger] stream_event::after_event(
                                start.pending,
                                body@,
                                ids,
                            );
                            &&& stream_event::are_call_ids(ids)
                            &&& stream_event::enough_ids(body@, ids)
                            &&& self@.pending == expected.pending
                            &&& match outcome {
                                Ok(more) => expected.error is None && message::event_views(more@)
                                    == expected.events,
                                Err(error) => expected.error == Some(error@),
                            }
                        };
                }
                match outcome {
                    Ok(more) => {
                        events = more;
                        proof {
                            assert(Seq::<StreamEvent>::empty() + message::event_views(more@)
                                =~= message::event_views(more@));
                        }
                    },
                    Err(error) => {
                        let step = StreamStep { events, error: Some(error) };
                        proof {
                            assert(ends_events(start, fresh, step@));
                        }
                        return step;
                    },
                }
            }
        }
        let ghost events0 = message::event_views(events@);
        match pending::flush_openai_streaming_tool_calls(&mut self.pending_tool_calls) {
            Ok(more) => {
                let mut more = more;
                let ghost had = events@;
                let ghost added = more@;
                events.append(&mut more);
                let step = StreamStep { events, error: None };
                proof {
                    assert(events@ =~= had + added);
                    assert(message::event_views(events@) =~= events0 + message::event_views(added));
                    assert(ends_events(start, fresh, step@));
                }
                step
            },
            Err(error) => {
                let step = StreamStep { events, error: Some(error) };
                proof {
                    assert(ends_events(start, fresh, step@));
                }
                step
            },
        }
    }

    /// Takes in the end of the stream.
    pub fn finish(self) -> (step: StreamStep)
        ensures
            exists|fresh: Seq<Seq<Seq<char>>>, part_ids: Seq<Seq<char>>| #[trigger]
                ends_with(self@, fresh, part_ids, step@),
    {
        let ghost start = self@;
        let mut stream = self;
        let last = stream.end_events();
        let ghost fresh = choose|fresh: Seq<Seq<Seq<char>>>| #[trigger]
            ends_events(start, fresh, last@);
        let ghost no_ids = Seq::<Seq<char>>::empty();
        if last.error.is_some() {
            proof {
                assert(ends_with(start, fresh, no_ids, last@));
            }
            return last;
        }
        let mut events = last.events;
        let ghost events0 = message::event_views(events@);
        if stream.saw_data_event {
            let end = final_of_stream(stream.sse_text.as_str(), stream.provider_label.as_str());
            let ghost view = end@;
            let mut more = end.events;
            let ghost had = events@;
            let ghost added = more@;
            events.append(&mut more);
            let step = StreamStep { events, error: end.error };
            proof {
                assert(events@ =~= had + added);
                assert(message::event_views(events@) =~= events0 + message::event_views(added));
                assert(view == final_of_events(start.sse, start.label));
                assert(ends_with(start, fresh, no_ids, step@));
            }
            return step;
        }
        let reading = Json::parse(stream.raw_text.as_str());
        let end = whole_reply_events(
            reading,
            stream.raw_text.as_str(),
            stream.provider_label.as_str(),
        );
        let ghost view = end@;
        let ghost part_ids = choose|ids: Seq<Seq<char>>| #[trigger]
            is_whole_reply(start.raw, start.label, json::parsed(start.raw), ids, view);
        let mut more = end.events;
        let ghost had = events@;
        let ghost added = more@;
        events.append(&mut more);
        let step = StreamStep { events, error: end.error };
        proof {
            assert(events@ =~= had + added);
            assert(message::event_views(events@) =~= events0 + message::event_views(added));
            assert(exists|ids: Seq<Seq<char>>| #[trigger]
                is_whole_reply(start.raw, start.label, json::parsed(start.raw), ids, view));
            assert(ends_with(start, fresh, part_ids, step@));
        }
        step
    }
}

/// The final response of a stream of events.
fn final_of_stream(sse_text: &str, provider_label: &str) -> (step: StreamStep)
    ensures
        step@ == final_of_events(sse_text@, provider_label@),
{
    let mut events: Vec<RawStreamingChoice> = Vec::new();
    proof {
        assert(message::event_views(events@) =~= Seq::<StreamEvent>::empty());
    }
    let body = match chat_sse::parse_openai_chat_sse_response(sse_text, provider_label) {
        Ok(body) => body,
        Err(error) => {
            return StreamStep { events, error: Some(error) };
        },
    };
    let copy = body.duplicate();
    match response::parse_openai_response(copy, provider_label) {
        Ok(reply) => {
            let event = RawStreamingChoice::FinalResponse(
                RawStreamingResponse { body, usage: Some(reply.usage) },
            );
            let ghost shown = event@;
            events.push(event);
            proof {
                assert(message::event_views(events@) =~= seq![shown]);
            }
            StreamStep { events, error: None }
        },
        Err(error) => StreamStep { events, error: Some(error) },
    }
}

/// The events of a reply that came whole and not as events, from what the reader
/// made of it.
pub fn whole_reply_events(
    reading: Result<Json, String>,
    raw_text: &str,
    provider_label: &str,
) -> (step: StreamStep)
    ensures
        exists|fresh: Seq<Seq<char>>| #[trigger]
            is_whole_reply(
                raw_text@,
                provider_label@,
                arguments::reading_view(reading),
                fresh,
                step@,
            ),
{
    let ghost none = Seq::<Seq<char>>::empty();
    let ghost read = arguments::reading_view(reading);
    let mut events: Vec<RawStreamingChoice> = Vec::new();
    proof {
        assert(message::event_views(events@) =~= Seq::<StreamEvent>::empty());
    }
    let body = match reading {
        Ok(body) => body,
        Err(error) => {
            let shown = sse::truncate_body(raw_text);
            let step = StreamStep {
                events,
                error: Some(
                    CompletionError::ProviderError(
                        provider_label.to_owned().concat(
                            " response is neither SSE nor JSON: ",
                        ).concat(error.as_str()).concat(". Body: ").concat(shown.as_str()),
                    ),
                ),
            };
            proof {
                assert(is_whole_reply(raw_text@, provider_label@, read, none, step@));
            }
            return step;
        },
    };
    let copy = body.duplicate();
    match response::parse_openai_response(copy, provider_label) {
        Ok(reply) => {
            let ghost view = reply@;
            let mut events = replay::completion_choice_to_streaming_choices(&reply.choice);
            let ghost said = message::event_views(events@);
            let ghost fresh = choose|fresh: Seq<Seq<char>>|
                replay::are_ids(fresh) && fresh.len() == reply.choice@.len() && said
                    == #[trigger] replay::choice_events(view.choice, fresh);
            if let Some(id) = reply.message_id {
                replay::push_event(&mut events, RawStreamingChoice::MessageId(id));
            } else {
                proof {
                    assert(said + Seq::<StreamEvent>::empty() =~= said);
                }
            }
            let event = RawStreamingChoice::FinalResponse(
                RawStreamingResponse { body, usage: Some(reply.usage) },
            );
            replay::push_event(&mut events, event);
            let step = StreamStep { events, error: None };
            proof {
                assert(is_whole_reply(raw_text@, provider_label@, read, fresh, step@));
            }
            step
        },
        Err(error) => {
            let step = StreamStep { events, error: Some(error) };
            proof {
                assert(is_whole_reply(raw_text@, provider_label@, read, none, step@));
            }
            step
        },
    }
}

} // verus!
