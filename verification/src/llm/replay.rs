//! A whole reply as the events of a stream.
use crate::json;
use crate::llm::message;
use crate::llm::message::{
    AssistantContent, AssistantPart, CompletionResponse, RawResponse, RawStreamingChoice,
    RawStreamingResponse, RawStreamingToolCall, ReasoningContent, ReasoningPart, ResponseView,
    StreamEvent, Usage,
};
use crate::llm::stream_event;
use crate::text;
use vstd::prelude::*;

verus! {

/// Reasoning blocks as events.
pub open spec fn reasoning_events(id: Option<Seq<char>>, content: Seq<ReasoningPart>) -> Seq<
    StreamEvent,
> {
    content.map_values(|c: ReasoningPart| StreamEvent::Reasoning { id, content: c })
}

/// A part of a reply as events: empty text gives none. A tool call without an id
/// gets `fresh` as its internal id.
pub open spec fn part_events(part: AssistantPart, fresh: Seq<char>) -> Seq<StreamEvent> {
    match part {
        AssistantPart::Text(t) => if t.len() == 0 {
            Seq::empty()
        } else {
            seq![StreamEvent::Message(t)]
        },
        AssistantPart::ToolCall(call) => seq![
            StreamEvent::ToolCall {
                internal_call_id: if call.id.len() == 0 {
                    fresh
                } else {
                    call.id
                },
                call,
            },
        ],
        AssistantPart::Reasoning { id, content } => reasoning_events(id, content),
        AssistantPart::Image(_) => Seq::empty(),
    }
}

/// The parts of a reply as events; `fresh` holds an internal id for each part.
pub open spec fn choice_events(parts: Seq<AssistantPart>, fresh: Seq<Seq<char>>) -> Seq<StreamEvent>
    decreases parts.len(),
{
    if parts.len() == 0 {
        Seq::empty()
    } else {
        choice_events(parts.drop_last(), fresh) + part_events(parts.last(), fresh[parts.len() - 1])
    }
}

/// A whole reply as events: its message id, its parts, and the reply itself.
pub open spec fn response_events(response: ResponseView, fresh: Seq<Seq<char>>) -> Seq<
    StreamEvent,
> {
    (match response.message_id {
        Some(id) => seq![StreamEvent::MessageId(id)],
        None => Seq::empty(),
    }) + choice_events(response.choice, fresh) + seq![
        StreamEvent::FinalResponse { body: response.body, usage: Some(response.usage) },
    ]
}

/// All ids of a list have the shape of an internal id.
pub open spec fn are_ids(ids: Seq<Seq<char>>) -> bool {
    forall|i: int| 0 <= i < ids.len() ==> stream_event::is_call_id(#[trigger] ids[i])
}

/// Appends an event.
pub(crate) fn push_event(events: &mut Vec<RawStreamingChoice>, event: RawStreamingChoice)
    ensures
        message::event_views(final(events)@) == message::event_views(old(events)@) + seq![event@],
{
    let ghost before = message::event_views(events@);
    events.push(event);
    proof {
        assert(message::event_views(events@) =~= before + seq![event@]);
    }
}

/// Appends reasoning blocks as events.
fn push_reasoning(
    events: &mut Vec<RawStreamingChoice>,
    id: &Option<String>,
    content: &Vec<ReasoningContent>,
)
    ensures
        message::event_views(final(events)@) == message::event_views(old(events)@)
            + reasoning_events(text::view_of(*id), message::reasoning_parts(content@)),
{
    let ghost before = message::event_views(events@);
    let ghost all = message::reasoning_parts(content@);
    let ghost wanted = reasoning_events(text::view_of(*id), all);
    let mut i: usize = 0;
    proof {
        assert(before + wanted.subrange(0, 0) =~= before);
    }
    while i < content.len()
        invariant
            i <= content@.len(),
            all == message::reasoning_parts(content@),
            wanted == reasoning_events(text::view_of(*id), all),
            message::event_views(events@) == before + wanted.subrange(0, i as int),
        decreases content@.len() - i,
    {
        let event = RawStreamingChoice::Reasoning {
            id: message::duplicate_text(id),
            content: content[i].duplicate(),
        };
        proof {
            assert(event@ == wanted[i as int]);
            assert(before + wanted.subrange(0, i as int) + seq![event@] =~= before
                + wanted.subrange(0, i as int + 1));
        }
        push_event(events, event);
        i += 1;
    }
    proof {
        assert(wanted.subrange(0, wanted.len() as int) =~= wanted);
    }
}

/// Appends a part of a reply as events.
fn push_part(events: &mut Vec<RawStreamingChoice>, part: &AssistantContent, fresh_id: &str)
    ensures
        message::event_views(final(events)@) == message::event_views(old(events)@) + part_events(
            part@,
            fresh_id@,
        ),
{
    let ghost before = message::event_views(events@);
    proof {
        assert(before + Seq::<StreamEvent>::empty() =~= before);
    }
    match part {
        AssistantContent::Text(t) => {
            if !t.text.as_str().is_empty() {
                push_event(events, RawStreamingChoice::Message(t.text.clone()));
            }
        },
        AssistantContent::ToolCall(call) => {
            let internal_call_id = if call.id.as_str().is_empty() {
                fresh_id.to_owned()
            } else {
                call.id.clone()
            };
            let event = RawStreamingChoice::ToolCall(
                RawStreamingToolCall {
                    id: call.id.clone(),
                    internal_call_id,
                    call_id: message::duplicate_text(&call.call_id),
                    name: call.function.name.clone(),
                    arguments: call.function.arguments.duplicate(),
                    signature: message::duplicate_text(&call.signature),
                    additional_params: json::duplicate_option(&call.additional_params),
                },
            );
            push_event(events, event);
        },
        AssistantContent::Reasoning(reasoning) => push_reasoning(
            events,
            &reasoning.id,
            &reasoning.content,
        ),
        AssistantContent::Image(_) => {},
    }
}

/// The parts of a reply as events, with an internal id at hand for each part.
pub fn choice_events_with_ids(choice: &Vec<AssistantContent>, fresh_ids: &Vec<String>) -> (events:
    Vec<RawStreamingChoice>)
    requires
        choice@.len() <= fresh_ids@.len(),
    ensures
        message::event_views(events@) == choice_events(
            message::assistant_parts(choice@),
            text::views(fresh_ids@),
        ),
{
    let ghost all = message::assistant_parts(choice@);
    let ghost ids = text::views(fresh_ids@);
    let mut events: Vec<RawStreamingChoice> = Vec::new();
    let mut i: usize = 0;
    proof {
        assert(all.subrange(0, 0) =~= Seq::<AssistantPart>::empty());
        assert(message::event_views(events@) =~= Seq::<StreamEvent>::empty());
    }
    while i < choice.len()
        invariant
            i <= choice@.len(),
            choice@.len() <= fresh_ids@.len(),
            all == message::assistant_parts(choice@),
            ids == text::views(fresh_ids@),
            message::event_views(events@) == choice_events(all.subrange(0, i as int), ids),
        decreases choice@.len() - i,
    {
        proof {
            let next = all.subrange(0, i as int + 1);
            assert(next.drop_last() =~= all.subrange(0, i as int));
            assert(next.last() == choice@[i as int]@);
        }
        push_part(&mut events, &choice[i], fresh_ids[i].as_str());
        i += 1;
    }
    proof {
        assert(all.subrange(0, all.len() as int) =~= all);
    }
    events
}

/// The parts of a reply as events.
pub fn completion_choice_to_streaming_choices(choice: &Vec<AssistantContent>) -> (events: Vec<
    RawStreamingChoice,
>)
    ensures
        exists|fresh: Seq<Seq<char>>|
            are_ids(fresh) && fresh.len() == choice@.len() && message::event_views(events@)
                == #[trigger] choice_events(message::assistant_parts(choice@), fresh),
{
    let ids = stream_event::fresh_call_ids(choice.len());
    let events = choice_events_with_ids(choice, &ids);
    proof {
        let fresh = text::views(ids@);
        assert(are_ids(fresh));
        assert(message::event_views(events@) == choice_events(
            message::assistant_parts(choice@),
            fresh,
        ));
    }
    events
}

/// A whole reply as events, with an internal id at hand for each part.
pub fn response_events_with_ids(response: CompletionResponse, fresh_ids: &Vec<String>) -> (events:
    Vec<RawStreamingChoice>)
    requires
        response.choice@.len() <= fresh_ids@.len(),
    ensures
        message::event_views(events@) == response_events(response@, text::views(fresh_ids@)),
{
    let ghost view = response@;
    let ghost ids = text::views(fresh_ids@);
    let mut middle = choice_events_with_ids(&response.choice, fresh_ids);
    let ghost said = message::event_views(middle@);
    let mut events: Vec<RawStreamingChoice> = Vec::new();
    let ghost first = match view.message_id {
        Some(id) => seq![StreamEvent::MessageId(id)],
        None => Seq::empty(),
    };
    if let Some(id) = response.message_id {
        events.push(RawStreamingChoice::MessageId(id));
    }
    proof {
        assert(message::event_views(events@) =~= first);
    }
    let ghost had = events@;
    let ghost added = middle@;
    events.append(&mut middle);
    proof {
        assert(events@ =~= had + added);
        assert(message::event_views(events@) =~= first + said);
    }
    push_event(
        &mut events,
        RawStreamingChoice::FinalResponse(
            RawStreamingResponse {
                body: response.raw_response.body,
                usage: Some(response.usage),
            },
        ),
    );
    events
}

/// A whole reply as events.
pub fn stream_from_completion_response(response: CompletionResponse) -> (events: Vec<
    RawStreamingChoice,
>)
    ensures
        exists|fresh: Seq<Seq<char>>|
            are_ids(fresh) && fresh.len() == response.choice@.len() && message::event_views(events@)
                == #[trigger] response_events(response@, fresh),
{
    let ids = stream_event::fresh_call_ids(response.choice.len());
    let ghost fresh = text::views(ids@);
    let ghost view = response@;
    let events = response_events_with_ids(response, &ids);
    proof {
        assert(are_ids(fresh));
        assert(message::event_views(events@) == response_events(view, fresh));
    }
    events
}

/// A streamed reply once it has been read to its end: what was collected, with no
/// tokens and an empty body where the stream brought no final response.
pub fn collect_streaming_completion_response(
    choice: Vec<AssistantContent>,
    response: Option<RawStreamingResponse>,
    message_id: Option<String>,
) -> (collected: CompletionResponse)
    ensures
        collected.choice == choice,
        collected.message_id == message_id,
        match response {
            Some(r) => collected.raw_response.body == r.body && collected.usage == (
            match r.usage {
                Some(usage) => usage,
                None => message::zero_usage(),
            }),
            None => collected.raw_response.body@ == json::empty_object() && collected.usage
                == message::zero_usage(),
        },
{
    let (body, usage) = match response {
        Some(r) => (r.body, r.usage),
        None => (json::Json::object(), None),
    };
    let usage: Usage = match usage {
        Some(usage) => usage,
        None => Usage::zero(),
    };
    CompletionResponse { choice, usage, raw_response: RawResponse { body }, message_id }
}

/// The last event of a replayed reply is the reply itself, with its token counts.
pub proof fn law_replay_ends_with_the_reply(response: ResponseView, fresh: Seq<Seq<char>>)
    ensures
        response_events(response, fresh).last() == (StreamEvent::FinalResponse {
            body: response.body,
            usage: Some(response.usage),
        }),
{
}

/// A replayed reply says the texts of its parts in order, but for empty ones.
pub proof fn law_replay_says_the_text(parts: Seq<AssistantPart>, fresh: Seq<Seq<char>>)
    ensures
        stream_event::said(choice_events(parts, fresh)) == texts_of(parts),
    decreases parts.len(),
{
    if parts.len() > 0 {
        law_replay_says_the_text(parts.drop_last(), fresh);
        let before = choice_events(parts.drop_last(), fresh);
        let more = part_events(parts.last(), fresh[parts.len() - 1]);
        stream_event::lemma_said_concat(before, more);
        if let AssistantPart::Text(t) = parts.last() {
            if t.len() > 0 {
                reveal_with_fuel(stream_event::said, 2);
                assert(stream_event::said(more) =~= seq![t]);
                assert(texts_of(parts.drop_last()) + seq![t] =~= texts_of(
                    parts.drop_last(),
                ).push(t));
            } else {
                assert(texts_of(parts.drop_last()) + stream_event::said(more) =~= texts_of(
                    parts.drop_last(),
                ));
            }
        } else {
            stream_event::lemma_said_nothing(more);
            assert(texts_of(parts.drop_last()) + stream_event::said(more) =~= texts_of(
                parts.drop_last(),
            ));
        }
    }
}

/// The texts among the parts of a reply that are not empty, in order.
pub open spec fn texts_of(parts: Seq<AssistantPart>) -> Seq<Seq<char>>
    decreases parts.len(),
{
    if parts.len() == 0 {
        Seq::empty()
    } else {
        match parts.last() {
            AssistantPart::Text(t) => if t.len() > 0 {
                texts_of(parts.drop_last()).push(t)
            } else {
                texts_of(parts.drop_last())
            },
            _ => texts_of(parts.drop_last()),
        }
    }
}

} // verus!
