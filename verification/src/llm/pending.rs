//! Tool calls that a stream has begun and not finished, by their position.
use crate::json::{Json, JsonNumberView, JsonView};
use crate::llm::arguments;
use crate::llm::content;
use crate::llm::message;
use crate::llm::message::{
    CompletionError, ErrorView, RawStreamingChoice, RawStreamingToolCall, StreamEvent, ToolCallView,
};
use crate::text;
use std::collections::BTreeMap;
use vstd::prelude::*;

verus! {

broadcast use {vstd::std_specs::btree::group_btree_axioms, vstd::laws_cmp::group_laws_cmp};

/// The numbers stand in strictly increasing order.
pub open spec fn is_increasing(s: Seq<usize>) -> bool {
    forall|i: int, j: int| 0 <= i < j < s.len() ==> s[i] < s[j]
}

/// The members of a set of positions, smallest first.
pub open spec fn in_order(keys: Set<usize>) -> Seq<usize> {
    choose|s: Seq<usize>| is_increasing(s) && s.to_set() == keys
}

/// Two increasing sequences of the same members are the same.
proof fn lemma_increasing_is_unique(a: Seq<usize>, b: Seq<usize>)
    requires
        is_increasing(a),
        is_increasing(b),
        a.to_set() == b.to_set(),
    ensures
        a == b,
    decreases a.len(),
{
    if a.len() == 0 {
        if b.len() > 0 {
            assert(b.to_set().contains(b[0]));
            assert(a.to_set().contains(b[0]));
        }
        assert(a =~= b);
    } else {
        assert(a.to_set().contains(a.last()));
        assert(b.to_set().contains(a.last()));
        let i = choose|i: int| 0 <= i < b.len() && b[i] == a.last();
        assert(b.to_set().contains(b.last()));
        assert(a.to_set().contains(b.last()));
        let j = choose|j: int| 0 <= j < a.len() && a[j] == b.last();
        assert(a.last() == b.last());
        let a1 = a.drop_last();
        let b1 = b.drop_last();
        assert forall|x: usize| a1.to_set().contains(x) <==> b1.to_set().contains(x) by {
            if a1.to_set().contains(x) {
                let k = choose|k: int| 0 <= k < a1.len() && a1[k] == x;
                assert(a[k] == x);
                assert(a.to_set().contains(x));
                assert(b.to_set().contains(x));
                let m = choose|m: int| 0 <= m < b.len() && b[m] == x;
                assert(b1[m] == x);
                assert(b1.contains(x));
            }
            if b1.to_set().contains(x) {
                let k = choose|k: int| 0 <= k < b1.len() && b1[k] == x;
                assert(b[k] == x);
                assert(b.to_set().contains(x));
                assert(a.to_set().contains(x));
                let m = choose|m: int| 0 <= m < a.len() && a[m] == x;
                assert(a1[m] == x);
                assert(a1.contains(x));
            }
        }
        assert(a1.to_set() =~= b1.to_set());
        lemma_increasing_is_unique(a1, b1);
        assert(a =~= a1.push(a.last()));
        assert(b =~= b1.push(b.last()));
    }
}

/// An increasing sequence of a set's members is the set in order.
pub proof fn lemma_in_order(s: Seq<usize>)
    requires
        is_increasing(s),
    ensures
        in_order(s.to_set()) == s,
{
    let keys = s.to_set();
    assert(is_increasing(s) && s.to_set() == keys);
    lemma_increasing_is_unique(in_order(keys), s);
}

/// Positions are ordered as numbers are.
proof fn lemma_positions_are_ordered(names: Seq<usize>)
    ensures
        vstd::std_specs::btree::key_obeys_cmp_spec::<usize>(),
        vstd::std_specs::btree::increasing_seq(names) ==> is_increasing(names),
{
    assert(vstd::laws_cmp::obeys_cmp::<usize>());
    if vstd::std_specs::btree::increasing_seq(names) {
        assert forall|i: int, j: int| 0 <= i < j < names.len() implies names[i] < names[j] by {
            assert(vstd::std_specs::cmp::OrdSpec::cmp_spec(&names[i], &names[j]) is Less);
        }
    }
}

/// The positions of a map, smallest first.
pub fn positions<V>(map: &BTreeMap<usize, V>) -> (keys: Vec<usize>)
    ensures
        keys@ == in_order(map@.dom()),
        is_increasing(keys@),
        keys@.to_set() == map@.dom(),
{
    let mut keys: Vec<usize> = Vec::new();
    let listing = map.iter();
    let ghost listed = vstd::std_specs::iter::IteratorSpec::remaining(&listing);
    let ghost names = listed.map_values(|kv: (&usize, &V)| *kv.0);
    proof {
        lemma_positions_are_ordered(names);
    }
    for entry in iter: listing
        invariant
            iter.seq() == listed,
            names == listed.map_values(|kv: (&usize, &V)| *kv.0),
            keys@ == names.subrange(0, iter.index() as int),
    {
        proof {
            assert(names.subrange(0, iter.index() as int + 1) =~= names.subrange(
                0,
                iter.index() as int,
            ).push(*entry.0));
        }
        keys.push(*entry.0);
    }
    proof {
        assert(names.subrange(0, names.len() as int) =~= names);
        assert forall|k: usize| names.to_set().contains(k) <==> map@.dom().contains(k) by {
            if map@.contains_key(k) {
                assert(listed.contains((&k, &map@[k])));
                let i = choose|i: int| 0 <= i < listed.len() && listed[i] == (&k, &map@[k]);
                assert(names[i] == k);
            }
            if names.to_set().contains(k) {
                let i = choose|i: int| 0 <= i < names.len() && names[i] == k;
                assert(map@.contains_key(*listed[i].0));
            }
        }
        assert(names.to_set() =~= map@.dom());
        lemma_in_order(names);
    }
    keys
}

/// A tool call as far as a stream has brought it.
#[derive(Debug, PartialEq, Eq)]
pub struct OpenAiStreamingToolCall {
    pub id: String,
    pub internal_call_id: String,
    pub name: String,
    pub arguments: String,
}

/// The view of an [`OpenAiStreamingToolCall`].
pub struct PendingCall {
    pub id: Seq<char>,
    pub internal_call_id: Seq<char>,
    pub name: Seq<char>,
    pub arguments: Seq<char>,
}

impl View for OpenAiStreamingToolCall {
    type V = PendingCall;

    open spec fn view(&self) -> PendingCall {
        PendingCall {
            id: self.id@,
            internal_call_id: self.internal_call_id@,
            name: self.name@,
            arguments: self.arguments@,
        }
    }
}

/// The pending calls by their position.
pub open spec fn pending_view(map: Map<usize, OpenAiStreamingToolCall>) -> Map<usize, PendingCall> {
    map.map_values(|call: OpenAiStreamingToolCall| call@)
}

/// A tool call of which nothing has come yet but its internal id.
pub open spec fn new_call(internal_call_id: Seq<char>) -> PendingCall {
    PendingCall {
        id: Seq::empty(),
        internal_call_id,
        name: Seq::empty(),
        arguments: Seq::empty(),
    }
}

/// The call at a position, or a new one where none is pending there.
pub open spec fn call_at(
    pending: Map<usize, PendingCall>,
    index: usize,
    internal_call_id: Seq<char>,
) -> PendingCall {
    if pending.contains_key(index) {
        pending[index]
    } else {
        new_call(internal_call_id)
    }
}

/// Removes the call at a position.
pub fn take_call(pending: &mut BTreeMap<usize, OpenAiStreamingToolCall>, index: usize) -> (call:
    Option<OpenAiStreamingToolCall>)
    ensures
        pending_view(final(pending)@) == pending_view(old(pending)@).remove(index),
        match call {
            Some(c) => pending_view(old(pending)@).contains_key(index) && pending_view(
                old(pending)@,
            )[index] == c@,
            None => !pending_view(old(pending)@).contains_key(index),
        },
{
    let call = pending.remove(&index);
    proof {
        assert(pending_view(pending@) =~= pending_view(old(pending)@).remove(index));
    }
    call
}

/// Sets the call at a position.
pub fn put_call(
    pending: &mut BTreeMap<usize, OpenAiStreamingToolCall>,
    index: usize,
    call: OpenAiStreamingToolCall,
)
    ensures
        pending_view(final(pending)@) == pending_view(old(pending)@).insert(index, call@),
{
    pending.insert(index, call);
    proof {
        assert(pending_view(pending@) =~= pending_view(old(pending)@).insert(index, call@));
    }
}

/// Removes the call at a position, or makes a new one where none is pending there.
pub fn take_call_or_new(
    pending: &mut BTreeMap<usize, OpenAiStreamingToolCall>,
    index: usize,
    internal_call_id: &str,
) -> (call: OpenAiStreamingToolCall)
    ensures
        call@ == call_at(pending_view(old(pending)@), index, internal_call_id@),
        pending_view(final(pending)@) == pending_view(old(pending)@).remove(index),
{
    match take_call(pending, index) {
        Some(call) => call,
        None => OpenAiStreamingToolCall {
            id: String::new(),
            internal_call_id: internal_call_id.to_owned(),
            name: String::new(),
            arguments: String::new(),
        },
    }
}

/// The text of a key where there is one that is not empty, else `kept`.
pub open spec fn text_or(value: JsonView, key: Seq<char>, kept: Seq<char>) -> Seq<char> {
    match value.text_at(key) {
        Some(t) => if t.len() > 0 {
            t
        } else {
            kept
        },
        None => kept,
    }
}

/// Sets a text to that of a key, where there is one that is not empty.
pub(crate) fn set_text(target: &mut String, value: &Json, key: &str)
    ensures
        final(target)@ == text_or(value@, key@, old(target)@),
{
    if let Some(t) = value.str_at(key) {
        if !t.is_empty() {
            *target = t.to_owned();
        }
    }
}

/// The position that a streamed part of a tool call names: its `index`, or the
/// first.
pub open spec fn delta_index(call: JsonView) -> usize {
    match call.get("index"@) {
        Some(v) => match v.unsigned() {
            Some(n) => n as usize,
            None => 0,
        },
        None => 0,
    }
}

/// The position that a streamed part of a tool call names.
pub fn index_of_delta(tool_call: &Json) -> (index: usize)
    ensures
        index == delta_index(tool_call@),
{
    match tool_call.get("index") {
        Some(v) => match v.as_u64() {
            Some(n) => n as usize,
            None => 0,
        },
        None => 0,
    }
}

/// A pending call with a streamed part added: an id and a name replace what was
/// there, and arguments are appended.
pub open spec fn with_delta(pending: PendingCall, call: JsonView) -> PendingCall {
    let function = call.at("function"@);
    PendingCall {
        id: text_or(call, "id"@, pending.id),
        internal_call_id: pending.internal_call_id,
        name: text_or(function, "name"@, pending.name),
        arguments: match function.text_at("arguments"@) {
            Some(chunk) => pending.arguments + chunk,
            None => pending.arguments,
        },
    }
}

/// Adds a streamed part to a pending call.
pub fn add_delta(entry: &mut OpenAiStreamingToolCall, tool_call: &Json)
    ensures
        final(entry)@ == with_delta(old(entry)@, tool_call@),
{
    set_text(&mut entry.id, tool_call, "id");
    let function = tool_call.at("function");
    set_text(&mut entry.name, function, "name");
    if let Some(chunk) = function.str_at("arguments") {
        entry.arguments.append(chunk);
    }
}

/// The stream event of a pending call that is complete. A call whose name is
/// blank gives none.
pub open spec fn completed_call(index: usize, call: PendingCall) -> Result<
    Seq<StreamEvent>,
    ErrorView,
> {
    if text::is_blank(call.name) {
        Ok(Seq::empty())
    } else {
        match arguments::streamed_arguments_of(call.name, call.arguments) {
            Ok(value) => Ok(
                seq![
                    StreamEvent::ToolCall {
                        internal_call_id: call.internal_call_id,
                        call: ToolCallView {
                            id: if call.id.len() == 0 {
                                content::numbered_call(index as int)
                            } else {
                                call.id
                            },
                            call_id: None,
                            name: call.name,
                            arguments: value,
                            signature: None,
                            additional_params: None,
                        },
                    },
                ],
            ),
            Err(error) => Err(error),
        }
    }
}

/// The stream events of the pending calls at the given positions, up to the first
/// whose arguments cannot be read.
pub open spec fn completed_calls(pending: Map<usize, PendingCall>, keys: Seq<usize>) -> Result<
    Seq<StreamEvent>,
    ErrorView,
>
    decreases keys.len(),
{
    if keys.len() == 0 {
        Ok(Seq::empty())
    } else {
        match completed_calls(pending, keys.drop_last()) {
            Ok(events) => match completed_call(keys.last(), pending[keys.last()]) {
                Ok(more) => Ok(events + more),
                Err(error) => Err(error),
            },
            Err(error) => Err(error),
        }
    }
}

/// The stream events of all pending calls, by position.
pub open spec fn flushed(pending: Map<usize, PendingCall>) -> Result<Seq<StreamEvent>, ErrorView> {
    completed_calls(pending, in_order(pending.dom()))
}

/// Appends the stream event of a pending call that is complete.
fn complete_call(index: usize, call: OpenAiStreamingToolCall, events: &mut Vec<RawStreamingChoice>)
 -> (outcome: Result<(), CompletionError>)
    ensures
        match outcome {
            Ok(_) => completed_call(index, call@) is Ok && message::event_views(final(events)@)
                == message::event_views(old(events)@) + completed_call(index, call@)->Ok_0,
            Err(error) => completed_call(index, call@) == Err::<Seq<StreamEvent>, ErrorView>(
                error@,
            ),
        },
{
    let ghost before = message::event_views(events@);
    if text::is_blank_text(call.name.as_str()) {
        proof {
            assert(before + Seq::<StreamEvent>::empty() =~= before);
        }
        return Ok(());
    }
    let ghost view = call@;
    let arguments = match arguments::parse_streamed_tool_arguments(
        call.name.as_str(),
        call.arguments.as_str(),
    ) {
        Ok(value) => value,
        Err(error) => {
            return Err(error);
        },
    };
    let id = if call.id.as_str().is_empty() {
        content::numbered_call_id(index)
    } else {
        call.id
    };
    let event = RawStreamingChoice::ToolCall(
        RawStreamingToolCall {
            id,
            internal_call_id: call.internal_call_id,
            call_id: None,
            name: call.name,
            arguments,
            signature: None,
            additional_params: None,
        },
    );
    proof {
        assert(message::event_views(events@.push(event)) =~= before + seq![event@]);
    }
    events.push(event);
    Ok(())
}

/// Completes all pending calls, by position. None is pending afterwards, not even
/// where the arguments of one cannot be read.
pub fn flush_openai_streaming_tool_calls(
    pending_tool_calls: &mut BTreeMap<usize, OpenAiStreamingToolCall>,
) -> (outcome: Result<Vec<RawStreamingChoice>, CompletionError>)
    ensures
        message::events_result(outcome) == flushed(pending_view(old(pending_tool_calls)@)),
        pending_view(final(pending_tool_calls)@) == Map::<usize, PendingCall>::empty(),
        final(pending_tool_calls)@ == Map::<usize, OpenAiStreamingToolCall>::empty(),
{
    let ghost all = pending_view(pending_tool_calls@);
    let mut taken: BTreeMap<usize, OpenAiStreamingToolCall> = BTreeMap::new();
    core::mem::swap(pending_tool_calls, &mut taken);
    let keys = positions(&taken);
    proof {
        assert(all.dom() =~= taken@.dom());
        assert(pending_view(pending_tool_calls@) =~= Map::<usize, PendingCall>::empty());
    }
    let mut events: Vec<RawStreamingChoice> = Vec::new();
    let mut i: usize = 0;
    proof {
        assert(message::event_views(events@) =~= Seq::<StreamEvent>::empty());
        assert(keys@.subrange(0, 0) =~= Seq::<usize>::empty());
        assert forall|j: int| 0 <= j < keys@.len() implies pending_view(taken@).contains_key(
            #[trigger] keys@[j],
        ) by {
            assert(keys@.to_set().contains(keys@[j]));
        }
    }
    while i < keys.len()
        invariant
            i <= keys@.len(),
            all == pending_view(old(pending_tool_calls)@),
            is_increasing(keys@),
            keys@ == in_order(all.dom()),
            pending_view(pending_tool_calls@) == Map::<usize, PendingCall>::empty(),
            pending_tool_calls@ == Map::<usize, OpenAiStreamingToolCall>::empty(),
            forall|j: int|
                i <= j < keys@.len() ==> pending_view(taken@).contains_key(#[trigger] keys@[j])
                    && pending_view(taken@)[keys@[j]] == all[keys@[j]],
            completed_calls(all, keys@.subrange(0, i as int)) == Ok::<Seq<StreamEvent>, ErrorView>(
                message::event_views(events@),
            ),
        decreases keys@.len() - i,
    {
        let index: usize = keys[i];
        let ghost next = keys@.subrange(0, i as int + 1);
        let ghost so_far = message::event_views(events@);
        proof {
            assert(next.drop_last() =~= keys@.subrange(0, i as int));
            assert(next.last() == index);
        }
        if let Some(call) = take_call(&mut taken, index) {
            match complete_call(index, call, &mut events) {
                Ok(_) => {},
                Err(error) => {
                    proof {
                        lemma_first_error_stays(all, keys@, i as int + 1);
                    }
                    return Err(error);
                },
            }
        }
        i += 1;
    }
    proof {
        assert(keys@.subrange(0, keys@.len() as int) =~= keys@);
    }
    Ok(events)
}

/// Once a position has failed, later positions change nothing.
proof fn lemma_first_error_stays(pending: Map<usize, PendingCall>, keys: Seq<usize>, n: int)
    requires
        0 <= n <= keys.len(),
        completed_calls(pending, keys.subrange(0, n)) is Err,
    ensures
        completed_calls(pending, keys) == completed_calls(pending, keys.subrange(0, n)),
    decreases keys.len(),
{
    if n == keys.len() {
        assert(keys.subrange(0, n) =~= keys);
    } else {
        assert(keys.drop_last().subrange(0, n) =~= keys.subrange(0, n));
        lemma_first_error_stays(pending, keys.drop_last(), n);
    }
}

/// The events of the calls at some positions are one for each that has a name.
proof fn lemma_one_event_for_each_name(
    pending: Map<usize, PendingCall>,
    keys: Seq<usize>,
    named: Seq<usize>,
)
    requires
        named == keys.filter(|k: usize| !text::is_blank(pending[k].name)),
    ensures
        completed_calls(pending, keys) matches Ok(events) ==> events.len() == named.len() && forall|
            i: int,
        |
            0 <= i < named.len() ==> (#[trigger] events[i] matches StreamEvent::ToolCall {
                internal_call_id,
                call,
            } && {
                let was = pending[named[i]];
                &&& internal_call_id == was.internal_call_id
                &&& call.id == (if was.id.len() > 0 {
                    was.id
                } else {
                    "tool_call_"@ + text::decimal(named[i] as nat)
                })
                &&& call.call_id is None
                &&& call.name == was.name
                &&& arguments::streamed_arguments_of(was.name, was.arguments) == Ok::<
                    JsonView,
                    ErrorView,
                >(call.arguments)
                &&& call.signature is None
                &&& call.additional_params is None
            }),
        completed_calls(pending, keys) is Ok <==> forall|i: int|
            0 <= i < named.len() ==> arguments::streamed_arguments_of(
                pending[#[trigger] named[i]].name,
                pending[named[i]].arguments,
            ) is Ok,
    decreases keys.len(),
{
    reveal(Seq::filter);
    let has_name = |k: usize| !text::is_blank(pending[k].name);
    if keys.len() > 0 {
        let before = keys.drop_last();
        let named_before = before.filter(has_name);
        lemma_one_event_for_each_name(pending, before, named_before);
        if has_name(keys.last()) {
            assert(named == named_before.push(keys.last()));
            assert(named[named.len() - 1] == keys.last());
            if completed_calls(pending, keys) is Ok {
                assert forall|i: int| 0 <= i < named.len() implies arguments::streamed_arguments_of(
                    pending[#[trigger] named[i]].name,
                    pending[named[i]].arguments,
                ) is Ok by {
                    if i < named_before.len() {
                        assert(named[i] == named_before[i]);
                    }
                }
            } else if completed_calls(pending, before) is Err {
                let bad = choose|i: int|
                    0 <= i < named_before.len() && arguments::streamed_arguments_of(
                        pending[#[trigger] named_before[i]].name,
                        pending[named_before[i]].arguments,
                    ) is Err;
                assert(named[bad] == named_before[bad]);
            }
        } else {
            assert(named == named_before);
        }
    }
}

/// Pending tool calls that are flushed without an error give exactly one event for each
/// position whose name is not blank, in increasing order of position: a tool call with the
/// name that came, the internal id, the arguments that its text reads as, and the id that
/// came or, without one, an id made of the position. There is no error exactly where the
/// arguments of all of those can be read. `keys` lists the positions.
pub proof fn law_flush_gives_one_call_for_each_name(
    pending: Map<usize, PendingCall>,
    keys: Seq<usize>,
)
    requires
        forall|i: int, j: int| 0 <= i < j < keys.len() ==> keys[i] < keys[j],
        forall|k: usize| #[trigger] keys.contains(k) <==> pending.contains_key(k),
    ensures
        ({
            let named = keys.filter(|k: usize| !text::is_blank(pending[k].name));
            &&& flushed(pending) is Ok <==> forall|i: int|
                0 <= i < named.len() ==> arguments::streamed_arguments_of(
                    pending[#[trigger] named[i]].name,
                    pending[named[i]].arguments,
                ) is Ok
            &&& flushed(pending) matches Ok(events) ==> events.len() == named.len() && forall|
                i: int,
            |
                0 <= i < named.len() ==> (#[trigger] events[i] matches StreamEvent::ToolCall {
                    internal_call_id,
                    call,
                } && {
                    let was = pending[named[i]];
                    &&& internal_call_id == was.internal_call_id
                    &&& call.id == (if was.id.len() > 0 {
                        was.id
                    } else {
                        "tool_call_"@ + text::decimal(named[i] as nat)
                    })
                    &&& call.call_id is None
                    &&& call.name == was.name
                    &&& arguments::streamed_arguments_of(was.name, was.arguments) == Ok::<
                        JsonView,
                        ErrorView,
                    >(call.arguments)
                    &&& call.signature is None
                    &&& call.additional_params is None
                })
        }),
{
    assert forall|k: usize| keys.to_set().contains(k) <==> pending.dom().contains(k) by {
        assert(keys.contains(k) <==> pending.contains_key(k));
    }
    assert(keys.to_set() =~= pending.dom());
    lemma_in_order(keys);
    lemma_one_event_for_each_name(
        pending,
        keys,
        keys.filter(|k: usize| !text::is_blank(pending[k].name)),
    );
}

/// A streamed part of a tool call adds its piece of arguments behind what came before, and
/// sets the id and the name that it brings; what it does not bring stays, and so does the
/// internal id.
pub proof fn law_streamed_parts_add_up(
    was: PendingCall,
    part: JsonView,
    function: JsonView,
    id: Seq<char>,
    name: Seq<char>,
    chunk: Seq<char>,
)
    requires
        part.get("function"@) == Some(function),
    ensures
        with_delta(was, part).internal_call_id == was.internal_call_id,
        function.get("arguments"@) == Some(JsonView::Str(chunk)) ==> with_delta(was, part).arguments
            == was.arguments + chunk,
        function.get("arguments"@) is None ==> with_delta(was, part).arguments == was.arguments,
        part.get("id"@) == Some(JsonView::Str(id)) && id.len() > 0 ==> with_delta(was, part).id
            == id,
        part.get("id"@) is None || part.get("id"@) == Some(JsonView::Str(Seq::empty()))
            ==> with_delta(was, part).id == was.id,
        function.get("name"@) == Some(JsonView::Str(name)) && name.len() > 0 ==> with_delta(
            was,
            part,
        ).name == name,
        function.get("name"@) is None || function.get("name"@) == Some(JsonView::Str(Seq::empty()))
            ==> with_delta(was, part).name == was.name,
{
}

/// A streamed part of a tool call belongs to the position under its `index`, and without
/// one to the first.
pub proof fn law_streamed_parts_name_their_position(part: JsonView, index: u64)
    ensures
        part.get("index"@) == Some(JsonView::Number(JsonNumberView::Unsigned(index))) && index
            <= usize::MAX ==> delta_index(part) == index,
        part.get("index"@) is None ==> delta_index(part) == 0,
{
}

} // verus!
