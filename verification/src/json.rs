//! JSON values as plain data, and the mathematical view that contracts speak of.
//!
//! Reading JSON text and writing it are `serde_json`'s; everything the library
//! decides about a value is decided on [`Json`].
use serde_json::Value;
use vstd::prelude::*;

verus! {

/// A JSON number: an integer, or the text of a number that is no integer of
/// either kind.
#[derive(Debug, PartialEq, Eq)]
pub enum JsonNumber {
    Unsigned(u64),
    Negative(i64),
    Other(String),
}

/// A JSON value. An object holds its entries in the order in which it was built.
#[derive(Debug, PartialEq, Eq)]
pub enum Json {
    Null,
    Bool(bool),
    Number(JsonNumber),
    Str(String),
    Array(Vec<Json>),
    Object(Vec<(String, Json)>),
}

/// The view of a [`JsonNumber`].
pub enum JsonNumberView {
    Unsigned(u64),
    Negative(i64),
    Other(Seq<char>),
}

/// The view of a [`Json`] value.
#[verifier::ext_equal]
pub enum JsonView {
    Null,
    Bool(bool),
    Number(JsonNumberView),
    Str(Seq<char>),
    Array(Seq<JsonView>),
    Object(Seq<(Seq<char>, JsonView)>),
}

impl View for JsonNumber {
    type V = JsonNumberView;

    open spec fn view(&self) -> JsonNumberView {
        match self {
            JsonNumber::Unsigned(n) => JsonNumberView::Unsigned(*n),
            JsonNumber::Negative(n) => JsonNumberView::Negative(*n),
            JsonNumber::Other(text) => JsonNumberView::Other(text@),
        }
    }
}

/// The view of a value.
pub open spec fn json_view(value: Json) -> JsonView
    decreases value,
{
    match value {
        Json::Null => JsonView::Null,
        Json::Bool(b) => JsonView::Bool(b),
        Json::Number(n) => JsonView::Number(n@),
        Json::Str(s) => JsonView::Str(s@),
        Json::Array(items) => JsonView::Array(
            Seq::new(
                items@.len(),
                |i: int|
                    if 0 <= i < items@.len() {
                        json_view(items@[i])
                    } else {
                        JsonView::Null
                    },
            ),
        ),
        Json::Object(entries) => JsonView::Object(
            Seq::new(
                entries@.len(),
                |i: int|
                    if 0 <= i < entries@.len() {
                        (entries@[i].0@, json_view(entries@[i].1))
                    } else {
                        (Seq::empty(), JsonView::Null)
                    },
            ),
        ),
    }
}

impl View for Json {
    type V = JsonView;

    open spec fn view(&self) -> JsonView {
        json_view(*self)
    }
}

/// The views of the values of a list.
pub open spec fn json_views(values: Seq<Json>) -> Seq<JsonView> {
    values.map_values(|v: Json| v@)
}

/// The views of the entries of an object.
pub open spec fn entry_views(entries: Seq<(String, Json)>) -> Seq<(Seq<char>, JsonView)> {
    entries.map_values(|e: (String, Json)| (e.0@, e.1@))
}

/// The view of an optional value.
pub open spec fn json_view_of(value: Option<Json>) -> Option<JsonView> {
    match value {
        Some(v) => Some(v@),
        None => None,
    }
}

/// The view of an optional value that is borrowed.
pub open spec fn json_ref_view(value: Option<&Json>) -> Option<JsonView> {
    match value {
        Some(v) => Some(v@),
        None => None,
    }
}

/// The view of an optional text that is borrowed.
pub open spec fn str_view(text: Option<&str>) -> Option<Seq<char>> {
    match text {
        Some(t) => Some(t@),
        None => None,
    }
}

/// Where the first entry with the given key stands.
pub open spec fn key_position(entries: Seq<(Seq<char>, JsonView)>, key: Seq<char>) -> Option<int>
    decreases entries.len(),
{
    if entries.len() == 0 {
        None
    } else if entries[0].0 == key {
        Some(0)
    } else {
        match key_position(entries.drop_first(), key) {
            Some(i) => Some(i + 1),
            None => None,
        }
    }
}

/// The entries with the value of `key` set: in place where the key is there,
/// and behind the others where it is not.
pub open spec fn entries_with(
    entries: Seq<(Seq<char>, JsonView)>,
    key: Seq<char>,
    value: JsonView,
) -> Seq<(Seq<char>, JsonView)> {
    match key_position(entries, key) {
        Some(i) => entries.update(i, (key, value)),
        None => entries.push((key, value)),
    }
}

impl JsonView {
    /// The value of a key, where this is an object that has it.
    pub open spec fn get(self, key: Seq<char>) -> Option<JsonView> {
        match self {
            JsonView::Object(entries) => match key_position(entries, key) {
                Some(i) => if 0 <= i < entries.len() {
                    Some(entries[i].1)
                } else {
                    None
                },
                None => None,
            },
            _ => None,
        }
    }

    /// The value of a key, and `Null` where there is none.
    pub open spec fn at(self, key: Seq<char>) -> JsonView {
        match self.get(key) {
            Some(value) => value,
            None => JsonView::Null,
        }
    }

    /// The text of a string value.
    pub open spec fn text(self) -> Option<Seq<char>> {
        match self {
            JsonView::Str(s) => Some(s),
            _ => None,
        }
    }

    /// The text of the string value of a key.
    pub open spec fn text_at(self, key: Seq<char>) -> Option<Seq<char>> {
        match self.get(key) {
            Some(value) => value.text(),
            None => None,
        }
    }

    /// The items of an array.
    pub open spec fn items(self) -> Option<Seq<JsonView>> {
        match self {
            JsonView::Array(items) => Some(items),
            _ => None,
        }
    }

    /// The items of the array of a key.
    pub open spec fn items_at(self, key: Seq<char>) -> Option<Seq<JsonView>> {
        match self.get(key) {
            Some(value) => value.items(),
            None => None,
        }
    }

    /// The number as an unsigned integer, where it is one.
    pub open spec fn unsigned(self) -> Option<u64> {
        match self {
            JsonView::Number(JsonNumberView::Unsigned(n)) => Some(n),
            _ => None,
        }
    }

    /// The number as a signed integer, where it is one.
    pub open spec fn signed(self) -> Option<i64> {
        match self {
            JsonView::Number(JsonNumberView::Unsigned(n)) => if n <= i64::MAX {
                Some(n as i64)
            } else {
                None
            },
            JsonView::Number(JsonNumberView::Negative(n)) => Some(n),
            _ => None,
        }
    }

    /// The truth value, where it is one.
    pub open spec fn truth(self) -> Option<bool> {
        match self {
            JsonView::Bool(b) => Some(b),
            _ => None,
        }
    }

    /// An object's value with one key set. `Null` becomes an object.
    pub open spec fn with(self, key: Seq<char>, value: JsonView) -> JsonView {
        match self {
            JsonView::Object(entries) => JsonView::Object(entries_with(entries, key, value)),
            _ => JsonView::Object(seq![(key, value)]),
        }
    }

    /// A value that takes a key: an object, or `Null`, which becomes one.
    pub open spec fn takes_keys(self) -> bool {
        self is Object || self is Null
    }
}

/// The object without entries.
pub open spec fn empty_object() -> JsonView {
    JsonView::Object(Seq::empty())
}

/// A key position lies within the entries, and an entry with the key stands there.
pub proof fn lemma_key_position(entries: Seq<(Seq<char>, JsonView)>, key: Seq<char>)
    ensures
        match key_position(entries, key) {
            Some(i) => 0 <= i < entries.len() && entries[i].0 == key && forall|j: int|
                0 <= j < i ==> (#[trigger] entries[j]).0 != key,
            None => forall|j: int| 0 <= j < entries.len() ==> (#[trigger] entries[j]).0 != key,
        },
    decreases entries.len(),
{
    if entries.len() > 0 && entries[0].0 != key {
        let rest = entries.drop_first();
        lemma_key_position(rest, key);
        assert forall|j: int|
            0 <= j < entries.len() && (match key_position(rest, key) {
                Some(i) => j < i + 1,
                None => true,
            }) implies (#[trigger] entries[j]).0 != key by {
            if j > 0 {
                assert(entries[j] == rest[j - 1]);
            }
        }
    }
}

/// A key position is fixed by what stands at it and before it.
pub proof fn lemma_key_position_is(
    entries: Seq<(Seq<char>, JsonView)>,
    key: Seq<char>,
    at: Option<int>,
)
    requires
        match at {
            Some(i) => 0 <= i < entries.len() && entries[i].0 == key && forall|j: int|
                0 <= j < i ==> (#[trigger] entries[j]).0 != key,
            None => forall|j: int| 0 <= j < entries.len() ==> (#[trigger] entries[j]).0 != key,
        },
    ensures
        key_position(entries, key) == at,
{
    lemma_key_position(entries, key);
}

/// A key that was set is read back, and no other key is changed by it.
pub proof fn lemma_with_then_get(value: JsonView, key: Seq<char>, set: JsonView, other: Seq<char>)
    requires
        value.takes_keys(),
    ensures
        value.with(key, set).get(key) == Some(set),
        other != key ==> value.with(key, set).get(other) == value.get(other),
{
    let after = value.with(key, set);
    let entries = match value {
        JsonView::Object(entries) => entries,
        _ => Seq::empty(),
    };
    lemma_key_position(entries, key);
    lemma_key_position(entries, other);
    let changed = after->Object_0;
    match key_position(entries, key) {
        Some(i) => {
            lemma_key_position_is(changed, key, Some(i));
        },
        None => {
            assert(changed =~= entries.push((key, set)));
            assert forall|j: int| 0 <= j < entries.len() implies (#[trigger] changed[j]).0
                != key by {
                assert(changed[j] == entries[j]);
            }
            lemma_key_position_is(changed, key, Some(entries.len() as int));
        },
    }
    if other != key {
        match key_position(entries, other) {
            Some(i) => {
                assert forall|j: int| 0 <= j < i implies (#[trigger] changed[j]).0 != other by {
                    assert(changed[j].0 == entries[j].0);
                }
                lemma_key_position_is(changed, other, Some(i));
            },
            None => {
                assert forall|j: int| 0 <= j < changed.len() implies (#[trigger] changed[j]).0
                    != other by {
                    if j < entries.len() {
                        assert(changed[j].0 == entries[j].0);
                    }
                }
                lemma_key_position_is(changed, other, None);
            },
        }
    }
}

/// A key that was not there is set behind the others.
pub proof fn lemma_new_key(entries: Seq<(Seq<char>, JsonView)>, key: Seq<char>, value: JsonView)
    requires
        forall|j: int| 0 <= j < entries.len() ==> (#[trigger] entries[j]).0 != key,
    ensures
        JsonView::Object(entries).with(key, value) == JsonView::Object(entries.push((key, value))),
{
    lemma_key_position_is(entries, key, None);
}

/// An object of two keys, one set after the other: they stand in that order, and
/// each is read back.
pub proof fn lemma_object_of_two(
    k1: Seq<char>,
    v1: JsonView,
    k2: Seq<char>,
    v2: JsonView,
)
    requires
        k1 != k2,
    ensures
        empty_object().with(k1, v1).with(k2, v2) == JsonView::Object(
            seq![(k1, v1), (k2, v2)],
        ),
        empty_object().with(k1, v1).with(k2, v2).get(k1) == Some(v1),
        empty_object().with(k1, v1).with(k2, v2).get(k2) == Some(v2),
{
    let o0 = empty_object();
    let o1 = o0.with(k1, v1);
    let o2 = o1.with(k2, v2);
    lemma_new_key(o0->Object_0, k1, v1);
    lemma_with_then_get(o0, k1, v1, k1);
    lemma_new_key(o1->Object_0, k2, v2);
    lemma_with_then_get(o1, k2, v2, k2);
    lemma_with_then_get(o1, k2, v2, k1);
    assert(o2->Object_0 =~= seq![(k1, v1), (k2, v2)]);
}

/// An object of three keys, one set after the other: they stand in that order, and
/// each is read back.
pub proof fn lemma_object_of_three(
    k1: Seq<char>,
    v1: JsonView,
    k2: Seq<char>,
    v2: JsonView,
    k3: Seq<char>,
    v3: JsonView,
)
    requires
        k1 != k2,
        k1 != k3,
        k2 != k3,
    ensures
        empty_object().with(k1, v1).with(k2, v2).with(k3, v3) == JsonView::Object(
            seq![(k1, v1), (k2, v2), (k3, v3)],
        ),
        empty_object().with(k1, v1).with(k2, v2).with(k3, v3).get(k1) == Some(v1),
        empty_object().with(k1, v1).with(k2, v2).with(k3, v3).get(k2) == Some(v2),
        empty_object().with(k1, v1).with(k2, v2).with(k3, v3).get(k3) == Some(v3),
{
    let o0 = empty_object();
    let o1 = o0.with(k1, v1);
    let o2 = o1.with(k2, v2);
    let o3 = o2.with(k3, v3);
    lemma_new_key(o0->Object_0, k1, v1);
    lemma_with_then_get(o0, k1, v1, k1);
    lemma_new_key(o1->Object_0, k2, v2);
    lemma_with_then_get(o1, k2, v2, k2);
    lemma_with_then_get(o1, k2, v2, k1);
    lemma_new_key(o2->Object_0, k3, v3);
    lemma_with_then_get(o2, k3, v3, k3);
    lemma_with_then_get(o2, k3, v3, k1);
    lemma_with_then_get(o2, k3, v3, k2);
    assert(o3->Object_0 =~= seq![(k1, v1), (k2, v2), (k3, v3)]);
}

/// An object of four keys, one set after the other: they stand in that order, and
/// each is read back.
pub proof fn lemma_object_of_four(
    k1: Seq<char>,
    v1: JsonView,
    k2: Seq<char>,
    v2: JsonView,
    k3: Seq<char>,
    v3: JsonView,
    k4: Seq<char>,
    v4: JsonView,
)
    requires
        k1 != k2,
        k1 != k3,
        k1 != k4,
        k2 != k3,
        k2 != k4,
        k3 != k4,
    ensures
        empty_object().with(k1, v1).with(k2, v2).with(k3, v3).with(k4, v4) == JsonView::Object(
            seq![(k1, v1), (k2, v2), (k3, v3), (k4, v4)],
        ),
        empty_object().with(k1, v1).with(k2, v2).with(k3, v3).with(k4, v4).get(k1) == Some(v1),
        empty_object().with(k1, v1).with(k2, v2).with(k3, v3).with(k4, v4).get(k2) == Some(v2),
        empty_object().with(k1, v1).with(k2, v2).with(k3, v3).with(k4, v4).get(k3) == Some(v3),
        empty_object().with(k1, v1).with(k2, v2).with(k3, v3).with(k4, v4).get(k4) == Some(v4),
{
    let o0 = empty_object();
    let o1 = o0.with(k1, v1);
    let o2 = o1.with(k2, v2);
    let o3 = o2.with(k3, v3);
    let o4 = o3.with(k4, v4);
    lemma_new_key(o0->Object_0, k1, v1);
    lemma_with_then_get(o0, k1, v1, k1);
    lemma_new_key(o1->Object_0, k2, v2);
    lemma_with_then_get(o1, k2, v2, k2);
    lemma_with_then_get(o1, k2, v2, k1);
    lemma_new_key(o2->Object_0, k3, v3);
    lemma_with_then_get(o2, k3, v3, k3);
    lemma_with_then_get(o2, k3, v3, k1);
    lemma_with_then_get(o2, k3, v3, k2);
    lemma_new_key(o3->Object_0, k4, v4);
    lemma_with_then_get(o3, k4, v4, k4);
    lemma_with_then_get(o3, k4, v4, k1);
    lemma_with_then_get(o3, k4, v4, k2);
    lemma_with_then_get(o3, k4, v4, k3);
    assert(o4->Object_0 =~= seq![(k1, v1), (k2, v2), (k3, v3), (k4, v4)]);
}

impl JsonNumber {
    /// The same number again.
    pub fn duplicate(&self) -> (copy: JsonNumber)
        ensures
            copy@ == self@,
    {
        match self {
            JsonNumber::Unsigned(n) => JsonNumber::Unsigned(*n),
            JsonNumber::Negative(n) => JsonNumber::Negative(*n),
            JsonNumber::Other(text) => JsonNumber::Other(text.clone()),
        }
    }
}

/// The index of the first of the entries whose key is `key`.
fn find_key(entries: &Vec<(String, Json)>, key: &str) -> (found: Option<usize>)
    ensures
        match found {
            Some(i) => i < entries@.len() && key_position(entry_views(entries@), key@) == Some(
                i as int,
            ),
            None => key_position(entry_views(entries@), key@) is None,
        },
{
    let ghost all = entry_views(entries@);
    let mut i: usize = 0;
    while i < entries.len()
        invariant
            i <= entries@.len(),
            all == entry_views(entries@),
            forall|j: int| 0 <= j < i ==> (#[trigger] all[j]).0 != key@,
        decreases entries@.len() - i,
    {
        if entries[i].0.as_str().eq(key) {
            proof {
                lemma_key_position_is(all, key@, Some(i as int));
            }
            return Some(i);
        }
        i += 1;
    }
    proof {
        lemma_key_position_is(all, key@, None);
    }
    None
}

impl Json {
    /// The object without entries.
    pub fn object() -> (value: Json)
        ensures
            value@ == empty_object(),
    {
        let value = Json::Object(Vec::new());
        proof {
            assert(value@->Object_0 =~= Seq::empty());
        }
        value
    }

    /// A string value.
    pub fn string(text: &str) -> (value: Json)
        ensures
            value@ == JsonView::Str(text@),
    {
        Json::Str(text.to_owned())
    }

    /// An array of the given values.
    pub fn array(items: Vec<Json>) -> (value: Json)
        ensures
            value@ == JsonView::Array(json_views(items@)),
    {
        let ghost views = json_views(items@);
        let value = Json::Array(items);
        proof {
            assert(value@->Array_0 =~= views);
        }
        value
    }

    /// This object with one key set.
    pub fn with(self, key: &str, value: Json) -> (changed: Json)
        requires
            self@.takes_keys(),
        ensures
            changed@ == self@.with(key@, value@),
            changed@ is Object,
    {
        match self {
            Json::Object(entries) => {
                let mut entries = entries;
                let ghost before = entry_views(entries@);
                proof {
                    assert(self@->Object_0 =~= before);
                }
                match find_key(&entries, key) {
                    Some(i) => {
                        let ghost kept = entries@[i as int].0@;
                        let ghost set = value@;
                        proof {
                            lemma_key_position(before, key@);
                            assert(before[i as int].0 == kept);
                        }
                        entries.set(i, (key.to_owned(), value));
                        let changed = Json::Object(entries);
                        proof {
                            assert(changed@->Object_0 =~= before.update(i as int, (key@, set)));
                        }
                        changed
                    },
                    None => {
                        let ghost set = value@;
                        entries.push((key.to_owned(), value));
                        let changed = Json::Object(entries);
                        proof {
                            assert(changed@->Object_0 =~= before.push((key@, set)));
                        }
                        changed
                    },
                }
            },
            _ => {
                let ghost set = value@;
                let mut entries: Vec<(String, Json)> = Vec::new();
                entries.push((key.to_owned(), value));
                let changed = Json::Object(entries);
                proof {
                    assert(changed@->Object_0 =~= seq![(key@, set)]);
                }
                changed
            },
        }
    }

    /// The value of a key, where this is an object that has it.
    pub fn get(&self, key: &str) -> (value: Option<&Json>)
        ensures
            json_ref_view(value) == self@.get(key@),
            value is Some ==> decreases_to!(*self => *value->0),
    {
        match self {
            Json::Object(entries) => {
                proof {
                    assert(self@->Object_0 =~= entry_views(entries@));
                }
                match find_key(entries, key) {
                    Some(i) => {
                        proof {
                            lemma_key_position(entry_views(entries@), key@);
                            assert(decreases_to!(*self => self->Object_0));
                            assert(decreases_to!(*entries => entries@));
                            assert(decreases_to!(entries@ => entries@[i as int]));
                            assert(decreases_to!(entries@[i as int] => entries@[i as int].1));
                        }
                        Some(&entries[i].1)
                    },
                    None => None,
                }
            },
            _ => None,
        }
    }

    /// The text of a string value.
    pub fn as_str(&self) -> (text: Option<&str>)
        ensures
            str_view(text) == self@.text(),
    {
        match self {
            Json::Str(s) => Some(s.as_str()),
            _ => None,
        }
    }

    /// The text of the string value of a key.
    pub fn str_at(&self, key: &str) -> (text: Option<&str>)
        ensures
            str_view(text) == self@.text_at(key@),
    {
        match self.get(key) {
            Some(value) => value.as_str(),
            None => None,
        }
    }

    /// The value of a key, and `Null` where there is none.
    pub fn at(&self, key: &str) -> (value: &Json)
        ensures
            value@ == self@.at(key@),
    {
        match self.get(key) {
            Some(value) => value,
            None => &Json::Null,
        }
    }

    /// The items of an array.
    pub fn as_array(&self) -> (items: Option<&Vec<Json>>)
        ensures
            match items {
                Some(list) => self@.items() == Some(json_views(list@)) && decreases_to!(
                    *self => list@),
                None => self@.items() is None,
            },
    {
        match self {
            Json::Array(items) => {
                proof {
                    assert(self@->Array_0 =~= json_views(items@));
                    assert(decreases_to!(*self => self->Array_0));
                    assert(decreases_to!(*items => items@));
                }
                Some(items)
            },
            _ => None,
        }
    }

    /// The items of the array of a key.
    pub fn array_at(&self, key: &str) -> (items: Option<&Vec<Json>>)
        ensures
            match items {
                Some(list) => self@.items_at(key@) == Some(json_views(list@)),
                None => self@.items_at(key@) is None,
            },
    {
        match self.get(key) {
            Some(value) => value.as_array(),
            None => None,
        }
    }

    /// The number as an unsigned integer, where it is one.
    pub fn as_u64(&self) -> (number: Option<u64>)
        ensures
            number == self@.unsigned(),
    {
        match self {
            Json::Number(JsonNumber::Unsigned(n)) => Some(*n),
            _ => None,
        }
    }

    /// The number as a signed integer, where it is one.
    pub fn as_i64(&self) -> (number: Option<i64>)
        ensures
            number == self@.signed(),
    {
        match self {
            Json::Number(JsonNumber::Unsigned(n)) => if *n <= 0x7fff_ffff_ffff_ffff {
                Some(*n as i64)
            } else {
                None
            },
            Json::Number(JsonNumber::Negative(n)) => Some(*n),
            _ => None,
        }
    }

    /// The truth value, where it is one.
    pub fn as_bool(&self) -> (truth: Option<bool>)
        ensures
            truth == self@.truth(),
    {
        match self {
            Json::Bool(b) => Some(*b),
            _ => None,
        }
    }

    /// Whether this is `Null`.
    pub fn is_null(&self) -> (yes: bool)
        ensures
            yes == (self@ is Null),
    {
        match self {
            Json::Null => true,
            _ => false,
        }
    }

    /// The same value again.
    pub fn duplicate(&self) -> (copy: Json)
        ensures
            copy@ == self@,
        decreases self,
    {
        match self {
            Json::Null => Json::Null,
            Json::Bool(b) => Json::Bool(*b),
            Json::Number(n) => Json::Number(n.duplicate()),
            Json::Str(s) => Json::Str(s.clone()),
            Json::Array(items) => {
                let mut copies: Vec<Json> = Vec::new();
                let mut i: usize = 0;
                while i < items.len()
                    invariant
                        i <= items@.len(),
                        *self == Json::Array(*items),
                        copies@.len() == i,
                        forall|j: int| 0 <= j < i ==> copies@[j]@ == items@[j]@,
                    decreases items@.len() - i,
                {
                    proof {
                        assert(decreases_to!(*self => self->Array_0));
                        assert(decreases_to!(*items => items@));
                        assert(decreases_to!(items@ => items@[i as int]));
                    }
                    let item = items[i].duplicate();
                    copies.push(item);
                    i += 1;
                }
                let copy = Json::Array(copies);
                proof {
                    assert(copy@->Array_0 =~= self@->Array_0);
                }
                copy
            },
            Json::Object(entries) => {
                let mut copies: Vec<(String, Json)> = Vec::new();
                let mut i: usize = 0;
                while i < entries.len()
                    invariant
                        i <= entries@.len(),
                        *self == Json::Object(*entries),
                        copies@.len() == i,
                        forall|j: int|
                            0 <= j < i ==> copies@[j].0@ == entries@[j].0@ && copies@[j].1@
                                == entries@[j].1@,
                    decreases entries@.len() - i,
                {
                    proof {
                        assert(decreases_to!(*self => self->Object_0));
                        assert(decreases_to!(*entries => entries@));
                        assert(decreases_to!(entries@ => entries@[i as int]));
                        assert(decreases_to!(entries@[i as int] => entries@[i as int].1));
                    }
                    let value = entries[i].1.duplicate();
                    copies.push((entries[i].0.clone(), value));
                    i += 1;
                }
                let copy = Json::Object(copies);
                proof {
                    assert(copy@->Object_0 =~= self@->Object_0);
                }
                copy
            },
        }
    }

    /// Reads one JSON text. The error is the reader's own message.
    pub fn parse(text: &str) -> (value: Result<Json, String>)
        ensures
            match value {
                Ok(v) => parsed(text@) == Ok::<JsonView, Seq<char>>(v@),
                Err(message) => parsed(text@) == Err::<JsonView, Seq<char>>(message@),
            },
            value is Ok ==> has_clean_strings(text@),
    {
        read_json(text)
    }

    /// The value as compact JSON text.
    pub fn to_text(&self) -> (text: String)
        ensures
            text@ == printed(self@),
    {
        write_json(self)
    }
}

/// The same optional value again.
pub fn duplicate_option(value: &Option<Json>) -> (copy: Option<Json>)
    ensures
        json_view_of(copy) == json_view_of(*value),
{
    match value {
        Some(v) => Some(v.duplicate()),
        None => None,
    }
}

// ---------------------------------------------------------------------------
// Strings in a JSON text
// ---------------------------------------------------------------------------

/// A control character: one that may not stand in a JSON string as it is.
pub open spec fn is_control(c: char) -> bool {
    (c as u32) < 0x20
}

/// Where the first `n` characters of a JSON text end: inside a string or not, and there
/// behind a backslash that starts an escape or not.
pub open spec fn state_after(s: Seq<char>, n: int) -> (bool, bool)
    decreases n,
{
    if n <= 0 {
        (false, false)
    } else {
        let (in_string, after_backslash) = state_after(s, n - 1);
        let c = s[n - 1];
        if !in_string {
            (c == '"', false)
        } else if after_backslash {
            (true, false)
        } else {
            (c != '"', c == '\\')
        }
    }
}

/// A control character stands raw at a position: inside a string, and not behind a
/// backslash there.
pub open spec fn is_raw_control(s: Seq<char>, i: int) -> bool {
    is_control(s[i]) && state_after(s, i) == (true, false)
}

/// No control character stands raw inside a string of a JSON text.
pub open spec fn has_clean_strings(s: Seq<char>) -> bool {
    forall|i: int| 0 <= i < s.len() ==> !#[trigger] is_raw_control(s, i)
}

// ---------------------------------------------------------------------------
// serde_json
// ---------------------------------------------------------------------------

#[verifier::external_type_specification]
#[verifier::external_body]
pub struct ExValue(serde_json::Value);

/// What `serde_json::from_str::<serde_json::Value>` makes of a text: the value,
/// or the message of its error.
pub uninterp spec fn parsed(text: Seq<char>) -> Result<JsonView, Seq<char>>;

/// The compact text that `serde_json::Value` displays as.
pub uninterp spec fn printed(value: JsonView) -> Seq<char>;

/// A `serde_json::Value` as a [`Json`] value, variant by variant. Nothing is
/// claimed of it: it only carries the result of [`read_json`].
#[verifier::external_body]
fn json_from_value(value: Value) -> Json {
    match value {
        Value::Null => Json::Null,
        Value::Bool(b) => Json::Bool(b),
        Value::Number(n) => match (n.as_u64(), n.as_i64()) {
            (Some(u), _) => Json::Number(JsonNumber::Unsigned(u)),
            (None, Some(i)) => Json::Number(JsonNumber::Negative(i)),
            (None, None) => Json::Number(JsonNumber::Other(n.to_string())),
        },
        Value::String(s) => Json::Str(s),
        Value::Array(a) => Json::Array(a.into_iter().map(json_from_value).collect()),
        Value::Object(o) => Json::Object(
            o.into_iter().map(|(k, v)| (k, json_from_value(v))).collect(),
        ),
    }
}

/// A [`Json`] value as a `serde_json::Value`, variant by variant. Nothing is
/// claimed of it: it only carries the argument of [`write_json`].
#[verifier::external_body]
fn value_from_json(value: &Json) -> Value {
    match value {
        Json::Null => Value::Null,
        Json::Bool(b) => Value::Bool(*b),
        Json::Number(JsonNumber::Unsigned(n)) => Value::from(*n),
        Json::Number(JsonNumber::Negative(n)) => Value::from(*n),
        Json::Number(JsonNumber::Other(t)) => serde_json::from_str(t).unwrap_or_default(),
        Json::Str(s) => Value::String(s.clone()),
        Json::Array(a) => Value::Array(a.iter().map(value_from_json).collect()),
        Json::Object(o) => Value::Object(
            o.iter().map(|(k, v)| (k.clone(), value_from_json(v))).collect(),
        ),
    }
}

/// `serde_json::from_str` into a `serde_json::Value`: the result is the value it
/// reads or the message of its error, and depends on the text alone. It refuses a text
/// with a control character that stands raw inside a string.
#[verifier::external_body]
fn read_json(text: &str) -> (value: Result<Json, String>)
    ensures
        match value {
            Ok(v) => parsed(text@) == Ok::<JsonView, Seq<char>>(v@),
            Err(message) => parsed(text@) == Err::<JsonView, Seq<char>>(message@),
        },
        value is Ok ==> has_clean_strings(text@),
{
    serde_json::from_str::<serde_json::Value>(text)
        .map(json_from_value)
        .map_err(|error| error.to_string())
}

/// The display of a `serde_json::Value`: the compact text it writes depends on
/// the value alone.
#[verifier::external_body]
fn write_json(value: &Json) -> (text: String)
    ensures
        text@ == printed(value@),
{
    value_from_json(value).to_string()
}

} // verus!
