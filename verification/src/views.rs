//! Views of optional values, lists and maps.
use vstd::prelude::*;

verus! {

/// The view of an optional value.
pub open spec fn optional<T: View>(value: Option<T>) -> Option<T::V> {
    match value {
        Some(v) => Some(v@),
        None => None,
    }
}

/// The views of the items of a list.
pub open spec fn list<T: View>(items: Seq<T>) -> Seq<T::V> {
    items.map_values(|item: T| item@)
}

/// The views of the items of an optional list.
pub open spec fn optional_list<T: View>(value: Option<Vec<T>>) -> Option<Seq<T::V>> {
    match value {
        Some(v) => Some(list(v@)),
        None => None,
    }
}

/// The views of the values of a map.
pub open spec fn entries<T: View>(map: Map<Seq<char>, T>) -> Map<Seq<char>, T::V> {
    map.map_values(|value: T| value@)
}

} // verus!
