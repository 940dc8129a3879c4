//! The first element of a sequence that has a given property.

use vstd::prelude::*;

verus! {

/// Whether the element at position `k` has the property and no element before it
/// has.
pub open spec fn is_first<T>(s: Seq<T>, property: spec_fn(T) -> bool, k: int) -> bool {
    &&& 0 <= k < s.len()
    &&& property(s[k])
    &&& forall|j: int| 0 <= j < k ==> !property(#[trigger] s[j])
}

/// The position of the first element that has the property.
pub open spec fn first<T>(s: Seq<T>, property: spec_fn(T) -> bool) -> Option<int> {
    if exists|k: int| is_first(s, property, k) {
        Some(choose|k: int| is_first(s, property, k))
    } else {
        None
    }
}

/// There is one first element at most.
pub proof fn first_is_unique<T>(s: Seq<T>, property: spec_fn(T) -> bool, k: int)
    requires
        is_first(s, property, k),
    ensures
        first(s, property) == Some(k),
{
    let chosen = choose|c: int| is_first(s, property, c);
    if chosen < k {
        assert(!property(s[chosen]));
    } else if k < chosen {
        assert(!property(s[k]));
    }
}

/// Where an element has the property, there is a first one, at its position or
/// before it.
pub proof fn first_exists<T>(s: Seq<T>, property: spec_fn(T) -> bool, k: int)
    requires
        0 <= k < s.len(),
        property(s[k]),
    ensures
        first(s, property) matches Some(c) && c <= k,
    decreases k,
{
    if exists|j: int| 0 <= j < k && property(#[trigger] s[j]) {
        let j = choose|j: int| 0 <= j < k && property(#[trigger] s[j]);
        first_exists(s, property, j);
    } else {
        assert(is_first(s, property, k));
        first_is_unique(s, property, k);
    }
}

/// What it says of the sequence that there is a first element, or none.
pub proof fn first_is_first<T>(s: Seq<T>, property: spec_fn(T) -> bool)
    ensures
        match first(s, property) {
            Some(k) => is_first(s, property, k),
            None => forall|k: int| 0 <= k < s.len() ==> !property(#[trigger] s[k]),
        },
{
    if first(s, property) is None {
        assert forall|k: int| 0 <= k < s.len() implies !property(#[trigger] s[k]) by {
            if property(s[k]) {
                first_exists(s, property, k);
            }
        }
    }
}

} // verus!
