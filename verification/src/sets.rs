//! Hashed sets and maps of texts, as the `ahash` crate provides them.

use ahash::{AHashMap, AHashSet};
use vstd::prelude::*;
use vstd::string::*;

verus! {

/// `ahash::RandomState`: the hasher that the sets and maps are made with.
#[verifier::external_type_specification]
#[verifier::external_body]
pub struct ExRandomState(ahash::RandomState);

/// `ahash::AHashSet`: a hashed set.
#[verifier::external_type_specification]
#[verifier::external_body]
#[verifier::reject_recursive_types(T)]
#[verifier::reject_recursive_types(S)]
pub struct ExAHashSet<T, S>(ahash::AHashSet<T, S>);

/// The texts that a set holds.
pub uninterp spec fn texts_in(set: AHashSet<String>) -> Set<Seq<char>>;

/// The texts as a sequence of their views.
pub open spec fn views_of_texts(texts: Seq<String>) -> Seq<Seq<char>> {
    Seq::new(texts.len(), |i: int| texts[i]@)
}

/// `AHashSet::from_iter`, over copies of the texts: the set that holds
/// each of the texts and nothing else.
#[verifier::external_body]
pub(crate) fn set_of_texts(texts: &Vec<String>) -> (r: AHashSet<String>)
    ensures
        texts_in(r) == views_of_texts(texts@).to_set(),
{
    AHashSet::from_iter(texts.iter().cloned())
}

/// `HashSet::contains`, which an `AHashSet` has from the set it wraps:
/// whether the set holds the text.
#[verifier::external_body]
pub(crate) fn set_contains(set: &AHashSet<String>, text: &str) -> (r: bool)
    ensures
        r == texts_in(*set).contains(text@),
{
    set.contains(text)
}

/// `HashSet::intersection`, asked for its first item, with a copy made of
/// it: a text that both sets hold, if there is one. Which one it is where
/// there are several is left open.
#[verifier::external_body]
pub(crate) fn first_shared(a: &AHashSet<String>, b: &AHashSet<String>) -> (r: Option<String>)
    ensures
        r is None <==> texts_in(*a).disjoint(texts_in(*b)),
        r matches Some(text) ==> texts_in(*a).contains(text@) && texts_in(*b).contains(text@),
{
    a.intersection(b).next().cloned()
}

/// `ahash::AHashMap`: a hashed map.
#[verifier::external_type_specification]
#[verifier::external_body]
#[verifier::reject_recursive_types(K)]
#[verifier::reject_recursive_types(V)]
#[verifier::reject_recursive_types(S)]
pub struct ExAHashMap<K, V, S>(ahash::AHashMap<K, V, S>);

/// The texts that a map holds, each under its key.
pub uninterp spec fn entries_in(map: AHashMap<String, String>) -> Map<Seq<char>, Seq<char>>;

/// `HashMap::get`, which an `AHashMap` has from the map it wraps, with a
/// copy made of what it finds: the text under the key, if there is one.
#[verifier::external_body]
pub(crate) fn map_get(map: &AHashMap<String, String>, key: &str) -> (r: Option<String>)
    ensures
        r is Some <==> entries_in(*map).contains_key(key@),
        r matches Some(value) ==> value@ == entries_in(*map)[key@],
{
    map.get(key).cloned()
}

} // verus!
