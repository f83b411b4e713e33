//! What it takes for a type to travel as the `metadata` of a response.

use crate::error::{viewed, DecodeError};
use crate::fields::{
    distinct_keys, keys_of, pairs_view, text_pairs_of, texts, texts_of, texts_view,
};
use crate::json::{items_view, lemma_view_unfold, members_view, Json, JsonView};
use vstd::prelude::*;

verus! {

/// A type that is read from the `metadata` of a response.
pub trait Resource: View + Sized {
    /// What holds of every value that was read: where the type has maps, that
    /// no key occurs twice in them; where it has timestamps, that each holds
    /// the instant that its text denotes.
    spec fn well_formed(value: Self::V) -> bool;

    /// What a document stands for, read as this type.
    spec fn decoded(json: JsonView) -> Result<Self::V, DecodeError>;

    /// Reads a document as this type.
    fn decode(json: &Json) -> (r: Result<Self, DecodeError>)
        ensures
            viewed(r) == Self::decoded(json@),
            r matches Ok(value) ==> Self::well_formed(value@),
    ;

    /// Whatever a document stands for is well formed.
    proof fn lemma_read_is_well_formed(json: JsonView)
        ensures
            Self::decoded(json) matches Ok(value) ==> Self::well_formed(value),
    ;
}

/// A resource that can also be written, such that reading what was written
/// for a well-formed value gives the value back.
pub trait Wire: Resource {
    /// The document that stands for a value.
    spec fn encoded(value: Self::V) -> JsonView;

    /// Writes a value as a document.
    fn encode(&self) -> (r: Json)
        ensures
            r@ == Self::encoded(self@),
    ;

    /// Reading the document written for a well-formed value gives that value.
    proof fn lemma_round_trip(value: Self::V)
        requires
            Self::well_formed(value),
        ensures
            Self::decoded(Self::encoded(value)) == Ok::<Self::V, DecodeError>(value),
    ;
}

/// The identifiers that a listing returns: names or fingerprints, never the
/// resources themselves.
#[derive(Clone, Debug, PartialEq, Eq)]
pub struct Names(pub Vec<String>);

impl View for Names {
    type V = Seq<Seq<char>>;

    open spec fn view(&self) -> Seq<Seq<char>> {
        texts_view(self.0@)
    }
}

/// The array of strings that stands for a list of strings.
pub open spec fn texts_json(list: Seq<Seq<char>>) -> JsonView {
    JsonView::Array(Seq::new(list.len(), |i: int| JsonView::Text(list[i])))
}

/// Reading the array written for a list of strings gives the list.
pub proof fn lemma_texts_round_trip(list: Seq<Seq<char>>)
    ensures
        texts_of(texts_json(list)) == Ok::<Seq<Seq<char>>, DecodeError>(list),
{
    assert(texts_of(texts_json(list))->Ok_0 =~= list);
}

/// Writes a list of strings as an array.
pub fn texts_to_json(list: &Vec<String>) -> (r: Json)
    ensures
        r@ == texts_json(texts_view(list@)),
{
    let mut items: Vec<Json> = Vec::new();
    let mut i: usize = 0;
    while i < list.len()
        invariant
            i <= list.len(),
            items.len() == i,
            forall|k: int| 0 <= k < i ==> (#[trigger] items[k])@ == JsonView::Text(list[k]@),
        decreases list.len() - i,
    {
        items.push(Json::Text(list[i].clone()));
        i += 1;
    }
    let r = Json::Array(items);
    proof {
        lemma_view_unfold(r);
        assert(items_view(items@) =~= texts_json(texts_view(list@))->Array_0);
    }
    r
}

/// The object that stands for a map of strings.
pub open spec fn pairs_json(pairs: Seq<(Seq<char>, Seq<char>)>) -> JsonView {
    JsonView::Object(Seq::new(pairs.len(), |i: int| (pairs[i].0, JsonView::Text(pairs[i].1))))
}

/// Reading the object written for a map of strings gives the map.
pub proof fn lemma_pairs_round_trip(pairs: Seq<(Seq<char>, Seq<char>)>)
    requires
        distinct_keys(pairs),
    ensures
        text_pairs_of(pairs_json(pairs)) == Ok::<Seq<(Seq<char>, Seq<char>)>, DecodeError>(pairs),
{
    assert(keys_of(pairs_json(pairs)->Object_0) =~= keys_of(pairs));
    assert(text_pairs_of(pairs_json(pairs))->Ok_0 =~= pairs);
}

/// Writes a map of strings as an object.
pub fn pairs_to_json(pairs: &Vec<(String, String)>) -> (r: Json)
    ensures
        r@ == pairs_json(pairs_view(pairs@)),
{
    let mut members: Vec<(String, Json)> = Vec::new();
    let mut i: usize = 0;
    while i < pairs.len()
        invariant
            i <= pairs.len(),
            members.len() == i,
            forall|k: int|
                0 <= k < i ==> (#[trigger] members[k]).0@ == pairs[k].0@ && members[k].1@
                    == JsonView::Text(pairs[k].1@),
        decreases pairs.len() - i,
    {
        members.push((pairs[i].0.clone(), Json::Text(pairs[i].1.clone())));
        i += 1;
    }
    assert(members_view(members@) =~= pairs_json(pairs_view(pairs@))->Object_0);
    Json::object(members)
}

impl Resource for Names {
    open spec fn well_formed(value: Seq<Seq<char>>) -> bool {
        true
    }

    open spec fn decoded(json: JsonView) -> Result<Seq<Seq<char>>, DecodeError> {
        texts_of(json)
    }

    fn decode(json: &Json) -> (r: Result<Self, DecodeError>) {
        match texts(json) {
            Ok(list) => Ok(Names(list)),
            Err(e) => Err(e),
        }
    }

    proof fn lemma_read_is_well_formed(json: JsonView) {
    }
}

impl Wire for Names {
    open spec fn encoded(value: Seq<Seq<char>>) -> JsonView {
        texts_json(value)
    }

    fn encode(&self) -> (r: Json) {
        texts_to_json(&self.0)
    }

    proof fn lemma_round_trip(value: Seq<Seq<char>>) {
        lemma_texts_round_trip(value);
    }
}

/// A document read as it is: every document will do.
impl Resource for Json {
    open spec fn well_formed(value: JsonView) -> bool {
        true
    }

    open spec fn decoded(json: JsonView) -> Result<JsonView, DecodeError> {
        Ok(json)
    }

    fn decode(json: &Json) -> (r: Result<Self, DecodeError>) {
        Ok(json.duplicate())
    }

    proof fn lemma_read_is_well_formed(json: JsonView) {
    }
}

impl Wire for Json {
    open spec fn encoded(value: JsonView) -> JsonView {
        value
    }

    fn encode(&self) -> (r: Json) {
        self.duplicate()
    }

    proof fn lemma_round_trip(value: JsonView) {
    }
}

} // verus!
