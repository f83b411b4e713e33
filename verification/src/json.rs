//! JSON documents as a tree of plain values.
//!
//! The daemon speaks JSON. Text is turned into a tree by `serde_json`; everything
//! the rest of the crate does with a document (finding members, reading typed
//! fields) is done on the tree defined here.

use serde_json::Value;
use vstd::prelude::*;
use vstd::string::StringExecFns;

verus! {

/// A JSON number, held without floating point.
#[derive(Clone, Debug, PartialEq, Eq)]
pub enum Number {
    /// An integer from zero up.
    Unsigned(u64),
    /// An integer that `Unsigned` cannot hold.
    Negative(i64),
    /// Any other number, as its decimal text.
    Real(String),
}

/// A JSON document.
#[derive(Debug, PartialEq, Eq)]
pub enum Json {
    Null,
    Bool(bool),
    Number(Number),
    Text(String),
    Array(Vec<Json>),
    /// The members, in the order in which they are held. A tree built by hand
    /// may hold a key more than once; lookups find the first. What `parse`
    /// yields comes as `serde_json`'s map hands it out: ordered by key, and
    /// where the text repeats a key, once, with the last of its values.
    Object(Vec<(String, Json)>),
}

pub ghost enum NumberView {
    Unsigned(u64),
    Negative(i64),
    Real(Seq<char>),
}

pub ghost enum JsonView {
    Null,
    Bool(bool),
    Number(NumberView),
    Text(Seq<char>),
    Array(Seq<JsonView>),
    Object(Seq<(Seq<char>, JsonView)>),
}

impl View for Number {
    type V = NumberView;

    open spec fn view(&self) -> NumberView {
        match self {
            Number::Unsigned(n) => NumberView::Unsigned(*n),
            Number::Negative(n) => NumberView::Negative(*n),
            Number::Real(s) => NumberView::Real(s@),
        }
    }
}

/// The document that a tree stands for.
pub open spec fn tree_view(json: Json) -> JsonView
    decreases json,
{
    match json {
        Json::Null => JsonView::Null,
        Json::Bool(b) => JsonView::Bool(b),
        Json::Number(n) => JsonView::Number(n@),
        Json::Text(s) => JsonView::Text(s@),
        Json::Array(items) => JsonView::Array(
            Seq::new(
                items.len() as nat,
                |i: int|
                    if 0 <= i < items.len() {
                        tree_view(items[i])
                    } else {
                        JsonView::Null
                    },
            ),
        ),
        Json::Object(members) => JsonView::Object(
            Seq::new(
                members.len() as nat,
                |i: int|
                    if 0 <= i < members.len() {
                        (members[i].0@, tree_view(members[i].1))
                    } else {
                        (Seq::empty(), JsonView::Null)
                    },
            ),
        ),
    }
}

impl View for Json {
    type V = JsonView;

    open spec fn view(&self) -> JsonView {
        tree_view(*self)
    }
}

/// The views of a list of documents.
pub open spec fn items_view(items: Seq<Json>) -> Seq<JsonView> {
    Seq::new(items.len(), |i: int| items[i]@)
}

/// The views of a list of members.
pub open spec fn members_view(members: Seq<(String, Json)>) -> Seq<(Seq<char>, JsonView)> {
    Seq::new(members.len(), |i: int| (members[i].0@, members[i].1@))
}

/// The view of an array is the views of its items, and likewise for an object.
pub proof fn lemma_view_unfold(json: Json)
    ensures
        json matches Json::Array(items) ==> json@ == JsonView::Array(items_view(items@)),
        json matches Json::Object(members) ==> json@ == JsonView::Object(
            members_view(members@),
        ),
{
    match json {
        Json::Array(items) => {
            assert(json@->Array_0 =~= items_view(items@));
        },
        Json::Object(members) => {
            assert(json@->Object_0 =~= members_view(members@));
        },
        _ => {},
    }
}

/// The value of the first member named `key`, if there is one.
pub open spec fn find(members: Seq<(Seq<char>, JsonView)>, key: Seq<char>) -> Option<JsonView>
    decreases members.len(),
{
    if members.len() == 0 {
        None
    } else if members[0].0 == key {
        Some(members[0].1)
    } else {
        find(members.drop_first(), key)
    }
}

/// The member `key` of a document: present only in an object that has it.
pub open spec fn member(json: JsonView, key: Seq<char>) -> Option<JsonView> {
    match json {
        JsonView::Object(members) => find(members, key),
        _ => None,
    }
}

/// A member is found where it is the first one with its key.
pub proof fn lemma_find_at(members: Seq<(Seq<char>, JsonView)>, key: Seq<char>, i: int)
    requires
        0 <= i < members.len(),
        members[i].0 == key,
        forall|j: int| 0 <= j < i ==> (#[trigger] members[j]).0 != key,
    ensures
        find(members, key) == Some(members[i].1),
    decreases i,
{
    if i > 0 {
        let rest = members.drop_first();
        assert(members[0].0 != key);
        assert forall|j: int| 0 <= j < i - 1 implies (#[trigger] rest[j]).0 != key by {
            assert(members[j + 1].0 != key);
        }
        lemma_find_at(rest, key, i - 1);
    }
}

/// Nothing is found where no member has the key.
pub proof fn lemma_find_none(members: Seq<(Seq<char>, JsonView)>, key: Seq<char>)
    requires
        forall|j: int| 0 <= j < members.len() ==> (#[trigger] members[j]).0 != key,
    ensures
        find(members, key) is None,
    decreases members.len(),
{
    if members.len() > 0 {
        let rest = members.drop_first();
        assert(members[0].0 != key);
        assert forall|j: int| 0 <= j < rest.len() implies (#[trigger] rest[j]).0 != key by {
            assert(members[j + 1].0 != key);
        }
        lemma_find_none(rest, key);
    }
}

/// What `serde_json` makes of a text: the document it stands for, or nothing
/// where the text is not valid JSON.
pub uninterp spec fn parsed_json(bytes: Seq<u8>) -> Option<JsonView>;

/// The document that a `serde_json::Value` holds.
pub uninterp spec fn value_tree(value: Value) -> JsonView;

#[verifier::external_type_specification]
#[verifier::external_body]
pub struct ExValue(Value);

/// `serde_json::from_slice`, asked for a `Value`. The parser's verdict on a text
/// is a function of the text alone; the contract gives it the name `parsed_json`
/// and says nothing else about it.
#[verifier::external_body]
fn parse_value(bytes: &[u8]) -> (r: Option<Value>)
    ensures
        match r {
            Some(value) => parsed_json(bytes@) == Some(value_tree(value)),
            None => parsed_json(bytes@) is None,
        },
{
    serde_json::from_slice::<Value>(bytes).ok()
}

/// Copies a `serde_json::Value` into a `Json`, variant for variant. A number
/// becomes `Unsigned` where `Number::as_u64` yields it, `Negative` where only
/// `Number::as_i64` does, and otherwise `Real` with the text that the number
/// prints as. Object members come in the order in which the map hands them out.
#[verifier::external_body]
fn lift(value: &Value) -> (json: Json)
    ensures
        json@ == value_tree(*value),
{
    match value {
        Value::Null => Json::Null,
        Value::Bool(b) => Json::Bool(*b),
        Value::Number(n) => Json::Number(
            match (n.as_u64(), n.as_i64()) {
                (Some(u), _) => Number::Unsigned(u),
                (_, Some(i)) => Number::Negative(i),
                _ => Number::Real(n.to_string()),
            },
        ),
        Value::String(s) => Json::Text(s.clone()),
        Value::Array(items) => Json::Array(items.iter().map(lift).collect()),
        Value::Object(map) => Json::Object(map.iter().map(|(k, v)| (k.clone(), lift(v))).collect()),
    }
}

/// The document that `serde_json` holds once it has taken a document in:
/// members by its map, numbers by its own kinds, and `null` for a `Real` whose
/// text it does not read as a number.
pub uninterp spec fn taken_in(json: JsonView) -> JsonView;

/// The text that `serde_json` writes for a document that it holds.
pub uninterp spec fn written_json(held: JsonView) -> Seq<u8>;

/// Builds the `serde_json::Value` for a `Json`, variant for variant: integers
/// through `Value::from`, a `Real` through `Number::from_str` (reached through
/// `str::parse`) and `null` where that fails, members through the map's
/// `FromIterator`. What the value then holds depends on the document alone;
/// the contract names it `taken_in` and says nothing else about it.
#[verifier::external_body]
fn lower(json: &Json) -> (value: Value)
    ensures
        value_tree(value) == taken_in(json@),
{
    match json {
        Json::Null => Value::Null,
        Json::Bool(b) => Value::Bool(*b),
        Json::Number(Number::Unsigned(n)) => Value::from(*n),
        Json::Number(Number::Negative(n)) => Value::from(*n),
        Json::Number(Number::Real(s)) => s.parse().map_or(Value::Null, Value::Number),
        Json::Text(s) => Value::String(s.clone()),
        Json::Array(items) => Value::Array(items.iter().map(lower).collect()),
        Json::Object(all) => Value::Object(all.iter().map(|(k, v)| (k.clone(), lower(v))).collect()),
    }
}

/// `serde_json::to_vec` on a `Value`, which does not fail on one. The text
/// depends on what the value holds alone; the contract names it `written_json`
/// and says nothing else about it.
#[verifier::external_body]
fn write_value(value: &Value) -> (bytes: Vec<u8>)
    ensures
        bytes@ == written_json(value_tree(*value)),
{
    serde_json::to_vec(value).unwrap_or_default()
}

/// The JSON text for a document.
pub open spec fn rendered_json(json: JsonView) -> Seq<u8> {
    written_json(taken_in(json))
}

/// The view of an optional document.
pub open spec fn option_view(json: Option<Json>) -> Option<JsonView> {
    match json {
        Some(j) => Some(j@),
        None => None,
    }
}

impl Json {
    /// Reads a JSON text. `None` means that the text is not valid JSON.
    pub fn parse(bytes: &[u8]) -> (r: Option<Json>)
        ensures
            option_view(r) == parsed_json(bytes@),
    {
        match parse_value(bytes) {
            Some(value) => Some(lift(&value)),
            None => None,
        }
    }

    /// Writes the document as JSON text.
    pub fn to_bytes(&self) -> (bytes: Vec<u8>)
        ensures
            bytes@ == rendered_json(self@),
    {
        let value = lower(self);
        write_value(&value)
    }

    /// The member `key` of an object; `None` for anything but an object that has
    /// such a member.
    pub fn get(&self, key: &str) -> (r: Option<&Json>)
        ensures
            match r {
                Some(j) => member(self@, key@) == Some(j@),
                None => member(self@, key@) is None,
            },
    {
        match self {
            Json::Object(members) => {
                proof {
                    lemma_view_unfold(*self);
                }
                let wanted = String::from_str(key);
                let ghost all = members_view(members@);
                let mut i: usize = 0;
                assert(all.skip(0) =~= all);
                while i < members.len()
                    invariant
                        i <= members.len(),
                        wanted@ == key@,
                        all == members_view(members@),
                        self@ == JsonView::Object(all),
                        find(all, key@) == find(all.skip(i as int), key@),
                    decreases members.len() - i,
                {
                    let ghost rest = all.skip(i as int);
                    assert(rest[0] == all[i as int]);
                    assert(rest.drop_first() =~= all.skip(i + 1));
                    if members[i].0 == wanted {
                        return Some(&members[i].1);
                    }
                    i += 1;
                }
                assert(all.skip(i as int).len() == 0);
                None
            },
            _ => None,
        }
    }

    /// The text of a string.
    pub fn as_text(&self) -> (r: Option<&String>)
        ensures
            match r {
                Some(s) => self@ == JsonView::Text(s@),
                None => !(self@ is Text),
            },
    {
        match self {
            Json::Text(s) => Some(s),
            _ => None,
        }
    }

    /// The value of a boolean.
    pub fn as_bool(&self) -> (r: Option<bool>)
        ensures
            match r {
                Some(b) => self@ == JsonView::Bool(b),
                None => !(self@ is Bool),
            },
    {
        match self {
            Json::Bool(b) => Some(*b),
            _ => None,
        }
    }

    /// The value of a number that is an integer from zero up.
    pub fn as_u64(&self) -> (r: Option<u64>)
        ensures
            r == unsigned_of(self@),
    {
        match self {
            Json::Number(Number::Unsigned(n)) => Some(*n),
            _ => None,
        }
    }

    /// The items of an array.
    pub fn as_items(&self) -> (r: Option<&Vec<Json>>)
        ensures
            match r {
                Some(items) => self@ == JsonView::Array(items_view(items@)),
                None => !(self@ is Array),
            },
    {
        proof {
            lemma_view_unfold(*self);
        }
        match self {
            Json::Array(items) => Some(items),
            _ => None,
        }
    }

    /// The members of an object, in the order in which the tree holds them.
    pub fn as_members(&self) -> (r: Option<&Vec<(String, Json)>>)
        ensures
            match r {
                Some(members) => self@ == JsonView::Object(members_view(members@)),
                None => !(self@ is Object),
            },
    {
        proof {
            lemma_view_unfold(*self);
        }
        match self {
            Json::Object(members) => Some(members),
            _ => None,
        }
    }

    /// Whether this is `null`.
    pub fn is_null(&self) -> (r: bool)
        ensures
            r == (self@ is Null),
    {
        match self {
            Json::Null => true,
            _ => false,
        }
    }

    /// An object with the given members.
    pub fn object(members: Vec<(String, Json)>) -> (r: Json)
        ensures
            r@ == JsonView::Object(members_view(members@)),
    {
        let r = Json::Object(members);
        proof {
            lemma_view_unfold(r);
        }
        r
    }

    /// An array with the given items.
    pub fn array(items: Vec<Json>) -> (r: Json)
        ensures
            r@ == JsonView::Array(items_view(items@)),
    {
        let r = Json::Array(items);
        proof {
            lemma_view_unfold(r);
        }
        r
    }

    /// A string document.
    pub fn text(s: &str) -> (r: Json)
        ensures
            r@ == JsonView::Text(s@),
    {
        Json::Text(String::from_str(s))
    }

    /// An integer document.
    pub fn unsigned(n: u64) -> (r: Json)
        ensures
            r@ == JsonView::Number(NumberView::Unsigned(n)),
    {
        Json::Number(Number::Unsigned(n))
    }

    /// A deep copy.
    pub fn duplicate(&self) -> (r: Json)
        ensures
            r@ == self@,
        decreases self,
    {
        proof {
            lemma_view_unfold(*self);
        }
        match self {
            Json::Null => Json::Null,
            Json::Bool(b) => Json::Bool(*b),
            Json::Number(Number::Unsigned(n)) => Json::Number(Number::Unsigned(*n)),
            Json::Number(Number::Negative(n)) => Json::Number(Number::Negative(*n)),
            Json::Number(Number::Real(s)) => Json::Number(Number::Real(s.clone())),
            Json::Text(s) => Json::Text(s.clone()),
            Json::Array(items) => {
                let mut copy: Vec<Json> = Vec::new();
                let mut i: usize = 0;
                while i < items.len()
                    invariant
                        i <= items.len(),
                        self == Json::Array(*items),
                        copy.len() == i,
                        forall|k: int| 0 <= k < i ==> copy[k]@ == items[k]@,
                    decreases items.len() - i,
                {
                    assert(decreases_to!(self => self->Array_0));
                    assert(decreases_to!(*items => items[i as int]));
                    let item = items[i].duplicate();
                    copy.push(item);
                    i += 1;
                }
                let r = Json::Array(copy);
                proof {
                    lemma_view_unfold(r);
                    assert(items_view(copy@) =~= items_view(items@));
                }
                r
            },
            Json::Object(members) => {
                let mut copy: Vec<(String, Json)> = Vec::new();
                let mut i: usize = 0;
                while i < members.len()
                    invariant
                        i <= members.len(),
                        self == Json::Object(*members),
                        copy.len() == i,
                        forall|k: int|
                            0 <= k < i ==> copy[k].0@ == members[k].0@ && copy[k].1@
                                == members[k].1@,
                    decreases members.len() - i,
                {
                    let key = members[i].0.clone();
                    assert(decreases_to!(self => self->Object_0));
                    assert(decreases_to!(*members => members[i as int]));
                    let value = members[i].1.duplicate();
                    copy.push((key, value));
                    i += 1;
                }
                let r = Json::Object(copy);
                proof {
                    lemma_view_unfold(r);
                    assert(members_view(copy@) =~= members_view(members@));
                }
                r
            },
        }
    }
}

/// The value of a document that is an integer from zero up.
pub open spec fn unsigned_of(json: JsonView) -> Option<u64> {
    match json {
        JsonView::Number(NumberView::Unsigned(n)) => Some(n),
        _ => None,
    }
}

/// The text of a document that is a string.
pub open spec fn text_of(json: JsonView) -> Option<Seq<char>> {
    match json {
        JsonView::Text(s) => Some(s),
        _ => None,
    }
}

/// The value of a document that is a boolean.
pub open spec fn bool_of(json: JsonView) -> Option<bool> {
    match json {
        JsonView::Bool(b) => Some(b),
        _ => None,
    }
}

} // verus!
