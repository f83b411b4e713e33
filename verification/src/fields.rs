//! Typed reading and writing of the members of a JSON object.
//!
//! Every reader says over the document's view what it yields when the member
//! is there and of the right kind, and fails with `SchemaMismatch` in every
//! other case.

use crate::error::DecodeError;
use crate::json::{items_view, member, members_view, Json, JsonView, NumberView};
use crate::timestamp::{timestamp_of, Timestamp, TimestampView};
use crate::types::{status_of_code, ResourceStatus};
use vstd::prelude::*;
use vstd::string::StringExecFns;

verus! {

/// The views of a list of strings.
pub open spec fn texts_view(texts: Seq<String>) -> Seq<Seq<char>> {
    Seq::new(texts.len(), |i: int| texts[i]@)
}

/// The views of a list of pairs of strings.
pub open spec fn pairs_view(pairs: Seq<(String, String)>) -> Seq<(Seq<char>, Seq<char>)> {
    Seq::new(pairs.len(), |i: int| (pairs[i].0@, pairs[i].1@))
}

/// The string member `key`.
pub open spec fn required_text(json: JsonView, key: Seq<char>) -> Result<Seq<char>, DecodeError> {
    match member(json, key) {
        Some(JsonView::Text(s)) => Ok(s),
        _ => Err(DecodeError::SchemaMismatch),
    }
}

/// The boolean member `key`.
pub open spec fn required_bool(json: JsonView, key: Seq<char>) -> Result<bool, DecodeError> {
    match member(json, key) {
        Some(JsonView::Bool(b)) => Ok(b),
        _ => Err(DecodeError::SchemaMismatch),
    }
}

/// The member `key`, which must be an integer from zero up.
pub open spec fn required_unsigned(json: JsonView, key: Seq<char>) -> Result<u64, DecodeError> {
    match member(json, key) {
        Some(JsonView::Number(NumberView::Unsigned(n))) => Ok(n),
        _ => Err(DecodeError::SchemaMismatch),
    }
}

/// Whether a member is left out: absent, or present as `null`.
pub open spec fn left_out(json: JsonView, key: Seq<char>) -> bool {
    member(json, key) is None || member(json, key) == Some(JsonView::Null)
}

/// The strings of an array of strings.
pub open spec fn texts_of(json: JsonView) -> Result<Seq<Seq<char>>, DecodeError> {
    match json {
        JsonView::Array(items) => if forall|i: int| 0 <= i < items.len() ==> items[i] is Text {
            Ok(Seq::new(items.len(), |i: int| items[i]->Text_0))
        } else {
            Err(DecodeError::SchemaMismatch)
        },
        _ => Err(DecodeError::SchemaMismatch),
    }
}

/// The member `key`, which must be an array of strings.
pub open spec fn required_texts(json: JsonView, key: Seq<char>) -> Result<
    Seq<Seq<char>>,
    DecodeError,
> {
    match member(json, key) {
        Some(value) => texts_of(value),
        None => Err(DecodeError::SchemaMismatch),
    }
}

/// The keys of a list of pairs, in order.
pub open spec fn keys_of<V>(pairs: Seq<(Seq<char>, V)>) -> Seq<Seq<char>> {
    Seq::new(pairs.len(), |i: int| pairs[i].0)
}

/// Whether a list of pairs is a map: no key occurs twice.
pub open spec fn distinct_keys<V>(pairs: Seq<(Seq<char>, V)>) -> bool {
    keys_of(pairs).no_duplicates()
}

/// The map that an object stands for whose values are all strings: one pair
/// for each member, in the order of the members. An object in which a key
/// occurs twice stands for no map.
pub open spec fn text_pairs_of(json: JsonView) -> Result<
    Seq<(Seq<char>, Seq<char>)>,
    DecodeError,
> {
    match json {
        JsonView::Object(members) => if distinct_keys(members) && forall|i: int|
            0 <= i < members.len() ==> members[i].1 is Text {
            Ok(Seq::new(members.len(), |i: int| (members[i].0, members[i].1->Text_0)))
        } else {
            Err(DecodeError::SchemaMismatch)
        },
        _ => Err(DecodeError::SchemaMismatch),
    }
}

/// The member `key`, which must be an object whose values are all strings and
/// whose keys are all different.
pub open spec fn required_text_pairs(json: JsonView, key: Seq<char>) -> Result<
    Seq<(Seq<char>, Seq<char>)>,
    DecodeError,
> {
    match member(json, key) {
        Some(value) => text_pairs_of(value),
        None => Err(DecodeError::SchemaMismatch),
    }
}

/// Whether every member of an object is named by one of `allowed`. False for
/// anything but an object.
pub open spec fn only_members(json: JsonView, allowed: Seq<Seq<char>>) -> bool {
    match json {
        JsonView::Object(members) => forall|i: int|
            0 <= i < members.len() ==> allowed.contains(#[trigger] members[i].0),
        _ => false,
    }
}

/// Appends a member to the members of an object under construction.
pub fn put(members: &mut Vec<(String, Json)>, key: &str, value: Json)
    ensures
        members_view(final(members)@) == members_view(old(members)@).push((key@, value@)),
{
    members.push((String::from_str(key), value));
    assert(members_view(members@) =~= members_view(old(members)@).push((key@, value@)));
}

/// Whether a string is the given text.
pub fn text_is(text: &String, literal: &str) -> (r: bool)
    ensures
        r == (text@ == literal@),
{
    let other = String::from_str(literal);
    *text == other
}

/// The member `key`, or `null` where there is none.
pub open spec fn member_or_null(json: JsonView, key: Seq<char>) -> JsonView {
    match member(json, key) {
        Some(value) => value,
        None => JsonView::Null,
    }
}

/// Copies the member `key`; `null` where there is none.
pub fn copy_of_member(json: &Json, key: &str) -> (r: Json)
    ensures
        r@ == member_or_null(json@, key@),
{
    match json.get(key) {
        Some(value) => value.duplicate(),
        None => Json::Null,
    }
}

/// The member `key`, which must be a string where it is not left out.
pub open spec fn optional_text_member(json: JsonView, key: Seq<char>) -> Result<
    Option<Seq<char>>,
    DecodeError,
> {
    if left_out(json, key) {
        Ok(None)
    } else {
        match member(json, key) {
            Some(JsonView::Text(s)) => Ok(Some(s)),
            _ => Err(DecodeError::SchemaMismatch),
        }
    }
}

/// Reads the member `key`, which must be a string where it is not left out.
pub fn optional_text_at(json: &Json, key: &str) -> (r: Result<Option<String>, DecodeError>)
    ensures
        match r {
            Ok(Some(s)) => optional_text_member(json@, key@) == Ok::<
                Option<Seq<char>>,
                DecodeError,
            >(Some(s@)),
            Ok(None) => optional_text_member(json@, key@) == Ok::<Option<Seq<char>>, DecodeError>(
                None,
            ),
            Err(e) => optional_text_member(json@, key@) == Err::<Option<Seq<char>>, DecodeError>(
                e,
            ),
        },
{
    match json.get(key) {
        Some(value) => {
            if value.is_null() {
                Ok(None)
            } else {
                match value.as_text() {
                    Some(s) => Ok(Some(s.clone())),
                    None => Err(DecodeError::SchemaMismatch),
                }
            }
        },
        None => Ok(None),
    }
}

/// Reads the string member `key`.
pub fn text_at(json: &Json, key: &str) -> (r: Result<String, DecodeError>)
    ensures
        match r {
            Ok(s) => required_text(json@, key@) == Ok::<Seq<char>, DecodeError>(s@),
            Err(e) => required_text(json@, key@) == Err::<Seq<char>, DecodeError>(e),
        },
{
    match json.get(key) {
        Some(value) => match value.as_text() {
            Some(s) => Ok(s.clone()),
            None => Err(DecodeError::SchemaMismatch),
        },
        None => Err(DecodeError::SchemaMismatch),
    }
}

/// Reads the boolean member `key`.
pub fn bool_at(json: &Json, key: &str) -> (r: Result<bool, DecodeError>)
    ensures
        r == required_bool(json@, key@),
{
    match json.get(key) {
        Some(value) => match value.as_bool() {
            Some(b) => Ok(b),
            None => Err(DecodeError::SchemaMismatch),
        },
        None => Err(DecodeError::SchemaMismatch),
    }
}

/// Reads the member `key`, which must be an integer from zero up.
pub fn unsigned_at(json: &Json, key: &str) -> (r: Result<u64, DecodeError>)
    ensures
        r == required_unsigned(json@, key@),
{
    match json.get(key) {
        Some(value) => match value.as_u64() {
            Some(n) => Ok(n),
            None => Err(DecodeError::SchemaMismatch),
        },
        None => Err(DecodeError::SchemaMismatch),
    }
}

/// Reads an array of strings.
pub fn texts(json: &Json) -> (r: Result<Vec<String>, DecodeError>)
    ensures
        match r {
            Ok(list) => texts_of(json@) == Ok::<Seq<Seq<char>>, DecodeError>(texts_view(list@)),
            Err(e) => texts_of(json@) == Err::<Seq<Seq<char>>, DecodeError>(e),
        },
{
    match json.as_items() {
        None => Err(DecodeError::SchemaMismatch),
        Some(items) => {
            let ghost all = items_view(items@);
            let mut list: Vec<String> = Vec::new();
            let mut i: usize = 0;
            while i < items.len()
                invariant
                    i <= items.len(),
                    all == items_view(items@),
                    json@ == JsonView::Array(all),
                    list.len() == i,
                    forall|k: int| 0 <= k < i ==> all[k] == JsonView::Text(#[trigger] list[k]@),
                decreases items.len() - i,
            {
                match items[i].as_text() {
                    Some(s) => {
                        list.push(s.clone());
                    },
                    None => {
                        assert(!(all[i as int] is Text));
                        return Err(DecodeError::SchemaMismatch);
                    },
                }
                i += 1;
            }
            proof {
                assert forall|k: int| 0 <= k < all.len() implies all[k] is Text by {
                    assert(all[k] == JsonView::Text(list[k]@));
                }
                assert(texts_of(json@)->Ok_0 =~= texts_view(list@));
            }
            Ok(list)
        },
    }
}

/// Reads the member `key`, which must be an array of strings.
pub fn texts_at(json: &Json, key: &str) -> (r: Result<Vec<String>, DecodeError>)
    ensures
        match r {
            Ok(list) => required_texts(json@, key@) == Ok::<Seq<Seq<char>>, DecodeError>(
                texts_view(list@),
            ),
            Err(e) => required_texts(json@, key@) == Err::<Seq<Seq<char>>, DecodeError>(e),
        },
{
    match json.get(key) {
        Some(value) => texts(value),
        None => Err(DecodeError::SchemaMismatch),
    }
}

/// Whether no key occurs twice among the members of an object.
pub fn keys_are_distinct(members: &Vec<(String, Json)>) -> (r: bool)
    ensures
        r == distinct_keys(members_view(members@)),
{
    let ghost keys = keys_of(members_view(members@));
    let mut i: usize = 0;
    while i < members.len()
        invariant
            i <= members.len(),
            keys == keys_of(members_view(members@)),
            forall|a: int, b: int| 0 <= a < b < i ==> keys[a] != keys[b],
        decreases members.len() - i,
    {
        let mut j: usize = 0;
        while j < i
            invariant
                j <= i < members.len(),
                keys == keys_of(members_view(members@)),
                forall|a: int| 0 <= a < j ==> keys[a] != keys[i as int],
            decreases i - j,
        {
            if members[j].0 == members[i].0 {
                assert(keys[j as int] == keys[i as int]);
                return false;
            }
            j += 1;
        }
        i += 1;
    }
    true
}

/// Maps that were read have no key twice.
pub proof fn lemma_text_pairs_are_a_map(json: JsonView)
    ensures
        text_pairs_of(json) matches Ok(pairs) ==> distinct_keys(pairs),
{
    if let Ok(pairs) = text_pairs_of(json) {
        assert(keys_of(pairs) =~= keys_of(json->Object_0));
    }
}

/// Reads an object whose values are all strings as a map. What comes back has
/// no key twice: an object that has is refused.
pub fn text_pairs(json: &Json) -> (r: Result<Vec<(String, String)>, DecodeError>)
    ensures
        match r {
            Ok(pairs) => text_pairs_of(json@) == Ok::<Seq<(Seq<char>, Seq<char>)>, DecodeError>(
                pairs_view(pairs@),
            ) && distinct_keys(pairs_view(pairs@)),
            Err(e) => text_pairs_of(json@) == Err::<Seq<(Seq<char>, Seq<char>)>, DecodeError>(e),
        },
{
    match json.as_members() {
        None => Err(DecodeError::SchemaMismatch),
        Some(members) => {
            let ghost all = members_view(members@);
            if !keys_are_distinct(members) {
                return Err(DecodeError::SchemaMismatch);
            }
            let mut pairs: Vec<(String, String)> = Vec::new();
            let mut i: usize = 0;
            while i < members.len()
                invariant
                    i <= members.len(),
                    all == members_view(members@),
                    json@ == JsonView::Object(all),
                    pairs.len() == i,
                    forall|k: int|
                        0 <= k < i ==> all[k] == (
                            (#[trigger] pairs[k]).0@,
                            JsonView::Text(pairs[k].1@),
                        ),
                decreases members.len() - i,
            {
                match members[i].1.as_text() {
                    Some(s) => {
                        pairs.push((members[i].0.clone(), s.clone()));
                    },
                    None => {
                        assert(!(all[i as int].1 is Text));
                        return Err(DecodeError::SchemaMismatch);
                    },
                }
                i += 1;
            }
            proof {
                assert forall|k: int| 0 <= k < all.len() implies all[k].1 is Text by {
                    assert(all[k] == (pairs[k].0@, JsonView::Text(pairs[k].1@)));
                }
                assert(text_pairs_of(json@)->Ok_0 =~= pairs_view(pairs@));
                lemma_text_pairs_are_a_map(json@);
            }
            Ok(pairs)
        },
    }
}

/// Reads the member `key`, which must be an object whose values are all strings
/// and whose keys are all different.
pub fn text_pairs_at(json: &Json, key: &str) -> (r: Result<Vec<(String, String)>, DecodeError>)
    ensures
        match r {
            Ok(pairs) => required_text_pairs(json@, key@) == Ok::<
                Seq<(Seq<char>, Seq<char>)>,
                DecodeError,
            >(pairs_view(pairs@)) && distinct_keys(pairs_view(pairs@)),
            Err(e) => required_text_pairs(json@, key@) == Err::<
                Seq<(Seq<char>, Seq<char>)>,
                DecodeError,
            >(e),
        },
{
    match json.get(key) {
        Some(value) => text_pairs(value),
        None => Err(DecodeError::SchemaMismatch),
    }
}

/// Whether the member `key` is absent or `null`.
pub fn is_left_out(json: &Json, key: &str) -> (r: bool)
    ensures
        r == left_out(json@, key@),
{
    match json.get(key) {
        Some(value) => value.is_null(),
        None => true,
    }
}

/// Whether every member of an object is named by one of `allowed`.
pub fn has_only_members(json: &Json, allowed: &Vec<String>) -> (r: bool)
    ensures
        r == only_members(json@, texts_view(allowed@)),
{
    match json.as_members() {
        None => false,
        Some(members) => {
            let ghost all = members_view(members@);
            let ghost names = texts_view(allowed@);
            let mut i: usize = 0;
            while i < members.len()
                invariant
                    i <= members.len(),
                    all == members_view(members@),
                    names == texts_view(allowed@),
                    json@ == JsonView::Object(all),
                    forall|k: int| 0 <= k < i ==> names.contains(#[trigger] all[k].0),
                decreases members.len() - i,
            {
                let mut found = false;
                let mut j: usize = 0;
                while j < allowed.len()
                    invariant
                        j <= allowed.len(),
                        i < members.len(),
                        all == members_view(members@),
                        names == texts_view(allowed@),
                        found == exists|k: int| 0 <= k < j && names[k] == all[i as int].0,
                    decreases allowed.len() - j,
                {
                    if allowed[j] == members[i].0 {
                        assert(names[j as int] == all[i as int].0);
                        found = true;
                    }
                    j += 1;
                }
                if !found {
                    assert(!names.contains(all[i as int].0));
                    assert(json@->Object_0[i as int].0 == all[i as int].0);
                    return false;
                }
                assert(names.contains(all[i as int].0));
                i += 1;
            }
            true
        },
    }
}

/// The member `key`, which must be a string that denotes a point in time.
pub open spec fn required_timestamp(json: JsonView, key: Seq<char>) -> Result<
    TimestampView,
    DecodeError,
> {
    match member(json, key) {
        Some(JsonView::Text(s)) => match timestamp_of(s) {
            Some(t) => Ok(t),
            None => Err(DecodeError::SchemaMismatch),
        },
        _ => Err(DecodeError::SchemaMismatch),
    }
}

/// The member `key`, which must be a known status code.
pub open spec fn required_status(json: JsonView, key: Seq<char>) -> Result<
    ResourceStatus,
    DecodeError,
> {
    match member(json, key) {
        Some(JsonView::Number(NumberView::Unsigned(code))) => match status_of_code(code) {
            Some(status) => Ok(status),
            None => Err(DecodeError::UnknownStatus(code)),
        },
        _ => Err(DecodeError::SchemaMismatch),
    }
}

/// Reads the member `key`, which must be a string that denotes a point in time.
pub fn timestamp_at(json: &Json, key: &str) -> (r: Result<Timestamp, DecodeError>)
    ensures
        match r {
            Ok(t) => required_timestamp(json@, key@) == Ok::<TimestampView, DecodeError>(t@),
            Err(e) => required_timestamp(json@, key@) == Err::<TimestampView, DecodeError>(e),
        },
{
    match json.get(key) {
        Some(value) => match value.as_text() {
            Some(s) => match Timestamp::parse(s.as_str()) {
                Some(t) => Ok(t),
                None => Err(DecodeError::SchemaMismatch),
            },
            None => Err(DecodeError::SchemaMismatch),
        },
        None => Err(DecodeError::SchemaMismatch),
    }
}

/// Reads the member `key`, which must be a known status code. An integer outside
/// the enumeration is reported as such, with the code.
pub fn status_at(json: &Json, key: &str) -> (r: Result<ResourceStatus, DecodeError>)
    ensures
        r == required_status(json@, key@),
{
    match json.get(key) {
        Some(value) => match value.as_u64() {
            Some(code) => match ResourceStatus::from_code(code) {
                Ok(status) => Ok(status),
                Err(unknown) => Err(DecodeError::UnknownStatus(unknown.code)),
            },
            None => Err(DecodeError::SchemaMismatch),
        },
        None => Err(DecodeError::SchemaMismatch),
    }
}

} // verus!
