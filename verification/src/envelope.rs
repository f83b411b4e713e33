//! The wrapper around every answer of the daemon.
//!
//! An answer is one of three things: a result, the handle of an operation that
//! goes on in the background, or an error. All three share one JSON shape, so a
//! reader first looks at the outer members alone, and only the `type` found
//! there decides as what `metadata` is read.

use crate::error::{viewed, DecodeError};
use crate::fields::{
    member_or_null, put, required_text, required_unsigned, text_at, text_is, unsigned_at,
};
use crate::json::{lemma_find_at, members_view, parsed_json, Json, JsonView, NumberView};
use crate::operation::{
    lemma_operation_round_trip, operation_json, operation_of, operation_well_formed, Operation,
    OperationView,
};
use crate::resource::{Resource, Wire};
use vstd::prelude::*;

verus! {

/// The `type` of an answer.
#[derive(Clone, Copy, Debug, PartialEq, Eq, Structural)]
pub enum ResponseType {
    Sync,
    Async,
    Error,
}

/// An answer of the daemon, with `metadata` read as what the `type` calls for.
#[derive(Debug, PartialEq, Eq)]
pub enum Envelope<T> {
    /// The result itself.
    Sync { metadata: T },
    /// The work goes on; `operation` is its state when the answer was written.
    Async { operation: Operation },
    /// The daemon refused or failed.
    Error { code: u64, message: String },
}

pub ghost enum EnvelopeView<V> {
    Sync { metadata: V },
    Async { operation: OperationView },
    Error { code: u64, message: Seq<char> },
}

impl<T: View> View for Envelope<T> {
    type V = EnvelopeView<T::V>;

    open spec fn view(&self) -> EnvelopeView<T::V> {
        match self {
            Envelope::Sync { metadata } => EnvelopeView::Sync { metadata: metadata@ },
            Envelope::Async { operation } => EnvelopeView::Async { operation: operation@ },
            Envelope::Error { code, message } => EnvelopeView::Error {
                code: *code,
                message: message@,
            },
        }
    }
}

/// The outer members of an answer: all that is read before `type` has decided.
#[derive(Debug, PartialEq, Eq)]
pub struct Outer {
    pub status: String,
    pub status_code: u64,
    pub response_type: ResponseType,
}

pub ghost struct OuterView {
    pub status: Seq<char>,
    pub status_code: u64,
    pub response_type: ResponseType,
}

impl View for Outer {
    type V = OuterView;

    open spec fn view(&self) -> OuterView {
        OuterView {
            status: self.status@,
            status_code: self.status_code,
            response_type: self.response_type,
        }
    }
}

/// The type that a word on the wire stands for.
pub open spec fn response_type_of(word: Seq<char>) -> Option<ResponseType> {
    if word == "sync"@ {
        Some(ResponseType::Sync)
    } else if word == "async"@ {
        Some(ResponseType::Async)
    } else if word == "error"@ {
        Some(ResponseType::Error)
    } else {
        None
    }
}

/// The outer members of a document. `status`, `status_code` and `type` are
/// required; a `type` that is a string but none of the three known words is an
/// unknown envelope kind, never a result.
pub open spec fn outer_of(json: JsonView) -> Result<OuterView, DecodeError> {
    let status = required_text(json, "status"@);
    let status_code = required_unsigned(json, "status_code"@);
    let word = required_text(json, "type"@);
    if status is Err {
        Err(status->Err_0)
    } else if status_code is Err {
        Err(status_code->Err_0)
    } else if word is Err {
        Err(word->Err_0)
    } else {
        match response_type_of(word->Ok_0) {
            Some(response_type) => Ok(
                OuterView { status: status->Ok_0, status_code: status_code->Ok_0, response_type },
            ),
            None => Err(DecodeError::UnknownEnvelopeKind),
        }
    }
}

/// `metadata` read as the outer members call for: as `T` in a result, as an
/// operation where the work goes on, as the message of an error.
pub open spec fn typed_of<T: Resource>(outer: OuterView, metadata: JsonView) -> Result<
    EnvelopeView<T::V>,
    DecodeError,
> {
    match outer.response_type {
        ResponseType::Sync => match T::decoded(metadata) {
            Ok(value) => Ok(EnvelopeView::Sync { metadata: value }),
            Err(e) => Err(e),
        },
        ResponseType::Async => match operation_of(metadata) {
            Ok(operation) => Ok(EnvelopeView::Async { operation }),
            Err(e) => Err(e),
        },
        ResponseType::Error => match metadata {
            JsonView::Text(message) => Ok(
                EnvelopeView::Error { code: outer.status_code, message },
            ),
            _ => Err(DecodeError::SchemaMismatch),
        },
    }
}

/// The answer that a document stands for.
pub open spec fn envelope_of<T: Resource>(json: JsonView) -> Result<
    EnvelopeView<T::V>,
    DecodeError,
> {
    match outer_of(json) {
        Ok(outer) => typed_of::<T>(outer, member_or_null(json, "metadata"@)),
        Err(e) => Err(e),
    }
}

/// The answer that a text stands for, given what the JSON parser made of it.
pub open spec fn response_of<T: Resource>(document: Option<JsonView>) -> Result<
    EnvelopeView<T::V>,
    DecodeError,
> {
    match document {
        Some(json) => envelope_of::<T>(json),
        None => Err(DecodeError::MalformedJson),
    }
}

/// Reads the outer members of an answer.
pub fn read_outer(json: &Json) -> (r: Result<Outer, DecodeError>)
    ensures
        viewed(r) == outer_of(json@),
{
    let status = match text_at(json, "status") {
        Ok(v) => v,
        Err(e) => return Err(e),
    };
    let status_code = match unsigned_at(json, "status_code") {
        Ok(v) => v,
        Err(e) => return Err(e),
    };
    let word = match text_at(json, "type") {
        Ok(v) => v,
        Err(e) => return Err(e),
    };
    let response_type = if text_is(&word, "sync") {
        ResponseType::Sync
    } else if text_is(&word, "async") {
        ResponseType::Async
    } else if text_is(&word, "error") {
        ResponseType::Error
    } else {
        return Err(DecodeError::UnknownEnvelopeKind);
    };
    Ok(Outer { status, status_code, response_type })
}

/// Reads `metadata` as the outer members call for.
pub fn read_typed<T: Resource>(outer: &Outer, metadata: &Json) -> (r: Result<
    Envelope<T>,
    DecodeError,
>)
    ensures
        viewed(r) == typed_of::<T>(outer@, metadata@),
{
    match outer.response_type {
        ResponseType::Sync => match T::decode(metadata) {
            Ok(value) => Ok(Envelope::Sync { metadata: value }),
            Err(e) => Err(e),
        },
        ResponseType::Async => match Operation::decode(metadata) {
            Ok(operation) => Ok(Envelope::Async { operation }),
            Err(e) => Err(e),
        },
        ResponseType::Error => match metadata.as_text() {
            Some(message) => Ok(
                Envelope::Error { code: outer.status_code, message: message.clone() },
            ),
            None => Err(DecodeError::SchemaMismatch),
        },
    }
}

/// Reads an answer from a JSON document, in two steps: the outer members
/// first, then `metadata` as the `type` found there calls for.
pub fn decode_document<T: Resource>(json: &Json) -> (r: Result<Envelope<T>, DecodeError>)
    ensures
        viewed(r) == envelope_of::<T>(json@),
{
    let outer = match read_outer(json) {
        Ok(v) => v,
        Err(e) => return Err(e),
    };
    match json.get("metadata") {
        Some(metadata) => read_typed::<T>(&outer, metadata),
        None => read_typed::<T>(&outer, &Json::Null),
    }
}

/// Reads an answer from the bytes of a response body.
pub fn decode<T: Resource>(bytes: &[u8]) -> (r: Result<Envelope<T>, DecodeError>)
    ensures
        viewed(r) == response_of::<T>(parsed_json(bytes@)),
{
    match Json::parse(bytes) {
        Some(json) => decode_document::<T>(&json),
        None => Err(DecodeError::MalformedJson),
    }
}

/// The `type` alone decides as what `metadata` is read. A result is read as
/// `T` and never as an operation, whatever its shape; the metadata of work
/// that goes on is read as an operation and never as `T`.
pub proof fn lemma_type_decides<T: Resource>(json: JsonView)
    requires
        outer_of(json) is Ok,
    ensures
        ({
            let outer = outer_of(json)->Ok_0;
            let metadata = member_or_null(json, "metadata"@);
            let answer = envelope_of::<T>(json);
            &&& outer.response_type == ResponseType::Sync ==> answer == match T::decoded(
                metadata,
            ) {
                Ok(value) => Ok::<EnvelopeView<T::V>, DecodeError>(
                    EnvelopeView::Sync { metadata: value },
                ),
                Err(e) => Err(e),
            }
            &&& outer.response_type == ResponseType::Async ==> answer == match operation_of(
                metadata,
            ) {
                Ok(operation) => Ok::<EnvelopeView<T::V>, DecodeError>(
                    EnvelopeView::Async { operation },
                ),
                Err(e) => Err(e),
            }
            &&& answer matches Ok(envelope) ==> {
                &&& envelope is Sync <==> outer.response_type == ResponseType::Sync
                &&& envelope is Async <==> outer.response_type == ResponseType::Async
                &&& envelope is Error <==> outer.response_type == ResponseType::Error
            }
        }),
{
}

/// A `type` that is a string, but none of the three known words, makes an
/// unknown envelope kind of an answer that has its other outer members.
pub proof fn lemma_unknown_type_is_refused<T: Resource>(json: JsonView)
    requires
        required_text(json, "status"@) is Ok,
        required_unsigned(json, "status_code"@) is Ok,
        required_text(json, "type"@) matches Ok(word) && response_type_of(word) is None,
    ensures
        envelope_of::<T>(json) == Err::<EnvelopeView<T::V>, DecodeError>(
            DecodeError::UnknownEnvelopeKind,
        ),
{
}

/// The outer members written for an answer, and the document written for its
/// metadata.
pub open spec fn envelope_parts<T: Wire>(envelope: EnvelopeView<T::V>) -> (
    Seq<char>,
    Seq<char>,
    u64,
    JsonView,
) {
    match envelope {
        EnvelopeView::Sync { metadata } => ("sync"@, "Success"@, 200, T::encoded(metadata)),
        EnvelopeView::Async { operation } => (
            "async"@,
            "Operation created"@,
            100,
            operation_json(operation),
        ),
        EnvelopeView::Error { code, message } => (
            "error"@,
            "Failure"@,
            code,
            JsonView::Text(message),
        ),
    }
}

/// The document written for an answer.
pub open spec fn envelope_json<T: Wire>(envelope: EnvelopeView<T::V>) -> JsonView {
    let (word, status, status_code, metadata) = envelope_parts::<T>(envelope);
    JsonView::Object(
        seq![
            ("type"@, JsonView::Text(word)),
            ("status"@, JsonView::Text(status)),
            ("status_code"@, JsonView::Number(NumberView::Unsigned(status_code))),
            ("metadata"@, metadata),
        ],
    )
}

/// Whether an answer is well formed: what it carries is.
pub open spec fn envelope_well_formed<T: Wire>(envelope: EnvelopeView<T::V>) -> bool {
    match envelope {
        EnvelopeView::Sync { metadata } => T::well_formed(metadata),
        EnvelopeView::Async { operation } => operation_well_formed(operation),
        EnvelopeView::Error { .. } => true,
    }
}

/// Reading the document written for an answer gives the answer back: a result
/// comes back as a result, an operation as an operation, an error as an error.
pub proof fn lemma_envelope_round_trip<T: Wire>(envelope: EnvelopeView<T::V>)
    requires
        envelope_well_formed::<T>(envelope),
    ensures
        envelope_of::<T>(envelope_json::<T>(envelope)) == Ok::<EnvelopeView<T::V>, DecodeError>(
            envelope,
        ),
{
    let json = envelope_json::<T>(envelope);
    let members = json->Object_0;
    let (word, status, status_code, metadata) = envelope_parts::<T>(envelope);
    reveal_strlit("type");
    reveal_strlit("status");
    reveal_strlit("status_code");
    reveal_strlit("metadata");
    reveal_strlit("sync");
    reveal_strlit("async");
    reveal_strlit("error");
    assert("type"@.len() == 4 && "status"@.len() == 6 && "status_code"@.len() == 11
        && "metadata"@.len() == 8);
    assert("sync"@.len() == 4 && "async"@.len() == 5 && "error"@.len() == 5);
    assert("async"@[0] == 'a' && "error"@[0] == 'e');
    lemma_find_at(members, "type"@, 0);
    lemma_find_at(members, "status"@, 1);
    lemma_find_at(members, "status_code"@, 2);
    lemma_find_at(members, "metadata"@, 3);
    assert(member_or_null(json, "metadata"@) == metadata);
    match envelope {
        EnvelopeView::Sync { metadata } => {
            T::lemma_round_trip(metadata);
        },
        EnvelopeView::Async { operation } => {
            lemma_operation_round_trip(operation);
        },
        EnvelopeView::Error { .. } => {},
    }
}

/// An answer that was read is well formed, and reading what is written for it
/// gives it back.
pub proof fn lemma_read_write_read<T: Wire>(json: JsonView)
    requires
        envelope_of::<T>(json) is Ok,
    ensures
        envelope_well_formed::<T>(envelope_of::<T>(json)->Ok_0),
        envelope_of::<T>(envelope_json::<T>(envelope_of::<T>(json)->Ok_0)) == envelope_of::<T>(
            json,
        ),
{
    let metadata = member_or_null(json, "metadata"@);
    T::lemma_read_is_well_formed(metadata);
    Operation::lemma_read_is_well_formed(metadata);
    lemma_envelope_round_trip::<T>(envelope_of::<T>(json)->Ok_0);
}

impl<T: Wire> Envelope<T> {
    /// Writes the answer as a document.
    pub fn encode(&self) -> (r: Json)
        ensures
            r@ == envelope_json::<T>(self@),
    {
        let mut members: Vec<(String, Json)> = Vec::new();
        assert(members_view(members@) =~= seq![]);
        match self {
            Envelope::Sync { metadata } => {
                put(&mut members, "type", Json::text("sync"));
                put(&mut members, "status", Json::text("Success"));
                put(&mut members, "status_code", Json::unsigned(200));
                put(&mut members, "metadata", metadata.encode());
            },
            Envelope::Async { operation } => {
                put(&mut members, "type", Json::text("async"));
                put(&mut members, "status", Json::text("Operation created"));
                put(&mut members, "status_code", Json::unsigned(100));
                put(&mut members, "metadata", operation.encode());
            },
            Envelope::Error { code, message } => {
                put(&mut members, "type", Json::text("error"));
                put(&mut members, "status", Json::text("Failure"));
                put(&mut members, "status_code", Json::unsigned(*code));
                put(&mut members, "metadata", Json::text(message.as_str()));
            },
        }
        assert(members_view(members@) =~= envelope_json::<T>(self@)->Object_0);
        Json::object(members)
    }
}

} // verus!
