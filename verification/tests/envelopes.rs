use nlxd::envelope::{decode, decode_document, read_outer, Envelope, Outer, ResponseType};
use nlxd::error::DecodeError;
use nlxd::json::Json;
use nlxd::operation::Operation;
use nlxd::resource::{Names, Resource};
use nlxd::types::ResourceStatus;

const OPERATION: &str = "{\"id\": \"op1\", \"class\": \"task\", \
    \"created_at\": \"2024-01-02T03:04:05Z\", \"updated_at\": \"2024-01-02T03:04:05Z\", \
    \"description\": \"Creating instance\", \"err\": \"\", \"location\": \"/1.0/operations/op1\", \
    \"may_cancel\": false, \"metadata\": null, \"resources\": {}, \"status_code\": 103}";

fn envelope(kind: &str, status_code: u64, metadata: &str) -> Vec<u8> {
    format!(
        "{{\"type\": \"{}\", \"status\": \"whatever\", \"status_code\": {}, \"metadata\": {}}}",
        kind, status_code, metadata
    )
    .into_bytes()
}

fn render(json: &Json) -> Vec<u8> {
    json.to_bytes()
}

#[test]
fn a_sync_answer_carries_the_result() {
    let raw = envelope("sync", 200, "[\"/1.0/instances/a\", \"/1.0/instances/b\"]");
    assert_eq!(
        decode::<Names>(&raw),
        Ok(Envelope::Sync {
            metadata: Names(vec!["/1.0/instances/a".to_string(), "/1.0/instances/b".to_string()])
        })
    );
}

#[test]
fn an_async_answer_carries_the_operation() {
    let raw = envelope("async", 100, OPERATION);
    match decode::<Names>(&raw) {
        Ok(Envelope::Async { operation }) => {
            assert_eq!(operation.id, "op1");
            assert_eq!(operation.status, ResourceStatus::Running);
        }
        other => panic!("not an operation: {:?}", other),
    }
}

#[test]
fn an_error_answer_carries_code_and_message() {
    let raw = envelope("error", 404, "\"not found\"");
    assert_eq!(
        decode::<Names>(&raw),
        Ok(Envelope::Error { code: 404, message: "not found".to_string() })
    );
}

#[test]
fn an_error_answer_needs_a_message() {
    assert_eq!(decode::<Names>(&envelope("error", 404, "null")), Err(DecodeError::SchemaMismatch));
    assert_eq!(decode::<Names>(&envelope("error", 404, "{}")), Err(DecodeError::SchemaMismatch));
}

#[test]
fn an_unknown_type_is_never_taken_for_a_result() {
    let raw = envelope("stream", 200, "[\"a\"]");
    assert_eq!(decode::<Names>(&raw), Err(DecodeError::UnknownEnvelopeKind));
    let raw = envelope("SYNC", 200, "[\"a\"]");
    assert_eq!(decode::<Names>(&raw), Err(DecodeError::UnknownEnvelopeKind));
    let raw = envelope("", 200, "[\"a\"]");
    assert_eq!(decode::<Names>(&raw), Err(DecodeError::UnknownEnvelopeKind));
}

#[test]
fn text_that_is_not_json_is_malformed() {
    assert_eq!(decode::<Names>(b"<html>"), Err(DecodeError::MalformedJson));
    assert_eq!(decode::<Names>(b""), Err(DecodeError::MalformedJson));
    assert_eq!(decode::<Operation>(b"{\"type\": \"sync\""), Err(DecodeError::MalformedJson));
}

#[test]
fn outer_members_are_required() {
    assert_eq!(
        decode::<Names>(b"{\"type\": \"sync\", \"status_code\": 200, \"metadata\": []}"),
        Err(DecodeError::SchemaMismatch)
    );
    assert_eq!(
        decode::<Names>(b"{\"type\": \"sync\", \"status\": \"Success\", \"metadata\": []}"),
        Err(DecodeError::SchemaMismatch)
    );
    assert_eq!(
        decode::<Names>(b"{\"status\": \"Success\", \"status_code\": 200, \"metadata\": []}"),
        Err(DecodeError::SchemaMismatch)
    );
    assert_eq!(
        decode::<Names>(b"{\"type\": 1, \"status\": \"Success\", \"status_code\": 200}"),
        Err(DecodeError::SchemaMismatch)
    );
    assert_eq!(decode::<Names>(b"[]"), Err(DecodeError::SchemaMismatch));
}

#[test]
fn missing_metadata_is_read_as_null() {
    let raw = b"{\"type\": \"sync\", \"status\": \"Success\", \"status_code\": 200}";
    assert_eq!(decode::<Json>(raw), Ok(Envelope::Sync { metadata: Json::Null }));
    assert_eq!(decode::<Names>(raw), Err(DecodeError::SchemaMismatch));
}

#[test]
fn the_outer_members_are_read_first() {
    let json = Json::parse(&envelope("async", 100, "17")).unwrap();
    assert_eq!(
        read_outer(&json),
        Ok(Outer {
            status: "whatever".to_string(),
            status_code: 100,
            response_type: ResponseType::Async,
        })
    );
}

#[test]
fn a_result_shaped_like_an_operation_stays_a_result() {
    let raw = envelope("sync", 200, OPERATION);
    match decode::<Operation>(&raw) {
        Ok(Envelope::Sync { metadata }) => assert_eq!(metadata.id, "op1"),
        other => panic!("not a result: {:?}", other),
    }
    match decode::<Json>(&raw) {
        Ok(Envelope::Sync { metadata }) => {
            assert_eq!(metadata.get("id"), Some(&Json::text("op1")))
        }
        other => panic!("not a result: {:?}", other),
    }
}

#[test]
fn an_operation_is_never_read_as_the_result_type() {
    let raw = envelope("async", 100, "[\"a\", \"b\"]");
    assert_eq!(decode::<Names>(&raw), Err(DecodeError::SchemaMismatch));
    let raw = envelope("sync", 200, OPERATION);
    assert_eq!(decode::<Names>(&raw), Err(DecodeError::SchemaMismatch));
}

#[test]
fn a_result_with_the_wrong_shape_is_an_error_not_a_panic() {
    let raw = envelope("sync", 200, "{\"not\": \"a list\"}");
    assert_eq!(decode::<Names>(&raw), Err(DecodeError::SchemaMismatch));
    let raw = envelope("sync", 200, "[1, 2]");
    assert_eq!(decode::<Names>(&raw), Err(DecodeError::SchemaMismatch));
}

#[test]
fn a_written_result_is_read_back() {
    let answer: Envelope<Names> =
        Envelope::Sync { metadata: Names(vec!["a".to_string(), "".to_string(), "c".to_string()]) };
    let written = answer.encode();
    assert_eq!(decode_document::<Names>(&written), Ok(Envelope::Sync {
        metadata: Names(vec!["a".to_string(), "".to_string(), "c".to_string()])
    }));
    assert_eq!(decode::<Names>(&render(&written)), Ok(answer));
}

#[test]
fn a_written_operation_answer_is_read_back() {
    let operation = Operation::decode(&Json::parse(OPERATION.as_bytes()).unwrap()).unwrap();
    let answer: Envelope<Names> = Envelope::Async { operation };
    let written = answer.encode();
    assert_eq!(written.get("type"), Some(&Json::text("async")));
    assert_eq!(decode::<Names>(&render(&written)), Ok(answer));
}

#[test]
fn a_written_error_is_read_back() {
    let answer: Envelope<Operation> =
        Envelope::Error { code: 403, message: "not \"allowed\"".to_string() };
    let written = answer.encode();
    assert_eq!(written.get("status_code"), Some(&Json::unsigned(403)));
    assert_eq!(decode::<Operation>(&render(&written)), Ok(answer));
}

#[test]
fn a_written_result_that_is_an_operation_comes_back_as_a_result() {
    let operation = Operation::decode(&Json::parse(OPERATION.as_bytes()).unwrap()).unwrap();
    let answer: Envelope<Operation> = Envelope::Sync { metadata: operation };
    let read = decode::<Operation>(&render(&answer.encode()));
    assert_eq!(read, Ok(answer));
    assert!(matches!(read, Ok(Envelope::Sync { .. })));
}
