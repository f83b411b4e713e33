//! Long-running tasks of the daemon, as it reports them.

use crate::error::DecodeError;
use crate::fields::{
    bool_at, copy_of_member, distinct_keys, is_left_out, keys_are_distinct, keys_of, left_out,
    member_or_null, put, required_bool,
    required_status, required_text, required_timestamp, status_at, text_at, text_is, texts,
    texts_of, texts_view, timestamp_at,
};
use crate::json::{lemma_find_at, member, members_view, Json, JsonView, NumberView};
use crate::resource::{lemma_texts_round_trip, texts_json, texts_to_json, Resource, Wire};
use crate::timestamp::{Timestamp, TimestampView};
use crate::types::{lemma_code_round_trip, ResourceStatus};
use vstd::prelude::*;

verus! {

/// The kind of an operation.
#[derive(Clone, Copy, Debug, PartialEq, Eq, Structural)]
pub enum OperationClass {
    Task,
    Token,
    Websocket,
}

/// What is needed to ask about an operation again: its identifier, and where
/// the daemon keeps it.
#[derive(Clone, Debug, PartialEq, Eq)]
pub struct OperationHandle {
    pub id: String,
    pub location: String,
}

/// An operation as the daemon last reported it. Only the daemon changes an
/// operation; a client fetches it again and replaces its copy.
#[derive(Debug, PartialEq, Eq)]
pub struct Operation {
    pub id: String,
    pub class: OperationClass,
    pub created_at: Timestamp,
    pub updated_at: Timestamp,
    pub description: String,
    /// The daemon's description of the failure; empty where there is none.
    pub err: String,
    pub location: String,
    pub may_cancel: bool,
    pub metadata: Json,
    /// The resources that the operation touches, by kind.
    pub resources: Vec<(String, Vec<String>)>,
    pub status: ResourceStatus,
}

pub ghost struct OperationHandleView {
    pub id: Seq<char>,
    pub location: Seq<char>,
}

pub ghost struct OperationView {
    pub id: Seq<char>,
    pub class: OperationClass,
    pub created_at: TimestampView,
    pub updated_at: TimestampView,
    pub description: Seq<char>,
    pub err: Seq<char>,
    pub location: Seq<char>,
    pub may_cancel: bool,
    pub metadata: JsonView,
    pub resources: Seq<(Seq<char>, Seq<Seq<char>>)>,
    pub status: ResourceStatus,
}

/// The views of the resources of an operation.
pub open spec fn resources_view(resources: Seq<(String, Vec<String>)>) -> Seq<
    (Seq<char>, Seq<Seq<char>>),
> {
    Seq::new(resources.len(), |i: int| (resources[i].0@, texts_view(resources[i].1@)))
}

impl View for OperationHandle {
    type V = OperationHandleView;

    open spec fn view(&self) -> OperationHandleView {
        OperationHandleView { id: self.id@, location: self.location@ }
    }
}

impl View for Operation {
    type V = OperationView;

    open spec fn view(&self) -> OperationView {
        OperationView {
            id: self.id@,
            class: self.class,
            created_at: self.created_at@,
            updated_at: self.updated_at@,
            description: self.description@,
            err: self.err@,
            location: self.location@,
            may_cancel: self.may_cancel,
            metadata: self.metadata@,
            resources: resources_view(self.resources@),
            status: self.status,
        }
    }
}

/// The class that a word on the wire stands for.
pub open spec fn class_of(word: Seq<char>) -> Option<OperationClass> {
    if word == "task"@ {
        Some(OperationClass::Task)
    } else if word == "token"@ {
        Some(OperationClass::Token)
    } else if word == "websocket"@ {
        Some(OperationClass::Websocket)
    } else {
        None
    }
}

/// The member `class`, which must be one of the three known words.
pub open spec fn required_class(json: JsonView) -> Result<OperationClass, DecodeError> {
    match required_text(json, "class"@) {
        Ok(word) => match class_of(word) {
            Some(class) => Ok(class),
            None => Err(DecodeError::SchemaMismatch),
        },
        Err(e) => Err(e),
    }
}

/// The resources that an object stands for: each member an array of strings,
/// and no key twice.
pub open spec fn resources_of(json: JsonView) -> Result<
    Seq<(Seq<char>, Seq<Seq<char>>)>,
    DecodeError,
> {
    match json {
        JsonView::Object(members) => if distinct_keys(members) && forall|i: int|
            0 <= i < members.len() ==> texts_of(#[trigger] members[i].1) is Ok {
            Ok(Seq::new(members.len(), |i: int| (members[i].0, texts_of(members[i].1)->Ok_0)))
        } else {
            Err(DecodeError::SchemaMismatch)
        },
        _ => Err(DecodeError::SchemaMismatch),
    }
}

/// The member `resources`; none where the member is left out.
pub open spec fn optional_resources(json: JsonView) -> Result<
    Seq<(Seq<char>, Seq<Seq<char>>)>,
    DecodeError,
> {
    if left_out(json, "resources"@) {
        Ok(Seq::empty())
    } else {
        resources_of(member(json, "resources"@)->Some_0)
    }
}

/// The operation that a document stands for. Every member but `metadata` and
/// `resources` is required; members that the schema does not name are ignored.
/// Where several members are at fault, the first in the order below decides the
/// error.
pub open spec fn operation_of(json: JsonView) -> Result<OperationView, DecodeError> {
    let id = required_text(json, "id"@);
    let class = required_class(json);
    let created_at = required_timestamp(json, "created_at"@);
    let updated_at = required_timestamp(json, "updated_at"@);
    let description = required_text(json, "description"@);
    let err = required_text(json, "err"@);
    let location = required_text(json, "location"@);
    let may_cancel = required_bool(json, "may_cancel"@);
    let resources = optional_resources(json);
    let status = required_status(json, "status_code"@);
    if id is Err {
        Err(id->Err_0)
    } else if class is Err {
        Err(class->Err_0)
    } else if created_at is Err {
        Err(created_at->Err_0)
    } else if updated_at is Err {
        Err(updated_at->Err_0)
    } else if description is Err {
        Err(description->Err_0)
    } else if err is Err {
        Err(err->Err_0)
    } else if location is Err {
        Err(location->Err_0)
    } else if may_cancel is Err {
        Err(may_cancel->Err_0)
    } else if resources is Err {
        Err(resources->Err_0)
    } else if status is Err {
        Err(status->Err_0)
    } else {
        Ok(
            OperationView {
                id: id->Ok_0,
                class: class->Ok_0,
                created_at: created_at->Ok_0,
                updated_at: updated_at->Ok_0,
                description: description->Ok_0,
                err: err->Ok_0,
                location: location->Ok_0,
                may_cancel: may_cancel->Ok_0,
                metadata: member_or_null(json, "metadata"@),
                resources: resources->Ok_0,
                status: status->Ok_0,
            },
        )
    }
}

/// Resources that were read have no key twice.
pub proof fn lemma_resources_are_a_map(json: JsonView)
    ensures
        resources_of(json) matches Ok(resources) ==> distinct_keys(resources),
{
    if let Ok(resources) = resources_of(json) {
        assert(keys_of(resources) =~= keys_of(json->Object_0));
    }
}

/// Reads the member `class`.
pub fn class_at(json: &Json) -> (r: Result<OperationClass, DecodeError>)
    ensures
        r == required_class(json@),
{
    match text_at(json, "class") {
        Ok(word) => {
            if text_is(&word, "task") {
                Ok(OperationClass::Task)
            } else if text_is(&word, "token") {
                Ok(OperationClass::Token)
            } else if text_is(&word, "websocket") {
                Ok(OperationClass::Websocket)
            } else {
                Err(DecodeError::SchemaMismatch)
            }
        },
        Err(e) => Err(e),
    }
}

/// Reads the resources of an operation from an object.
pub fn resources_from(json: &Json) -> (r: Result<Vec<(String, Vec<String>)>, DecodeError>)
    ensures
        match r {
            Ok(resources) => resources_of(json@) == Ok::<
                Seq<(Seq<char>, Seq<Seq<char>>)>,
                DecodeError,
            >(resources_view(resources@)) && distinct_keys(resources_view(resources@)),
            Err(e) => resources_of(json@) == Err::<Seq<(Seq<char>, Seq<Seq<char>>)>, DecodeError>(
                e,
            ),
        },
{
    match json.as_members() {
        None => Err(DecodeError::SchemaMismatch),
        Some(members) => {
            let ghost all = members_view(members@);
            if !keys_are_distinct(members) {
                return Err(DecodeError::SchemaMismatch);
            }
            let mut resources: Vec<(String, Vec<String>)> = Vec::new();
            let mut i: usize = 0;
            while i < members.len()
                invariant
                    i <= members.len(),
                    all == members_view(members@),
                    json@ == JsonView::Object(all),
                    resources.len() == i,
                    forall|k: int|
                        0 <= k < i ==> all[k].0 == (#[trigger] resources[k]).0@ && texts_of(
                            all[k].1,
                        ) == Ok::<Seq<Seq<char>>, DecodeError>(texts_view(resources[k].1@)),
                decreases members.len() - i,
            {
                match texts(&members[i].1) {
                    Ok(list) => {
                        resources.push((members[i].0.clone(), list));
                    },
                    Err(_) => {
                        assert(!(texts_of(all[i as int].1) is Ok));
                        return Err(DecodeError::SchemaMismatch);
                    },
                }
                i += 1;
            }
            proof {
                assert forall|k: int| 0 <= k < all.len() implies texts_of(
                    #[trigger] all[k].1,
                ) is Ok by {
                    assert(all[k].0 == resources[k].0@);
                }
                assert(resources_of(json@)->Ok_0 =~= resources_view(resources@));
                lemma_resources_are_a_map(json@);
            }
            Ok(resources)
        },
    }
}

/// An operation that was read is well formed.
pub proof fn lemma_read_operation_is_well_formed(json: JsonView)
    ensures
        operation_of(json) matches Ok(operation) ==> operation_well_formed(operation),
{
    if operation_of(json) is Ok {
        if !left_out(json, "resources"@) {
            lemma_resources_are_a_map(member(json, "resources"@)->Some_0);
        } else {
            assert(keys_of(Seq::<(Seq<char>, Seq<Seq<char>>)>::empty()) =~= Seq::empty());
        }
    }
}

impl Resource for Operation {
    open spec fn well_formed(value: OperationView) -> bool {
        operation_well_formed(value)
    }

    open spec fn decoded(json: JsonView) -> Result<OperationView, DecodeError> {
        operation_of(json)
    }

    proof fn lemma_read_is_well_formed(json: JsonView) {
        lemma_read_operation_is_well_formed(json);
    }

    fn decode(json: &Json) -> (r: Result<Self, DecodeError>) {
        let id = match text_at(json, "id") {
            Ok(v) => v,
            Err(e) => return Err(e),
        };
        let class = match class_at(json) {
            Ok(v) => v,
            Err(e) => return Err(e),
        };
        let created_at = match timestamp_at(json, "created_at") {
            Ok(v) => v,
            Err(e) => return Err(e),
        };
        let updated_at = match timestamp_at(json, "updated_at") {
            Ok(v) => v,
            Err(e) => return Err(e),
        };
        let description = match text_at(json, "description") {
            Ok(v) => v,
            Err(e) => return Err(e),
        };
        let err = match text_at(json, "err") {
            Ok(v) => v,
            Err(e) => return Err(e),
        };
        let location = match text_at(json, "location") {
            Ok(v) => v,
            Err(e) => return Err(e),
        };
        let may_cancel = match bool_at(json, "may_cancel") {
            Ok(v) => v,
            Err(e) => return Err(e),
        };
        let resources = if is_left_out(json, "resources") {
            Vec::new()
        } else {
            match json.get("resources") {
                Some(value) => match resources_from(value) {
                    Ok(v) => v,
                    Err(e) => return Err(e),
                },
                None => Vec::new(),
            }
        };
        assert(optional_resources(json@) == Ok::<Seq<(Seq<char>, Seq<Seq<char>>)>, DecodeError>(
            resources_view(resources@),
        )) by {
            assert(resources_view(Seq::<(String, Vec<String>)>::empty()) =~= Seq::empty());
        }
        let status = match status_at(json, "status_code") {
            Ok(v) => v,
            Err(e) => return Err(e),
        };
        let metadata = copy_of_member(json, "metadata");
        proof {
            lemma_read_operation_is_well_formed(json@);
        }
        Ok(
            Operation {
                id,
                class,
                created_at,
                updated_at,
                description,
                err,
                location,
                may_cancel,
                metadata,
                resources,
                status,
            },
        )
    }
}

/// Whether asking the daemon to cancel an operation can have any effect: the
/// operation allows it and has not ended.
pub open spec fn cancelable(operation: OperationView) -> bool {
    operation.may_cancel && operation.status.in_progress()
}

impl Operation {
    /// Whether it makes sense to ask the daemon to cancel this operation.
    pub fn can_cancel(&self) -> (r: bool)
        ensures
            r == cancelable(self@),
    {
        self.may_cancel && !self.status.is_terminal()
    }

    /// What is needed to ask the daemon about this operation again.
    pub fn handle(&self) -> (r: OperationHandle)
        ensures
            r@ == (OperationHandleView { id: self@.id, location: self@.location }),
    {
        OperationHandle { id: self.id.clone(), location: self.location.clone() }
    }
}

impl OperationClass {
    /// The word for the class on the wire.
    pub open spec fn word(self) -> Seq<char> {
        match self {
            OperationClass::Task => "task"@,
            OperationClass::Token => "token"@,
            OperationClass::Websocket => "websocket"@,
        }
    }

    pub fn as_str(&self) -> (r: &'static str)
        ensures
            r@ == self.word(),
    {
        match self {
            OperationClass::Task => "task",
            OperationClass::Token => "token",
            OperationClass::Websocket => "websocket",
        }
    }
}

/// The object that stands for the resources of an operation.
pub open spec fn resources_json(resources: Seq<(Seq<char>, Seq<Seq<char>>)>) -> JsonView {
    JsonView::Object(
        Seq::new(resources.len(), |i: int| (resources[i].0, texts_json(resources[i].1))),
    )
}

/// The document that stands for an operation.
pub open spec fn operation_json(operation: OperationView) -> JsonView {
    JsonView::Object(
        seq![
            ("id"@, JsonView::Text(operation.id)),
            ("class"@, JsonView::Text(operation.class.word())),
            ("created_at"@, JsonView::Text(operation.created_at.text)),
            ("updated_at"@, JsonView::Text(operation.updated_at.text)),
            ("description"@, JsonView::Text(operation.description)),
            ("err"@, JsonView::Text(operation.err)),
            ("location"@, JsonView::Text(operation.location)),
            ("may_cancel"@, JsonView::Bool(operation.may_cancel)),
            ("metadata"@, operation.metadata),
            ("resources"@, resources_json(operation.resources)),
            (
                "status_code"@,
                JsonView::Number(NumberView::Unsigned(operation.status.wire_code() as u64)),
            ),
        ],
    )
}

/// Whether an operation is well formed: its two timestamps hold the instants
/// that their texts denote, and no kind of resource occurs twice.
pub open spec fn operation_well_formed(operation: OperationView) -> bool {
    &&& Timestamp::consistent(operation.created_at)
    &&& Timestamp::consistent(operation.updated_at)
    &&& distinct_keys(operation.resources)
}

/// Reading the object written for the resources of an operation gives them back.
pub proof fn lemma_resources_round_trip(resources: Seq<(Seq<char>, Seq<Seq<char>>)>)
    requires
        distinct_keys(resources),
    ensures
        resources_of(resources_json(resources)) == Ok::<
            Seq<(Seq<char>, Seq<Seq<char>>)>,
            DecodeError,
        >(resources),
{
    let members = resources_json(resources)->Object_0;
    assert forall|i: int| 0 <= i < members.len() implies texts_of(#[trigger] members[i].1)
        == Ok::<Seq<Seq<char>>, DecodeError>(resources[i].1) by {
        lemma_texts_round_trip(resources[i].1);
    }
    assert(keys_of(members) =~= keys_of(resources));
    assert(resources_of(resources_json(resources))->Ok_0 =~= resources);
}

/// Each member of the document written for an operation is found under its name.
pub proof fn lemma_operation_members(operation: OperationView)
    ensures
        ({
            let json = operation_json(operation);
            &&& member(json, "id"@) == Some(JsonView::Text(operation.id))
            &&& member(json, "class"@) == Some(JsonView::Text(operation.class.word()))
            &&& member(json, "created_at"@) == Some(JsonView::Text(operation.created_at.text))
            &&& member(json, "updated_at"@) == Some(JsonView::Text(operation.updated_at.text))
            &&& member(json, "description"@) == Some(JsonView::Text(operation.description))
            &&& member(json, "err"@) == Some(JsonView::Text(operation.err))
            &&& member(json, "location"@) == Some(JsonView::Text(operation.location))
            &&& member(json, "may_cancel"@) == Some(JsonView::Bool(operation.may_cancel))
            &&& member(json, "metadata"@) == Some(operation.metadata)
            &&& member(json, "resources"@) == Some(resources_json(operation.resources))
            &&& member(json, "status_code"@) == Some(
                JsonView::Number(NumberView::Unsigned(operation.status.wire_code() as u64)),
            )
        }),
{
    reveal_strlit("id");
    reveal_strlit("class");
    reveal_strlit("created_at");
    reveal_strlit("updated_at");
    reveal_strlit("description");
    reveal_strlit("err");
    reveal_strlit("location");
    reveal_strlit("may_cancel");
    reveal_strlit("metadata");
    reveal_strlit("resources");
    reveal_strlit("status_code");
    assert("id"@.len() == 2 && "class"@.len() == 5 && "err"@.len() == 3 && "resources"@.len()
        == 9);
    assert("created_at"@.len() == 10 && "created_at"@[0] == 'c');
    assert("updated_at"@.len() == 10 && "updated_at"@[0] == 'u');
    assert("may_cancel"@.len() == 10 && "may_cancel"@[0] == 'm');
    assert("description"@.len() == 11 && "description"@[0] == 'd');
    assert("status_code"@.len() == 11 && "status_code"@[0] == 's');
    assert("location"@.len() == 8 && "location"@[0] == 'l');
    assert("metadata"@.len() == 8 && "metadata"@[0] == 'm');
    let members = operation_json(operation)->Object_0;
    lemma_find_at(members, "id"@, 0);
    lemma_find_at(members, "class"@, 1);
    lemma_find_at(members, "created_at"@, 2);
    lemma_find_at(members, "updated_at"@, 3);
    lemma_find_at(members, "description"@, 4);
    lemma_find_at(members, "err"@, 5);
    lemma_find_at(members, "location"@, 6);
    lemma_find_at(members, "may_cancel"@, 7);
    lemma_find_at(members, "metadata"@, 8);
    lemma_find_at(members, "resources"@, 9);
    lemma_find_at(members, "status_code"@, 10);
}

/// Reading the document written for an operation gives the operation back.
pub proof fn lemma_operation_round_trip(operation: OperationView)
    requires
        operation_well_formed(operation),
    ensures
        operation_of(operation_json(operation)) == Ok::<OperationView, DecodeError>(operation),
{
    let json = operation_json(operation);
    lemma_operation_members(operation);
    lemma_resources_round_trip(operation.resources);
    lemma_code_round_trip(operation.status);
    reveal_strlit("task");
    reveal_strlit("token");
    reveal_strlit("websocket");
    assert("task"@.len() == 4 && "token"@.len() == 5 && "websocket"@.len() == 9);
    assert(class_of(operation.class.word()) == Some(operation.class));
    assert(required_class(json) == Ok::<OperationClass, DecodeError>(operation.class));
    assert(required_timestamp(json, "created_at"@) == Ok::<TimestampView, DecodeError>(
        operation.created_at,
    ));
    assert(required_timestamp(json, "updated_at"@) == Ok::<TimestampView, DecodeError>(
        operation.updated_at,
    ));
    assert(optional_resources(json) == Ok::<Seq<(Seq<char>, Seq<Seq<char>>)>, DecodeError>(
        operation.resources,
    ));
    assert(required_status(json, "status_code"@) == Ok::<ResourceStatus, DecodeError>(
        operation.status,
    ));
}

/// Writes the resources of an operation as an object.
pub fn resources_to_json(resources: &Vec<(String, Vec<String>)>) -> (r: Json)
    ensures
        r@ == resources_json(resources_view(resources@)),
{
    let mut members: Vec<(String, Json)> = Vec::new();
    let mut i: usize = 0;
    while i < resources.len()
        invariant
            i <= resources.len(),
            members.len() == i,
            forall|k: int|
                0 <= k < i ==> (#[trigger] members[k]).0@ == resources[k].0@ && members[k].1@
                    == texts_json(texts_view(resources[k].1@)),
        decreases resources.len() - i,
    {
        members.push((resources[i].0.clone(), texts_to_json(&resources[i].1)));
        i += 1;
    }
    assert(members_view(members@) =~= resources_json(resources_view(resources@))->Object_0);
    Json::object(members)
}

impl Wire for Operation {
    open spec fn encoded(value: OperationView) -> JsonView {
        operation_json(value)
    }

    fn encode(&self) -> (r: Json) {
        let mut members: Vec<(String, Json)> = Vec::new();
        assert(members_view(members@) =~= seq![]);
        put(&mut members, "id", Json::text(self.id.as_str()));
        put(&mut members, "class", Json::text(self.class.as_str()));
        put(&mut members, "created_at", Json::text(self.created_at.text.as_str()));
        put(&mut members, "updated_at", Json::text(self.updated_at.text.as_str()));
        put(&mut members, "description", Json::text(self.description.as_str()));
        put(&mut members, "err", Json::text(self.err.as_str()));
        put(&mut members, "location", Json::text(self.location.as_str()));
        put(&mut members, "may_cancel", Json::Bool(self.may_cancel));
        put(&mut members, "metadata", self.metadata.duplicate());
        put(&mut members, "resources", resources_to_json(&self.resources));
        put(&mut members, "status_code", Json::unsigned(self.status.code() as u64));
        assert(members_view(members@) =~= operation_json(self@)->Object_0);
        Json::object(members)
    }

    proof fn lemma_round_trip(value: OperationView) {
        lemma_operation_round_trip(value);
    }
}

} // verus!
