//! Instances: containers and virtual machines.

use crate::endpoint::optional_text;
use crate::error::DecodeError;
use crate::fields::{
    bool_at, distinct_keys, keys_are_distinct, keys_of, lemma_text_pairs_are_a_map,
    optional_text_at, optional_text_member, pairs_view, put, required_bool,
    required_status, required_text, required_text_pairs, required_texts, required_timestamp,
    status_at, text_at, text_is, text_pairs_at, texts_at, texts_view, timestamp_at,
};
use crate::images::RemoteImageProtocol;
use crate::json::{lemma_find_at, lemma_find_none, member, members_view, Json, JsonView, NumberView};
use crate::resource::{
    lemma_pairs_round_trip, lemma_texts_round_trip, pairs_json, pairs_to_json, texts_json,
    texts_to_json, Resource, Wire,
};
use crate::timestamp::{Timestamp, TimestampView};
use crate::types::lemma_code_round_trip;
use crate::types::ResourceStatus;
use vstd::prelude::*;

verus! {

#[derive(Clone, Copy, Debug, PartialEq, Eq, Structural)]
pub enum InstanceType {
    Container,
    VirtualMachine,
}

/// A device of an instance, by kind.
#[derive(Clone, Debug, PartialEq, Eq)]
pub enum Device {
    Disk { path: String, source: Option<String>, pool: Option<String> },
    Nic { name: String, network: String },
}

/// The status of an instance, with the codes of `ResourceStatus`.
#[derive(Clone, Copy, Debug, PartialEq, Eq, Structural)]
pub enum InstanceStatus {
    OperationCreated,
    Started,
    Stopped,
    Running,
    Canceling,
    Pending,
    Starting,
    Stopping,
    Aborting,
    Freezing,
    Frozen,
    Thawed,
    Error,
    Ready,
    Success,
    Failure,
    Canceled,
}

#[derive(Clone, Debug, PartialEq, Eq)]
pub struct Instance {
    pub architecture: String,
    pub config: Vec<(String, String)>,
    pub created_at: Timestamp,
    pub description: String,
    pub devices: Vec<(String, Device)>,
    pub ephemeral: bool,
    pub expanded_config: Vec<(String, String)>,
    pub expanded_devices: Vec<(String, Device)>,
    pub last_used_at: Timestamp,
    pub location: String,
    pub name: String,
    pub profiles: Vec<String>,
    pub project: String,
    pub stateful: bool,
    pub status: InstanceStatus,
    pub instance_type: InstanceType,
}

pub ghost enum DeviceView {
    Disk { path: Seq<char>, source: Option<Seq<char>>, pool: Option<Seq<char>> },
    Nic { name: Seq<char>, network: Seq<char> },
}

pub ghost struct InstanceView {
    pub architecture: Seq<char>,
    pub config: Seq<(Seq<char>, Seq<char>)>,
    pub created_at: TimestampView,
    pub description: Seq<char>,
    pub devices: Seq<(Seq<char>, DeviceView)>,
    pub ephemeral: bool,
    pub expanded_config: Seq<(Seq<char>, Seq<char>)>,
    pub expanded_devices: Seq<(Seq<char>, DeviceView)>,
    pub last_used_at: TimestampView,
    pub location: Seq<char>,
    pub name: Seq<char>,
    pub profiles: Seq<Seq<char>>,
    pub project: Seq<char>,
    pub stateful: bool,
    pub status: InstanceStatus,
    pub instance_type: InstanceType,
}

impl View for Device {
    type V = DeviceView;

    open spec fn view(&self) -> DeviceView {
        match self {
            Device::Disk { path, source, pool } => DeviceView::Disk {
                path: path@,
                source: optional_text(*source),
                pool: optional_text(*pool),
            },
            Device::Nic { name, network } => DeviceView::Nic { name: name@, network: network@ },
        }
    }
}

/// The views of devices by name.
pub open spec fn devices_view(devices: Seq<(String, Device)>) -> Seq<(Seq<char>, DeviceView)> {
    Seq::new(devices.len(), |i: int| (devices[i].0@, devices[i].1@))
}

impl View for Instance {
    type V = InstanceView;

    open spec fn view(&self) -> InstanceView {
        InstanceView {
            architecture: self.architecture@,
            config: pairs_view(self.config@),
            created_at: self.created_at@,
            description: self.description@,
            devices: devices_view(self.devices@),
            ephemeral: self.ephemeral,
            expanded_config: pairs_view(self.expanded_config@),
            expanded_devices: devices_view(self.expanded_devices@),
            last_used_at: self.last_used_at@,
            location: self.location@,
            name: self.name@,
            profiles: texts_view(self.profiles@),
            project: self.project@,
            stateful: self.stateful,
            status: self.status,
            instance_type: self.instance_type,
        }
    }
}

/// The instance status with the same code as a resource status.
pub open spec fn instance_status(status: ResourceStatus) -> InstanceStatus {
    match status {
        ResourceStatus::OperationCreated => InstanceStatus::OperationCreated,
        ResourceStatus::Started => InstanceStatus::Started,
        ResourceStatus::Stopped => InstanceStatus::Stopped,
        ResourceStatus::Running => InstanceStatus::Running,
        ResourceStatus::Canceling => InstanceStatus::Canceling,
        ResourceStatus::Pending => InstanceStatus::Pending,
        ResourceStatus::Starting => InstanceStatus::Starting,
        ResourceStatus::Stopping => InstanceStatus::Stopping,
        ResourceStatus::Aborting => InstanceStatus::Aborting,
        ResourceStatus::Freezing => InstanceStatus::Freezing,
        ResourceStatus::Frozen => InstanceStatus::Frozen,
        ResourceStatus::Thawed => InstanceStatus::Thawed,
        ResourceStatus::Error => InstanceStatus::Error,
        ResourceStatus::Ready => InstanceStatus::Ready,
        ResourceStatus::Success => InstanceStatus::Success,
        ResourceStatus::Failure => InstanceStatus::Failure,
        ResourceStatus::Canceled => InstanceStatus::Canceled,
    }
}

impl InstanceStatus {
    /// The resource status with the same code.
    pub open spec fn as_resource(self) -> ResourceStatus {
        match self {
            InstanceStatus::OperationCreated => ResourceStatus::OperationCreated,
            InstanceStatus::Started => ResourceStatus::Started,
            InstanceStatus::Stopped => ResourceStatus::Stopped,
            InstanceStatus::Running => ResourceStatus::Running,
            InstanceStatus::Canceling => ResourceStatus::Canceling,
            InstanceStatus::Pending => ResourceStatus::Pending,
            InstanceStatus::Starting => ResourceStatus::Starting,
            InstanceStatus::Stopping => ResourceStatus::Stopping,
            InstanceStatus::Aborting => ResourceStatus::Aborting,
            InstanceStatus::Freezing => ResourceStatus::Freezing,
            InstanceStatus::Frozen => ResourceStatus::Frozen,
            InstanceStatus::Thawed => ResourceStatus::Thawed,
            InstanceStatus::Error => ResourceStatus::Error,
            InstanceStatus::Ready => ResourceStatus::Ready,
            InstanceStatus::Success => ResourceStatus::Success,
            InstanceStatus::Failure => ResourceStatus::Failure,
            InstanceStatus::Canceled => ResourceStatus::Canceled,
        }
    }

    pub fn from_resource(status: ResourceStatus) -> (r: InstanceStatus)
        ensures
            r == instance_status(status),
            r.as_resource() == status,
    {
        match status {
            ResourceStatus::OperationCreated => InstanceStatus::OperationCreated,
            ResourceStatus::Started => InstanceStatus::Started,
            ResourceStatus::Stopped => InstanceStatus::Stopped,
            ResourceStatus::Running => InstanceStatus::Running,
            ResourceStatus::Canceling => InstanceStatus::Canceling,
            ResourceStatus::Pending => InstanceStatus::Pending,
            ResourceStatus::Starting => InstanceStatus::Starting,
            ResourceStatus::Stopping => InstanceStatus::Stopping,
            ResourceStatus::Aborting => InstanceStatus::Aborting,
            ResourceStatus::Freezing => InstanceStatus::Freezing,
            ResourceStatus::Frozen => InstanceStatus::Frozen,
            ResourceStatus::Thawed => InstanceStatus::Thawed,
            ResourceStatus::Error => InstanceStatus::Error,
            ResourceStatus::Ready => InstanceStatus::Ready,
            ResourceStatus::Success => InstanceStatus::Success,
            ResourceStatus::Failure => InstanceStatus::Failure,
            ResourceStatus::Canceled => InstanceStatus::Canceled,
        }
    }

    #[verifier::when_used_as_spec(as_resource)]
    pub fn to_resource(self) -> (r: ResourceStatus)
        ensures
            r == self.as_resource(),
            instance_status(r) == self,
    {
        match self {
            InstanceStatus::OperationCreated => ResourceStatus::OperationCreated,
            InstanceStatus::Started => ResourceStatus::Started,
            InstanceStatus::Stopped => ResourceStatus::Stopped,
            InstanceStatus::Running => ResourceStatus::Running,
            InstanceStatus::Canceling => ResourceStatus::Canceling,
            InstanceStatus::Pending => ResourceStatus::Pending,
            InstanceStatus::Starting => ResourceStatus::Starting,
            InstanceStatus::Stopping => ResourceStatus::Stopping,
            InstanceStatus::Aborting => ResourceStatus::Aborting,
            InstanceStatus::Freezing => ResourceStatus::Freezing,
            InstanceStatus::Frozen => ResourceStatus::Frozen,
            InstanceStatus::Thawed => ResourceStatus::Thawed,
            InstanceStatus::Error => ResourceStatus::Error,
            InstanceStatus::Ready => ResourceStatus::Ready,
            InstanceStatus::Success => ResourceStatus::Success,
            InstanceStatus::Failure => ResourceStatus::Failure,
            InstanceStatus::Canceled => ResourceStatus::Canceled,
        }
    }

    /// The code that stands for this status on the wire.
    pub fn code(self) -> (c: u16)
        ensures
            c == self.as_resource().wire_code(),
    {
        self.to_resource().code()
    }
}

/// The instance type that a word on the wire stands for.
pub open spec fn instance_type_of(word: Seq<char>) -> Option<InstanceType> {
    if word == "container"@ {
        Some(InstanceType::Container)
    } else if word == "virtual-machine"@ {
        Some(InstanceType::VirtualMachine)
    } else {
        None
    }
}

/// The member `type` of an instance.
pub open spec fn required_instance_type(json: JsonView) -> Result<InstanceType, DecodeError> {
    match required_text(json, "type"@) {
        Ok(word) => match instance_type_of(word) {
            Some(instance_type) => Ok(instance_type),
            None => Err(DecodeError::SchemaMismatch),
        },
        Err(e) => Err(e),
    }
}

/// The member `status_code` of an instance.
pub open spec fn required_instance_status(json: JsonView) -> Result<InstanceStatus, DecodeError> {
    match required_status(json, "status_code"@) {
        Ok(status) => Ok(instance_status(status)),
        Err(e) => Err(e),
    }
}

/// The device that a document stands for. The member `type` says which kind
/// it is, and with that which members are read; others are ignored.
pub open spec fn device_of(json: JsonView) -> Result<DeviceView, DecodeError> {
    match required_text(json, "type"@) {
        Ok(word) => if word == "disk"@ {
            let path = required_text(json, "path"@);
            let source = optional_text_member(json, "source"@);
            let pool = optional_text_member(json, "pool"@);
            if path is Err {
                Err(path->Err_0)
            } else if source is Err {
                Err(source->Err_0)
            } else if pool is Err {
                Err(pool->Err_0)
            } else {
                Ok(DeviceView::Disk { path: path->Ok_0, source: source->Ok_0, pool: pool->Ok_0 })
            }
        } else if word == "nic"@ {
            let name = required_text(json, "name"@);
            let network = required_text(json, "network"@);
            if name is Err {
                Err(name->Err_0)
            } else if network is Err {
                Err(network->Err_0)
            } else {
                Ok(DeviceView::Nic { name: name->Ok_0, network: network->Ok_0 })
            }
        } else {
            Err(DecodeError::SchemaMismatch)
        },
        Err(e) => Err(e),
    }
}

/// The devices by name that an object stands for: one for each member, in
/// the order of the members. An object in which a name occurs twice stands for
/// no such map.
pub open spec fn devices_of(json: JsonView) -> Result<Seq<(Seq<char>, DeviceView)>, DecodeError> {
    match json {
        JsonView::Object(members) => if distinct_keys(members) && forall|i: int|
            0 <= i < members.len() ==> device_of(#[trigger] members[i].1) is Ok {
            Ok(Seq::new(members.len(), |i: int| (members[i].0, device_of(members[i].1)->Ok_0)))
        } else {
            Err(DecodeError::SchemaMismatch)
        },
        _ => Err(DecodeError::SchemaMismatch),
    }
}

/// Devices that were read have no name twice.
pub proof fn lemma_devices_are_a_map(json: JsonView)
    ensures
        devices_of(json) matches Ok(devices) ==> distinct_keys(devices),
{
    if let Ok(devices) = devices_of(json) {
        assert(keys_of(devices) =~= keys_of(json->Object_0));
    }
}

/// The member `key`, which must be an object of devices.
pub open spec fn required_devices(json: JsonView, key: Seq<char>) -> Result<
    Seq<(Seq<char>, DeviceView)>,
    DecodeError,
> {
    match member(json, key) {
        Some(value) => devices_of(value),
        None => Err(DecodeError::SchemaMismatch),
    }
}

/// The instance that a document stands for. Every member that the schema names
/// is required; others are ignored. Where several members are at fault, the
/// first in the order below decides the error.
pub open spec fn instance_of(json: JsonView) -> Result<InstanceView, DecodeError> {
    let architecture = required_text(json, "architecture"@);
    let config = required_text_pairs(json, "config"@);
    let created_at = required_timestamp(json, "created_at"@);
    let description = required_text(json, "description"@);
    let devices = required_devices(json, "devices"@);
    let ephemeral = required_bool(json, "ephemeral"@);
    let expanded_config = required_text_pairs(json, "expanded_config"@);
    let expanded_devices = required_devices(json, "expanded_devices"@);
    let last_used_at = required_timestamp(json, "last_used_at"@);
    let location = required_text(json, "location"@);
    let name = required_text(json, "name"@);
    let profiles = required_texts(json, "profiles"@);
    let project = required_text(json, "project"@);
    let stateful = required_bool(json, "stateful"@);
    let status = required_instance_status(json);
    let instance_type = required_instance_type(json);
    if architecture is Err {
        Err(architecture->Err_0)
    } else if config is Err {
        Err(config->Err_0)
    } else if created_at is Err {
        Err(created_at->Err_0)
    } else if description is Err {
        Err(description->Err_0)
    } else if devices is Err {
        Err(devices->Err_0)
    } else if ephemeral is Err {
        Err(ephemeral->Err_0)
    } else if expanded_config is Err {
        Err(expanded_config->Err_0)
    } else if expanded_devices is Err {
        Err(expanded_devices->Err_0)
    } else if last_used_at is Err {
        Err(last_used_at->Err_0)
    } else if location is Err {
        Err(location->Err_0)
    } else if name is Err {
        Err(name->Err_0)
    } else if profiles is Err {
        Err(profiles->Err_0)
    } else if project is Err {
        Err(project->Err_0)
    } else if stateful is Err {
        Err(stateful->Err_0)
    } else if status is Err {
        Err(status->Err_0)
    } else if instance_type is Err {
        Err(instance_type->Err_0)
    } else {
        Ok(
            InstanceView {
                architecture: architecture->Ok_0,
                config: config->Ok_0,
                created_at: created_at->Ok_0,
                description: description->Ok_0,
                devices: devices->Ok_0,
                ephemeral: ephemeral->Ok_0,
                expanded_config: expanded_config->Ok_0,
                expanded_devices: expanded_devices->Ok_0,
                last_used_at: last_used_at->Ok_0,
                location: location->Ok_0,
                name: name->Ok_0,
                profiles: profiles->Ok_0,
                project: project->Ok_0,
                stateful: stateful->Ok_0,
                status: status->Ok_0,
                instance_type: instance_type->Ok_0,
            },
        )
    }
}

impl InstanceType {
    /// The word for the type on the wire.
    pub open spec fn word(self) -> Seq<char> {
        match self {
            InstanceType::Container => "container"@,
            InstanceType::VirtualMachine => "virtual-machine"@,
        }
    }

    pub fn as_str(&self) -> (r: &'static str)
        ensures
            r@ == self.word(),
    {
        match self {
            InstanceType::Container => "container",
            InstanceType::VirtualMachine => "virtual-machine",
        }
    }

    /// Reads the member `type` of an instance.
    pub fn at(json: &Json) -> (r: Result<InstanceType, DecodeError>)
        ensures
            r == required_instance_type(json@),
    {
        match text_at(json, "type") {
            Ok(word) => {
                if text_is(&word, "container") {
                    Ok(InstanceType::Container)
                } else if text_is(&word, "virtual-machine") {
                    Ok(InstanceType::VirtualMachine)
                } else {
                    Err(DecodeError::SchemaMismatch)
                }
            },
            Err(e) => Err(e),
        }
    }
}

impl Device {
    /// Reads a device.
    pub fn decode(json: &Json) -> (r: Result<Device, DecodeError>)
        ensures
            match r {
                Ok(device) => device_of(json@) == Ok::<DeviceView, DecodeError>(device@),
                Err(e) => device_of(json@) == Err::<DeviceView, DecodeError>(e),
            },
    {
        let word = match text_at(json, "type") {
            Ok(v) => v,
            Err(e) => return Err(e),
        };
        if text_is(&word, "disk") {
            let path = match text_at(json, "path") {
                Ok(v) => v,
                Err(e) => return Err(e),
            };
            let source = match optional_text_at(json, "source") {
                Ok(v) => v,
                Err(e) => return Err(e),
            };
            let pool = match optional_text_at(json, "pool") {
                Ok(v) => v,
                Err(e) => return Err(e),
            };
            Ok(Device::Disk { path, source, pool })
        } else if text_is(&word, "nic") {
            let name = match text_at(json, "name") {
                Ok(v) => v,
                Err(e) => return Err(e),
            };
            let network = match text_at(json, "network") {
                Ok(v) => v,
                Err(e) => return Err(e),
            };
            Ok(Device::Nic { name, network })
        } else {
            Err(DecodeError::SchemaMismatch)
        }
    }

    /// Reads the devices of an object by name. What comes back has no name
    /// twice: an object that has is refused.
    pub fn decode_all(json: &Json) -> (r: Result<Vec<(String, Device)>, DecodeError>)
        ensures
            match r {
                Ok(devices) => devices_of(json@) == Ok::<
                    Seq<(Seq<char>, DeviceView)>,
                    DecodeError,
                >(devices_view(devices@)) && distinct_keys(devices_view(devices@)),
                Err(e) => devices_of(json@) == Err::<Seq<(Seq<char>, DeviceView)>, DecodeError>(e),
            },
    {
        match json.as_members() {
            None => Err(DecodeError::SchemaMismatch),
            Some(members) => {
                let ghost all = members_view(members@);
                if !keys_are_distinct(members) {
                    return Err(DecodeError::SchemaMismatch);
                }
                let mut devices: Vec<(String, Device)> = Vec::new();
                let mut i: usize = 0;
                while i < members.len()
                    invariant
                        i <= members.len(),
                        all == members_view(members@),
                        json@ == JsonView::Object(all),
                        devices.len() == i,
                        forall|k: int|
                            0 <= k < i ==> all[k].0 == (#[trigger] devices[k]).0@ && device_of(
                                all[k].1,
                            ) == Ok::<DeviceView, DecodeError>(devices[k].1@),
                    decreases members.len() - i,
                {
                    match Device::decode(&members[i].1) {
                        Ok(device) => {
                            devices.push((members[i].0.clone(), device));
                        },
                        Err(_) => {
                            assert(!(device_of(all[i as int].1) is Ok));
                            return Err(DecodeError::SchemaMismatch);
                        },
                    }
                    i += 1;
                }
                proof {
                    assert forall|k: int| 0 <= k < all.len() implies device_of(
                        #[trigger] all[k].1,
                    ) is Ok by {
                        assert(all[k].0 == devices[k].0@);
                    }
                    assert(devices_of(json@)->Ok_0 =~= devices_view(devices@));
                    lemma_devices_are_a_map(json@);
                }
                Ok(devices)
            },
        }
    }

    /// Reads the member `key`, which must be an object of devices.
    pub fn all_at(json: &Json, key: &str) -> (r: Result<Vec<(String, Device)>, DecodeError>)
        ensures
            match r {
                Ok(devices) => required_devices(json@, key@) == Ok::<
                    Seq<(Seq<char>, DeviceView)>,
                    DecodeError,
                >(devices_view(devices@)) && distinct_keys(devices_view(devices@)),
                Err(e) => required_devices(json@, key@) == Err::<
                    Seq<(Seq<char>, DeviceView)>,
                    DecodeError,
                >(e),
            },
    {
        match json.get(key) {
            Some(value) => Device::decode_all(value),
            None => Err(DecodeError::SchemaMismatch),
        }
    }
}

impl Resource for Instance {
    open spec fn well_formed(value: InstanceView) -> bool {
        instance_well_formed(value)
    }

    open spec fn decoded(json: JsonView) -> Result<InstanceView, DecodeError> {
        instance_of(json)
    }

    proof fn lemma_read_is_well_formed(json: JsonView) {
        lemma_read_instance_is_well_formed(json);
    }

    fn decode(json: &Json) -> (r: Result<Self, DecodeError>) {
        let architecture = match text_at(json, "architecture") {
            Ok(v) => v,
            Err(e) => return Err(e),
        };
        let config = match text_pairs_at(json, "config") {
            Ok(v) => v,
            Err(e) => return Err(e),
        };
        let created_at = match timestamp_at(json, "created_at") {
            Ok(v) => v,
            Err(e) => return Err(e),
        };
        let description = match text_at(json, "description") {
            Ok(v) => v,
            Err(e) => return Err(e),
        };
        let devices = match Device::all_at(json, "devices") {
            Ok(v) => v,
            Err(e) => return Err(e),
        };
        let ephemeral = match bool_at(json, "ephemeral") {
            Ok(v) => v,
            Err(e) => return Err(e),
        };
        let expanded_config = match text_pairs_at(json, "expanded_config") {
            Ok(v) => v,
            Err(e) => return Err(e),
        };
        let expanded_devices = match Device::all_at(json, "expanded_devices") {
            Ok(v) => v,
            Err(e) => return Err(e),
        };
        let last_used_at = match timestamp_at(json, "last_used_at") {
            Ok(v) => v,
            Err(e) => return Err(e),
        };
        let location = match text_at(json, "location") {
            Ok(v) => v,
            Err(e) => return Err(e),
        };
        let name = match text_at(json, "name") {
            Ok(v) => v,
            Err(e) => return Err(e),
        };
        let profiles = match texts_at(json, "profiles") {
            Ok(v) => v,
            Err(e) => return Err(e),
        };
        let project = match text_at(json, "project") {
            Ok(v) => v,
            Err(e) => return Err(e),
        };
        let stateful = match bool_at(json, "stateful") {
            Ok(v) => v,
            Err(e) => return Err(e),
        };
        let status = match status_at(json, "status_code") {
            Ok(v) => InstanceStatus::from_resource(v),
            Err(e) => return Err(e),
        };
        let instance_type = match InstanceType::at(json) {
            Ok(v) => v,
            Err(e) => return Err(e),
        };
        proof {
            lemma_read_instance_is_well_formed(json@);
        }
        Ok(
            Instance {
                architecture,
                config,
                created_at,
                description,
                devices,
                ephemeral,
                expanded_config,
                expanded_devices,
                last_used_at,
                location,
                name,
                profiles,
                project,
                stateful,
                status,
                instance_type,
            },
        )
    }
}

/// What a new instance is made from. Each kind has its own members, and a
/// request carries those of one kind only.
#[derive(Clone, Debug, PartialEq, Eq)]
pub enum InstanceSource {
    /// An empty instance.
    Empty,
    /// An image that the daemon holds, by alias.
    Image { alias: String },
    /// An image on another server.
    RemoteImage {
        alias: String,
        server: String,
        protocol: RemoteImageProtocol,
        secret: Option<String>,
    },
    /// A copy of the instance `source`.
    Copy { source: String, refresh: bool },
    /// An instance that another daemon hands over through `operation`.
    Migration { operation: String, certificate: String },
}

/// What the daemon is asked to create.
#[derive(Clone, Debug, PartialEq, Eq)]
pub struct NewInstance {
    /// The name of the instance; empty to let the daemon pick one.
    pub name: String,
    pub instance_type: InstanceType,
    pub source: InstanceSource,
}

pub ghost enum InstanceSourceView {
    Empty,
    Image { alias: Seq<char> },
    RemoteImage {
        alias: Seq<char>,
        server: Seq<char>,
        protocol: RemoteImageProtocol,
        secret: Option<Seq<char>>,
    },
    Copy { source: Seq<char>, refresh: bool },
    Migration { operation: Seq<char>, certificate: Seq<char> },
}

pub ghost struct NewInstanceView {
    pub name: Seq<char>,
    pub instance_type: InstanceType,
    pub source: InstanceSourceView,
}

impl View for InstanceSource {
    type V = InstanceSourceView;

    open spec fn view(&self) -> InstanceSourceView {
        match self {
            InstanceSource::Empty => InstanceSourceView::Empty,
            InstanceSource::Image { alias } => InstanceSourceView::Image { alias: alias@ },
            InstanceSource::RemoteImage {
                alias,
                server,
                protocol,
                secret,
            } => InstanceSourceView::RemoteImage {
                alias: alias@,
                server: server@,
                protocol: *protocol,
                secret: optional_text(*secret),
            },
            InstanceSource::Copy { source, refresh } => InstanceSourceView::Copy {
                source: source@,
                refresh: *refresh,
            },
            InstanceSource::Migration { operation, certificate } => InstanceSourceView::Migration {
                operation: operation@,
                certificate: certificate@,
            },
        }
    }
}

impl View for NewInstance {
    type V = NewInstanceView;

    open spec fn view(&self) -> NewInstanceView {
        NewInstanceView {
            name: self.name@,
            instance_type: self.instance_type,
            source: self.source@,
        }
    }
}

/// The `type` of a source on the wire. Both kinds of image are an `image`.
pub open spec fn source_word(source: InstanceSourceView) -> Seq<char> {
    match source {
        InstanceSourceView::Empty => "none"@,
        InstanceSourceView::Image { .. } => "image"@,
        InstanceSourceView::RemoteImage { .. } => "image"@,
        InstanceSourceView::Copy { .. } => "copy"@,
        InstanceSourceView::Migration { .. } => "migration"@,
    }
}

/// The members that follow `type` in the document for a source.
pub open spec fn source_details(source: InstanceSourceView) -> Seq<(Seq<char>, JsonView)> {
    match source {
        InstanceSourceView::Empty => seq![],
        InstanceSourceView::Image { alias } => seq![("alias"@, JsonView::Text(alias))],
        InstanceSourceView::RemoteImage { alias, server, protocol, secret } => {
            let always = seq![
                ("alias"@, JsonView::Text(alias)),
                ("server"@, JsonView::Text(server)),
                ("protocol"@, JsonView::Text(protocol.word())),
            ];
            match secret {
                Some(text) => always.push(("secret"@, JsonView::Text(text))),
                None => always,
            }
        },
        InstanceSourceView::Copy { source, refresh } => seq![
            ("source"@, JsonView::Text(source)),
            ("refresh"@, JsonView::Bool(refresh)),
        ],
        InstanceSourceView::Migration { operation, certificate } => seq![
            ("mode"@, JsonView::Text("pull"@)),
            ("operation"@, JsonView::Text(operation)),
            ("certificate"@, JsonView::Text(certificate)),
        ],
    }
}

/// The document for a source: `type` first, then the members of its kind.
pub open spec fn source_json(source: InstanceSourceView) -> JsonView {
    JsonView::Object(seq![("type"@, JsonView::Text(source_word(source)))] + source_details(source))
}

/// The body of the request that creates an instance.
pub open spec fn new_instance_json(instance: NewInstanceView) -> JsonView {
    JsonView::Object(
        seq![
            ("name"@, JsonView::Text(instance.name)),
            ("type"@, JsonView::Text(instance.instance_type.word())),
            ("source"@, source_json(instance.source)),
        ],
    )
}

impl InstanceSource {
    /// Writes the source as a document.
    pub fn encode(&self) -> (r: Json)
        ensures
            r@ == source_json(self@),
    {
        let mut members: Vec<(String, Json)> = Vec::new();
        assert(members_view(members@) =~= seq![]);
        match self {
            InstanceSource::Empty => {
                put(&mut members, "type", Json::text("none"));
            },
            InstanceSource::Image { alias } => {
                put(&mut members, "type", Json::text("image"));
                put(&mut members, "alias", Json::text(alias.as_str()));
            },
            InstanceSource::RemoteImage { alias, server, protocol, secret } => {
                put(&mut members, "type", Json::text("image"));
                put(&mut members, "alias", Json::text(alias.as_str()));
                put(&mut members, "server", Json::text(server.as_str()));
                put(&mut members, "protocol", Json::text(protocol.as_str()));
                match secret {
                    Some(text) => {
                        put(&mut members, "secret", Json::text(text.as_str()));
                    },
                    None => {},
                }
            },
            InstanceSource::Copy { source, refresh } => {
                put(&mut members, "type", Json::text("copy"));
                put(&mut members, "source", Json::text(source.as_str()));
                put(&mut members, "refresh", Json::Bool(*refresh));
            },
            InstanceSource::Migration { operation, certificate } => {
                put(&mut members, "type", Json::text("migration"));
                put(&mut members, "mode", Json::text("pull"));
                put(&mut members, "operation", Json::text(operation.as_str()));
                put(&mut members, "certificate", Json::text(certificate.as_str()));
            },
        }
        assert(members_view(members@) =~= source_json(self@)->Object_0);
        Json::object(members)
    }
}

impl NewInstance {
    /// A container made from the image that the daemon holds under `alias`,
    /// with a name of the daemon's choosing.
    pub fn default_with_image(alias: String) -> (r: NewInstance)
        ensures
            r@ == (NewInstanceView {
                name: Seq::empty(),
                instance_type: InstanceType::Container,
                source: InstanceSourceView::Image { alias: alias@ },
            }),
    {
        NewInstance {
            name: String::new(),
            instance_type: InstanceType::Container,
            source: InstanceSource::Image { alias },
        }
    }

    /// Writes the body of the request that creates the instance.
    pub fn encode(&self) -> (r: Json)
        ensures
            r@ == new_instance_json(self@),
    {
        let mut members: Vec<(String, Json)> = Vec::new();
        assert(members_view(members@) =~= seq![]);
        put(&mut members, "name", Json::text(self.name.as_str()));
        put(&mut members, "type", Json::text(self.instance_type.as_str()));
        put(&mut members, "source", self.source.encode());
        assert(members_view(members@) =~= new_instance_json(self@)->Object_0);
        Json::object(members)
    }
}

/// The document for a source names the kind of the source under `type`, and
/// the document for an image that the daemon holds names the image under
/// `alias`.
pub proof fn lemma_source_members(source: InstanceSourceView)
    ensures
        member(source_json(source), "type"@) == Some(JsonView::Text(source_word(source))),
        source matches InstanceSourceView::Image { alias } ==> member(
            source_json(source),
            "alias"@,
        ) == Some(JsonView::Text(alias)),
        source is Image || source is RemoteImage <==> source_word(source) == "image"@,
{
    reveal_strlit("type");
    reveal_strlit("alias");
    reveal_strlit("none");
    reveal_strlit("image");
    reveal_strlit("copy");
    reveal_strlit("migration");
    let members = source_json(source)->Object_0;
    assert(members[0] == ("type"@, JsonView::Text(source_word(source))));
    lemma_find_at(members, "type"@, 0);
    if source is Image {
        assert(members[1].0 == "alias"@);
        assert("type"@ != "alias"@) by {
            assert("type"@.len() != "alias"@.len());
        }
        lemma_find_at(members, "alias"@, 1);
    }
    assert("none"@.len() != "image"@.len());
    assert("copy"@.len() != "image"@.len());
    assert("migration"@.len() != "image"@.len());
}

/// The body of a creation request carries the source under `source`.
pub proof fn lemma_new_instance_source(instance: NewInstanceView)
    ensures
        member(new_instance_json(instance), "source"@) == Some(source_json(instance.source)),
{
    reveal_strlit("name");
    reveal_strlit("type");
    reveal_strlit("source");
    let members = new_instance_json(instance)->Object_0;
    assert(members[2].0 == "source"@);
    assert("name"@.len() != "source"@.len());
    assert("type"@.len() != "source"@.len());
    lemma_find_at(members, "source"@, 2);
}

/// The member for a string that may be left out: none where it is.
pub open spec fn optional_member(key: Seq<char>, value: Option<Seq<char>>) -> Seq<
    (Seq<char>, JsonView),
> {
    match value {
        Some(text) => seq![(key, JsonView::Text(text))],
        None => seq![],
    }
}

/// The document that stands for a device.
pub open spec fn device_json(device: DeviceView) -> JsonView {
    match device {
        DeviceView::Disk { path, source, pool } => JsonView::Object(
            seq![("type"@, JsonView::Text("disk"@)), ("path"@, JsonView::Text(path))]
                + optional_member("source"@, source) + optional_member("pool"@, pool),
        ),
        DeviceView::Nic { name, network } => JsonView::Object(
            seq![
                ("type"@, JsonView::Text("nic"@)),
                ("name"@, JsonView::Text(name)),
                ("network"@, JsonView::Text(network)),
            ],
        ),
    }
}

/// The object that stands for devices by name.
pub open spec fn devices_json(devices: Seq<(Seq<char>, DeviceView)>) -> JsonView {
    JsonView::Object(Seq::new(devices.len(), |i: int| (devices[i].0, device_json(devices[i].1))))
}

/// The document that stands for an instance.
pub open spec fn instance_json(instance: InstanceView) -> JsonView {
    JsonView::Object(
        seq![
            ("architecture"@, JsonView::Text(instance.architecture)),
            ("config"@, pairs_json(instance.config)),
            ("created_at"@, JsonView::Text(instance.created_at.text)),
            ("description"@, JsonView::Text(instance.description)),
            ("devices"@, devices_json(instance.devices)),
            ("ephemeral"@, JsonView::Bool(instance.ephemeral)),
            ("expanded_config"@, pairs_json(instance.expanded_config)),
            ("expanded_devices"@, devices_json(instance.expanded_devices)),
            ("last_used_at"@, JsonView::Text(instance.last_used_at.text)),
            ("location"@, JsonView::Text(instance.location)),
            ("name"@, JsonView::Text(instance.name)),
            ("profiles"@, texts_json(instance.profiles)),
            ("project"@, JsonView::Text(instance.project)),
            ("stateful"@, JsonView::Bool(instance.stateful)),
            (
                "status_code"@,
                JsonView::Number(
                    NumberView::Unsigned(instance.status.as_resource().wire_code() as u64),
                ),
            ),
            ("type"@, JsonView::Text(instance.instance_type.word())),
        ],
    )
}

/// Whether an instance is well formed: its two timestamps hold the instants
/// that their texts denote, and its four maps have no key twice.
pub open spec fn instance_well_formed(instance: InstanceView) -> bool {
    &&& Timestamp::consistent(instance.created_at)
    &&& Timestamp::consistent(instance.last_used_at)
    &&& distinct_keys(instance.config)
    &&& distinct_keys(instance.devices)
    &&& distinct_keys(instance.expanded_config)
    &&& distinct_keys(instance.expanded_devices)
}

/// An instance that was read is well formed.
pub proof fn lemma_read_instance_is_well_formed(json: JsonView)
    ensures
        instance_of(json) matches Ok(instance) ==> instance_well_formed(instance),
{
    if instance_of(json) is Ok {
        lemma_text_pairs_are_a_map(member(json, "config"@)->Some_0);
        lemma_text_pairs_are_a_map(member(json, "expanded_config"@)->Some_0);
        lemma_devices_are_a_map(member(json, "devices"@)->Some_0);
        lemma_devices_are_a_map(member(json, "expanded_devices"@)->Some_0);
    }
}

/// Reading the document written for a device gives the device back.
pub proof fn lemma_device_round_trip(device: DeviceView)
    ensures
        device_of(device_json(device)) == Ok::<DeviceView, DecodeError>(device),
{
    reveal_strlit("type");
    reveal_strlit("path");
    reveal_strlit("source");
    reveal_strlit("pool");
    reveal_strlit("name");
    reveal_strlit("network");
    reveal_strlit("disk");
    reveal_strlit("nic");
    assert("type"@.len() == 4 && "type"@[0] == 't');
    assert("path"@.len() == 4 && "path"@[0] == 'p' && "path"@[1] == 'a');
    assert("pool"@.len() == 4 && "pool"@[0] == 'p' && "pool"@[1] == 'o');
    assert("name"@.len() == 4 && "name"@[0] == 'n');
    assert("source"@.len() == 6 && "network"@.len() == 7);
    assert("disk"@.len() == 4 && "nic"@.len() == 3);
    let json = device_json(device);
    let members = json->Object_0;
    lemma_find_at(members, "type"@, 0);
    match device {
        DeviceView::Disk { path, source, pool } => {
            lemma_find_at(members, "path"@, 1);
            if source is Some {
                lemma_find_at(members, "source"@, 2);
                if pool is Some {
                    lemma_find_at(members, "pool"@, 3);
                } else {
                    lemma_find_none(members, "pool"@);
                }
            } else {
                lemma_find_none(members, "source"@);
                if pool is Some {
                    lemma_find_at(members, "pool"@, 2);
                } else {
                    lemma_find_none(members, "pool"@);
                }
            }
            assert(optional_text_member(json, "source"@) == Ok::<Option<Seq<char>>, DecodeError>(
                source,
            ));
            assert(optional_text_member(json, "pool"@) == Ok::<Option<Seq<char>>, DecodeError>(
                pool,
            ));
        },
        DeviceView::Nic { name, network } => {
            lemma_find_at(members, "name"@, 1);
            lemma_find_at(members, "network"@, 2);
        },
    }
}

/// Reading the object written for devices by name gives them back.
pub proof fn lemma_devices_round_trip(devices: Seq<(Seq<char>, DeviceView)>)
    requires
        distinct_keys(devices),
    ensures
        devices_of(devices_json(devices)) == Ok::<Seq<(Seq<char>, DeviceView)>, DecodeError>(
            devices,
        ),
{
    let members = devices_json(devices)->Object_0;
    assert forall|i: int| 0 <= i < members.len() implies device_of(#[trigger] members[i].1)
        == Ok::<DeviceView, DecodeError>(devices[i].1) by {
        lemma_device_round_trip(devices[i].1);
    }
    assert(keys_of(members) =~= keys_of(devices));
    assert(devices_of(devices_json(devices))->Ok_0 =~= devices);
}

/// Each member of the document written for an instance is found under its name.
pub proof fn lemma_instance_members(instance: InstanceView)
    ensures
        ({
            let json = instance_json(instance);
            &&& member(json, "architecture"@) == Some(JsonView::Text(instance.architecture))
            &&& member(json, "config"@) == Some(pairs_json(instance.config))
            &&& member(json, "created_at"@) == Some(JsonView::Text(instance.created_at.text))
            &&& member(json, "description"@) == Some(JsonView::Text(instance.description))
            &&& member(json, "devices"@) == Some(devices_json(instance.devices))
            &&& member(json, "ephemeral"@) == Some(JsonView::Bool(instance.ephemeral))
            &&& member(json, "expanded_config"@) == Some(pairs_json(instance.expanded_config))
            &&& member(json, "expanded_devices"@) == Some(devices_json(instance.expanded_devices))
            &&& member(json, "last_used_at"@) == Some(JsonView::Text(instance.last_used_at.text))
            &&& member(json, "location"@) == Some(JsonView::Text(instance.location))
            &&& member(json, "name"@) == Some(JsonView::Text(instance.name))
            &&& member(json, "profiles"@) == Some(texts_json(instance.profiles))
            &&& member(json, "project"@) == Some(JsonView::Text(instance.project))
            &&& member(json, "stateful"@) == Some(JsonView::Bool(instance.stateful))
            &&& member(json, "status_code"@) == Some(
                JsonView::Number(
                    NumberView::Unsigned(instance.status.as_resource().wire_code() as u64),
                ),
            )
            &&& member(json, "type"@) == Some(JsonView::Text(instance.instance_type.word()))
        }),
{
    reveal_strlit("architecture");
    reveal_strlit("config");
    reveal_strlit("created_at");
    reveal_strlit("description");
    reveal_strlit("devices");
    reveal_strlit("ephemeral");
    reveal_strlit("expanded_config");
    reveal_strlit("expanded_devices");
    reveal_strlit("last_used_at");
    reveal_strlit("location");
    reveal_strlit("name");
    reveal_strlit("profiles");
    reveal_strlit("project");
    reveal_strlit("stateful");
    reveal_strlit("status_code");
    reveal_strlit("type");
    assert("config"@.len() == 6 && "created_at"@.len() == 10 && "ephemeral"@.len() == 9);
    assert("expanded_config"@.len() == 15 && "expanded_devices"@.len() == 16);
    assert("architecture"@.len() == 12 && "architecture"@[0] == 'a');
    assert("last_used_at"@.len() == 12 && "last_used_at"@[0] == 'l');
    assert("description"@.len() == 11 && "description"@[0] == 'd');
    assert("status_code"@.len() == 11 && "status_code"@[0] == 's');
    assert("devices"@.len() == 7 && "devices"@[0] == 'd');
    assert("project"@.len() == 7 && "project"@[0] == 'p');
    assert("location"@.len() == 8 && "location"@[0] == 'l');
    assert("profiles"@.len() == 8 && "profiles"@[0] == 'p');
    assert("stateful"@.len() == 8 && "stateful"@[0] == 's');
    assert("name"@.len() == 4 && "name"@[0] == 'n');
    assert("type"@.len() == 4 && "type"@[0] == 't');
    let members = instance_json(instance)->Object_0;
    lemma_find_at(members, "architecture"@, 0);
    lemma_find_at(members, "config"@, 1);
    lemma_find_at(members, "created_at"@, 2);
    lemma_find_at(members, "description"@, 3);
    lemma_find_at(members, "devices"@, 4);
    lemma_find_at(members, "ephemeral"@, 5);
    lemma_find_at(members, "expanded_config"@, 6);
    lemma_find_at(members, "expanded_devices"@, 7);
    lemma_find_at(members, "last_used_at"@, 8);
    lemma_find_at(members, "location"@, 9);
    lemma_find_at(members, "name"@, 10);
    lemma_find_at(members, "profiles"@, 11);
    lemma_find_at(members, "project"@, 12);
    lemma_find_at(members, "stateful"@, 13);
    lemma_find_at(members, "status_code"@, 14);
    lemma_find_at(members, "type"@, 15);
}

/// Reading the document written for an instance gives the instance back.
pub proof fn lemma_instance_round_trip(instance: InstanceView)
    requires
        instance_well_formed(instance),
    ensures
        instance_of(instance_json(instance)) == Ok::<InstanceView, DecodeError>(instance),
{
    let json = instance_json(instance);
    lemma_instance_members(instance);
    lemma_pairs_round_trip(instance.config);
    lemma_pairs_round_trip(instance.expanded_config);
    lemma_devices_round_trip(instance.devices);
    lemma_devices_round_trip(instance.expanded_devices);
    lemma_texts_round_trip(instance.profiles);
    lemma_code_round_trip(instance.status.as_resource());
    reveal_strlit("container");
    reveal_strlit("virtual-machine");
    assert("container"@.len() == 9 && "virtual-machine"@.len() == 15);
    assert(required_instance_type(json) == Ok::<InstanceType, DecodeError>(
        instance.instance_type,
    ));
    assert(required_instance_status(json) == Ok::<InstanceStatus, DecodeError>(instance.status));
    assert(required_timestamp(json, "created_at"@) == Ok::<TimestampView, DecodeError>(
        instance.created_at,
    ));
    assert(required_timestamp(json, "last_used_at"@) == Ok::<TimestampView, DecodeError>(
        instance.last_used_at,
    ));
    assert(required_devices(json, "devices"@) == Ok::<Seq<(Seq<char>, DeviceView)>, DecodeError>(
        instance.devices,
    ));
    assert(required_devices(json, "expanded_devices"@) == Ok::<
        Seq<(Seq<char>, DeviceView)>,
        DecodeError,
    >(instance.expanded_devices));
}

impl Device {
    /// Writes the device as a document.
    pub fn encode(&self) -> (r: Json)
        ensures
            r@ == device_json(self@),
    {
        let mut members: Vec<(String, Json)> = Vec::new();
        assert(members_view(members@) =~= seq![]);
        match self {
            Device::Disk { path, source, pool } => {
                put(&mut members, "type", Json::text("disk"));
                put(&mut members, "path", Json::text(path.as_str()));
                match source {
                    Some(text) => {
                        put(&mut members, "source", Json::text(text.as_str()));
                    },
                    None => {},
                }
                match pool {
                    Some(text) => {
                        put(&mut members, "pool", Json::text(text.as_str()));
                    },
                    None => {},
                }
            },
            Device::Nic { name, network } => {
                put(&mut members, "type", Json::text("nic"));
                put(&mut members, "name", Json::text(name.as_str()));
                put(&mut members, "network", Json::text(network.as_str()));
            },
        }
        assert(members_view(members@) =~= device_json(self@)->Object_0);
        Json::object(members)
    }

    /// Writes devices by name as an object.
    pub fn encode_all(devices: &Vec<(String, Device)>) -> (r: Json)
        ensures
            r@ == devices_json(devices_view(devices@)),
    {
        let mut members: Vec<(String, Json)> = Vec::new();
        let mut i: usize = 0;
        while i < devices.len()
            invariant
                i <= devices.len(),
                members.len() == i,
                forall|k: int|
                    0 <= k < i ==> (#[trigger] members[k]).0@ == devices[k].0@ && members[k].1@
                        == device_json(devices[k].1@),
            decreases devices.len() - i,
        {
            members.push((devices[i].0.clone(), devices[i].1.encode()));
            i += 1;
        }
        assert(members_view(members@) =~= devices_json(devices_view(devices@))->Object_0);
        Json::object(members)
    }
}

impl Wire for Instance {
    open spec fn encoded(value: InstanceView) -> JsonView {
        instance_json(value)
    }

    fn encode(&self) -> (r: Json) {
        let mut members: Vec<(String, Json)> = Vec::new();
        assert(members_view(members@) =~= seq![]);
        put(&mut members, "architecture", Json::text(self.architecture.as_str()));
        put(&mut members, "config", pairs_to_json(&self.config));
        put(&mut members, "created_at", Json::text(self.created_at.text.as_str()));
        put(&mut members, "description", Json::text(self.description.as_str()));
        put(&mut members, "devices", Device::encode_all(&self.devices));
        put(&mut members, "ephemeral", Json::Bool(self.ephemeral));
        put(&mut members, "expanded_config", pairs_to_json(&self.expanded_config));
        put(&mut members, "expanded_devices", Device::encode_all(&self.expanded_devices));
        put(&mut members, "last_used_at", Json::text(self.last_used_at.text.as_str()));
        put(&mut members, "location", Json::text(self.location.as_str()));
        put(&mut members, "name", Json::text(self.name.as_str()));
        put(&mut members, "profiles", texts_to_json(&self.profiles));
        put(&mut members, "project", Json::text(self.project.as_str()));
        put(&mut members, "stateful", Json::Bool(self.stateful));
        put(&mut members, "status_code", Json::unsigned(self.status.code() as u64));
        put(&mut members, "type", Json::text(self.instance_type.as_str()));
        assert(members_view(members@) =~= instance_json(self@)->Object_0);
        Json::object(members)
    }

    proof fn lemma_round_trip(value: InstanceView) {
        lemma_instance_round_trip(value);
    }
}

} // verus!
