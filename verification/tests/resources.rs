use nlxd::error::DecodeError;
use nlxd::fields::{keys_are_distinct, text_pairs};
use nlxd::images::{Alias, Arch, Bytes, Image, ImageSource, ImageType, RemoteImageProtocol};
use nlxd::instance::{Device, Instance, InstanceStatus, InstanceType};
use nlxd::json::Json;
use nlxd::resource::{Names, Resource, Wire};

const INSTANCE: &str = "{\"architecture\": \"x86_64\", \
    \"config\": {\"image.os\": \"Ubuntu\", \"volatile.uuid\": \"u\"}, \
    \"created_at\": \"2024-01-02T03:04:05Z\", \"description\": \"test\", \
    \"devices\": {\"root\": {\"type\": \"disk\", \"path\": \"/\", \"pool\": \"default\"}}, \
    \"ephemeral\": false, \"expanded_config\": {}, \
    \"expanded_devices\": {\"eth0\": {\"type\": \"nic\", \"name\": \"eth0\", \"network\": \"lxdbr0\"}, \
                           \"data\": {\"type\": \"disk\", \"path\": \"/data\", \"source\": \"/srv\", \"pool\": null}}, \
    \"last_used_at\": \"1970-01-01T00:00:00Z\", \"location\": \"none\", \"name\": \"c1\", \
    \"profiles\": [\"default\"], \"project\": \"default\", \"stateful\": false, \
    \"status\": \"Running\", \"status_code\": 103, \"type\": \"container\", \"backups\": null}";

const IMAGE: &str = "{\"aliases\": [{\"name\": \"jammy\", \"description\": \"Ubuntu 22.04\"}], \
    \"architecture\": \"aarch64\", \"auto_update\": true, \"cached\": false, \
    \"created_at\": \"2024-01-02T03:04:05Z\", \"expires_at\": \"2027-01-01T00:00:00Z\", \
    \"filename\": \"ubuntu.squashfs\", \"fingerprint\": \"06b86454720d\", \
    \"last_used_at\": \"0001-01-01T00:00:00Z\", \"profiles\": [\"default\"], \
    \"properties\": {\"os\": \"ubuntu\", \"release\": \"jammy\"}, \"public\": true, \
    \"size\": 272237676, \"type\": \"virtual-machine\", \
    \"update_source\": {\"alias\": \"22.04\", \"certificate\": \"\", \"image_type\": \"\", \
                        \"protocol\": \"simplestreams\", \"server\": \"https://cloud-images.ubuntu.com/releases\"}, \
    \"uploaded_at\": \"2024-01-03T00:00:00Z\"}";

fn parse(text: &str) -> Json {
    Json::parse(text.as_bytes()).unwrap()
}

fn pair(key: &str, value: &str) -> (String, String) {
    (key.to_string(), value.to_string())
}

#[test]
fn an_instance_is_read_member_by_member() {
    let instance = Instance::decode(&parse(INSTANCE)).unwrap();
    assert_eq!(instance.architecture, "x86_64");
    assert_eq!(instance.config, vec![pair("image.os", "Ubuntu"), pair("volatile.uuid", "u")]);
    assert_eq!(instance.created_at.seconds, 1704164645);
    assert_eq!(instance.description, "test");
    assert_eq!(
        instance.devices,
        vec![(
            "root".to_string(),
            Device::Disk { path: "/".to_string(), source: None, pool: Some("default".to_string()) }
        )]
    );
    assert!(!instance.ephemeral);
    assert!(instance.expanded_config.is_empty());
    assert_eq!(instance.expanded_devices.len(), 2);
    assert!(instance.expanded_devices.contains(&(
        "eth0".to_string(),
        Device::Nic { name: "eth0".to_string(), network: "lxdbr0".to_string() }
    )));
    assert!(instance.expanded_devices.contains(&(
        "data".to_string(),
        Device::Disk { path: "/data".to_string(), source: Some("/srv".to_string()), pool: None }
    )));
    assert_eq!(instance.last_used_at.seconds, 0);
    assert_eq!(instance.location, "none");
    assert_eq!(instance.name, "c1");
    assert_eq!(instance.profiles, vec!["default".to_string()]);
    assert_eq!(instance.project, "default");
    assert!(!instance.stateful);
    assert_eq!(instance.status, InstanceStatus::Running);
    assert_eq!(instance.instance_type, InstanceType::Container);
}

#[test]
fn an_instance_with_a_fault_is_a_schema_mismatch() {
    for (from, to) in [
        ("\"ephemeral\": false", "\"ephemeral\": 0"),
        ("\"type\": \"container\"", "\"type\": \"jail\""),
        ("\"profiles\": [\"default\"]", "\"profiles\": \"default\""),
        ("\"name\": \"c1\", ", ""),
        ("\"type\": \"nic\"", "\"type\": \"gpu\""),
        ("\"path\": \"/\", ", ""),
        ("\"image.os\": \"Ubuntu\"", "\"image.os\": 1"),
        ("\"created_at\": \"2024-01-02T03:04:05Z\"", "\"created_at\": \"soon\""),
        ("\"pool\": \"default\"", "\"pool\": 7"),
    ] {
        let text = INSTANCE.replace(from, to);
        assert_ne!(text, INSTANCE);
        assert_eq!(Instance::decode(&parse(&text)), Err(DecodeError::SchemaMismatch), "{}", to);
    }
}

#[test]
fn a_map_takes_no_key_twice() {
    let twice = Json::object(vec![
        ("k".to_string(), Json::text("a")),
        ("k".to_string(), Json::text("b")),
    ]);
    assert_eq!(text_pairs(&twice), Err(DecodeError::SchemaMismatch));
    let once = Json::object(vec![
        ("k".to_string(), Json::text("a")),
        ("l".to_string(), Json::text("a")),
    ]);
    assert_eq!(text_pairs(&once), Ok(vec![pair("k", "a"), pair("l", "a")]));
    assert!(keys_are_distinct(once.as_members().unwrap()));
    assert!(!keys_are_distinct(twice.as_members().unwrap()));
    assert!(keys_are_distinct(&vec![]));
    let disk = || Device::Disk { path: "/".to_string(), source: None, pool: None }.encode();
    let devices = Json::object(vec![("root".to_string(), disk()), ("root".to_string(), disk())]);
    assert_eq!(Device::decode_all(&devices), Err(DecodeError::SchemaMismatch));
    let devices = Json::object(vec![("root".to_string(), disk()), ("data".to_string(), disk())]);
    assert_eq!(Device::decode_all(&devices).map(|d| d.len()), Ok(2));
}

#[test]
fn an_instance_with_an_unknown_status_says_which() {
    let text = INSTANCE.replace("\"status_code\": 103", "\"status_code\": 777");
    assert_eq!(Instance::decode(&parse(&text)), Err(DecodeError::UnknownStatus(777)));
}

#[test]
fn a_written_instance_is_read_back() {
    let instance = Instance::decode(&parse(INSTANCE)).unwrap();
    let written = instance.encode();
    assert_eq!(written.get("status_code"), Some(&Json::unsigned(103)));
    assert_eq!(written.get("type"), Some(&Json::text("container")));
    assert_eq!(Instance::decode(&written), Ok(instance));
}

#[test]
fn devices_are_told_apart_by_type() {
    let disk = parse("{\"type\": \"disk\", \"path\": \"/\", \"source\": \"/dev/sda\"}");
    assert_eq!(
        Device::decode(&disk),
        Ok(Device::Disk { path: "/".to_string(), source: Some("/dev/sda".to_string()), pool: None })
    );
    let nic = parse("{\"name\": \"eth0\", \"network\": \"br0\", \"type\": \"nic\", \"mtu\": \"1500\"}");
    assert_eq!(
        Device::decode(&nic),
        Ok(Device::Nic { name: "eth0".to_string(), network: "br0".to_string() })
    );
    assert_eq!(Device::decode(&parse("{\"path\": \"/\"}")), Err(DecodeError::SchemaMismatch));
    assert_eq!(
        Device::decode(&parse("{\"type\": \"nic\", \"name\": \"eth0\"}")),
        Err(DecodeError::SchemaMismatch)
    );
    for device in [
        Device::Disk { path: "/".to_string(), source: None, pool: None },
        Device::Disk { path: "/".to_string(), source: Some("s".to_string()), pool: None },
        Device::Disk { path: "/".to_string(), source: None, pool: Some("p".to_string()) },
        Device::Disk { path: "/".to_string(), source: Some("s".to_string()), pool: Some("p".to_string()) },
        Device::Nic { name: "n".to_string(), network: "w".to_string() },
    ] {
        assert_eq!(Device::decode(&device.encode()), Ok(device));
    }
}

#[test]
fn an_image_is_read_member_by_member() {
    let image = Image::decode(&parse(IMAGE)).unwrap();
    assert_eq!(
        image,
        Image {
            aliases: vec![Alias {
                name: "jammy".to_string(),
                description: "Ubuntu 22.04".to_string()
            }],
            architecture: Arch::Aarch64,
            auto_update: true,
            cached: false,
            created_at: "2024-01-02T03:04:05Z".to_string(),
            expires_at: "2027-01-01T00:00:00Z".to_string(),
            filename: "ubuntu.squashfs".to_string(),
            fingerprint: "06b86454720d".to_string(),
            last_used_at: "0001-01-01T00:00:00Z".to_string(),
            profiles: vec!["default".to_string()],
            properties: vec![pair("os", "ubuntu"), pair("release", "jammy")],
            public: true,
            size: Bytes(272237676),
            image_type: ImageType::VirtualMachine,
            update_source: Some(ImageSource {
                alias: "22.04".to_string(),
                certificate: "".to_string(),
                image_type: None,
                protocol: RemoteImageProtocol::Simplestreams,
                server: "https://cloud-images.ubuntu.com/releases".to_string(),
            }),
            uploaded_at: "2024-01-03T00:00:00Z".to_string(),
        }
    );
}

#[test]
fn an_image_need_not_have_an_update_source() {
    let start = IMAGE.find("\"update_source\"").unwrap();
    let end = IMAGE.find("\"uploaded_at\"").unwrap();
    let without = format!("{}{}", &IMAGE[..start], &IMAGE[end..]);
    assert_eq!(Image::decode(&parse(&without)).unwrap().update_source, None);
    let null = format!("{}\"update_source\": null, {}", &IMAGE[..start], &IMAGE[end..]);
    assert_eq!(Image::decode(&parse(&null)).unwrap().update_source, None);
}

#[test]
fn members_that_the_image_schema_lacks_are_ignored() {
    let text = IMAGE.replace("\"public\": true", "\"public\": true, \"project\": \"default\"");
    assert!(Image::decode(&parse(&text)).is_ok());
}

#[test]
fn an_alias_takes_no_member_that_its_schema_lacks() {
    assert_eq!(
        Alias::decode(&parse("{\"name\": \"a\", \"description\": \"b\"}")),
        Ok(Alias { name: "a".to_string(), description: "b".to_string() })
    );
    assert_eq!(
        Alias::decode(&parse("{\"name\": \"a\", \"description\": \"b\", \"target\": \"c\"}")),
        Err(DecodeError::SchemaMismatch)
    );
    assert_eq!(Alias::decode(&parse("{\"name\": \"a\"}")), Err(DecodeError::SchemaMismatch));
    let text = IMAGE.replace(
        "\"description\": \"Ubuntu 22.04\"",
        "\"description\": \"Ubuntu 22.04\", \"type\": \"container\"",
    );
    assert_eq!(Image::decode(&parse(&text)), Err(DecodeError::SchemaMismatch));
}

#[test]
fn an_image_with_a_fault_is_a_schema_mismatch() {
    for (from, to) in [
        ("\"architecture\": \"aarch64\"", "\"architecture\": \"z80\""),
        ("\"size\": 272237676", "\"size\": -1"),
        ("\"size\": 272237676", "\"size\": 1.5"),
        ("\"type\": \"virtual-machine\"", "\"type\": \"virtual_machine\""),
        ("\"protocol\": \"simplestreams\"", "\"protocol\": \"ftp\""),
        ("\"image_type\": \"\"", "\"image_type\": \"appliance\""),
        ("\"aliases\": [{", "\"aliases\": [7, {"),
        ("\"cached\": false, ", ""),
    ] {
        let text = IMAGE.replace(from, to);
        assert_ne!(text, IMAGE);
        assert_eq!(Image::decode(&parse(&text)), Err(DecodeError::SchemaMismatch), "{}", to);
    }
}

#[test]
fn an_update_source_may_leave_the_image_type_open() {
    let source = |word: &str| {
        ImageSource::decode(&parse(&format!(
            "{{\"alias\": \"a\", \"certificate\": \"c\", \"image_type\": \"{}\", \
             \"protocol\": \"lxd\", \"server\": \"s\"}}",
            word
        )))
    };
    assert_eq!(source("").unwrap().image_type, None);
    assert_eq!(source("container").unwrap().image_type, Some(ImageType::Container));
    assert_eq!(source("virtual-machine").unwrap().image_type, Some(ImageType::VirtualMachine));
    assert_eq!(source("vm"), Err(DecodeError::SchemaMismatch));
    for image_type in [None, Some(ImageType::Container), Some(ImageType::VirtualMachine)] {
        let written = ImageSource {
            alias: "a".to_string(),
            certificate: "c".to_string(),
            image_type,
            protocol: RemoteImageProtocol::Lxd,
            server: "s".to_string(),
        };
        assert_eq!(ImageSource::decode(&written.encode()), Ok(written));
    }
}

#[test]
fn every_architecture_has_its_name() {
    for (name, arch) in [
        ("i686", Arch::I686),
        ("x86_64", Arch::X86_64),
        ("armv7l", Arch::Armv7l),
        ("aarch64", Arch::Aarch64),
        ("ppc", Arch::Ppc),
        ("ppc64", Arch::Ppc64),
        ("ppc64le", Arch::Ppc64le),
        ("s390x", Arch::S390x),
        ("mips", Arch::Mips),
        ("mips64", Arch::Mips64),
        ("riscv32", Arch::Riscv32),
        ("riscv64", Arch::Riscv64),
    ] {
        let json = Json::object(vec![("architecture".to_string(), Json::text(name))]);
        assert_eq!(Arch::at(&json, "architecture"), Ok(arch));
        assert_eq!(arch.as_str(), name);
    }
    let json = Json::object(vec![("architecture".to_string(), Json::text("X86_64"))]);
    assert_eq!(Arch::at(&json, "architecture"), Err(DecodeError::SchemaMismatch));
}

#[test]
fn a_written_image_is_read_back() {
    let image = Image::decode(&parse(IMAGE)).unwrap();
    let written = image.encode();
    assert_eq!(written.get("size"), Some(&Json::unsigned(272237676)));
    assert_eq!(Image::decode(&written), Ok(image.clone()));
    let bare = Image { update_source: None, aliases: vec![], ..image };
    assert_eq!(bare.encode().get("update_source"), Some(&Json::Null));
    assert_eq!(Image::decode(&bare.encode()), Ok(bare));
}

#[test]
fn a_list_of_names_is_an_array_of_strings() {
    assert_eq!(Names::decode(&parse("[]")), Ok(Names(vec![])));
    assert_eq!(
        Names::decode(&parse("[\"a\", \"b\"]")),
        Ok(Names(vec!["a".to_string(), "b".to_string()]))
    );
    assert_eq!(Names::decode(&parse("[\"a\", null]")), Err(DecodeError::SchemaMismatch));
    assert_eq!(Names::decode(&parse("{\"a\": \"b\"}")), Err(DecodeError::SchemaMismatch));
    let names = Names(vec!["x".to_string(), "y".to_string()]);
    assert_eq!(names.encode(), Json::Array(vec![Json::text("x"), Json::text("y")]));
    assert_eq!(Names::decode(&names.encode()), Ok(names));
}
