//! Images from which instances are made.

use crate::error::DecodeError;
use crate::fields::{
    bool_at, distinct_keys, has_only_members, is_left_out, left_out,
    lemma_text_pairs_are_a_map, only_members, pairs_view, put,
    required_bool,
    required_text, required_text_pairs, required_texts, required_unsigned, text_at, text_is,
    text_pairs_at, texts_at, texts_view, unsigned_at,
};
use crate::json::{
    items_view, lemma_find_at, member, members_view, Json, JsonView, NumberView,
};
use crate::resource::{
    lemma_pairs_round_trip, lemma_texts_round_trip, pairs_json, pairs_to_json, texts_json,
    texts_to_json, Resource, Wire,
};
use vstd::prelude::*;
use vstd::string::{StrSliceExecFns, StringExecFns};

verus! {

/// A processor architecture, by the name that the daemon gives it.
#[derive(Clone, Copy, Debug, PartialEq, Eq, Structural)]
pub enum Arch {
    I686,
    X86_64,
    Armv7l,
    Aarch64,
    Ppc,
    Ppc64,
    Ppc64le,
    S390x,
    Mips,
    Mips64,
    Riscv32,
    Riscv64,
}

/// A size in bytes.
#[derive(Clone, Copy, Debug, PartialEq, Eq, Structural)]
pub struct Bytes(pub u64);

#[derive(Clone, Copy, Debug, PartialEq, Eq, Structural)]
pub enum ImageType {
    Container,
    VirtualMachine,
}

/// The protocol of a remote image server.
#[derive(Clone, Copy, Debug, PartialEq, Eq, Structural)]
pub enum RemoteImageProtocol {
    Lxd,
    Simplestreams,
}

/// Another name for an image. The schema is known in full: a member other
/// than `name` and `description` is refused.
#[derive(Clone, Debug, PartialEq, Eq)]
pub struct Alias {
    pub name: String,
    pub description: String,
}

/// Where an image is updated from.
#[derive(Clone, Debug, PartialEq, Eq)]
pub struct ImageSource {
    pub alias: String,
    pub certificate: String,
    /// The kind of image. The daemon may leave it open, which it writes as an
    /// empty string.
    pub image_type: Option<ImageType>,
    pub protocol: RemoteImageProtocol,
    pub server: String,
}

#[derive(Clone, Debug, PartialEq, Eq)]
pub struct Image {
    pub aliases: Vec<Alias>,
    pub architecture: Arch,
    /// Whether the image is updated when a new build is available.
    pub auto_update: bool,
    /// Whether the image is a cached copy of a remote one.
    pub cached: bool,
    pub created_at: String,
    pub expires_at: String,
    pub filename: String,
    pub fingerprint: String,
    pub last_used_at: String,
    /// The profiles to use for an instance made from this image, where the
    /// caller names none.
    pub profiles: Vec<String>,
    pub properties: Vec<(String, String)>,
    /// Whether the image is open to clients that are not authenticated.
    pub public: bool,
    pub size: Bytes,
    pub image_type: ImageType,
    pub update_source: Option<ImageSource>,
    pub uploaded_at: String,
}

pub ghost struct AliasView {
    pub name: Seq<char>,
    pub description: Seq<char>,
}

pub ghost struct ImageSourceView {
    pub alias: Seq<char>,
    pub certificate: Seq<char>,
    pub image_type: Option<ImageType>,
    pub protocol: RemoteImageProtocol,
    pub server: Seq<char>,
}

pub ghost struct ImageView {
    pub aliases: Seq<AliasView>,
    pub architecture: Arch,
    pub auto_update: bool,
    pub cached: bool,
    pub created_at: Seq<char>,
    pub expires_at: Seq<char>,
    pub filename: Seq<char>,
    pub fingerprint: Seq<char>,
    pub last_used_at: Seq<char>,
    pub profiles: Seq<Seq<char>>,
    pub properties: Seq<(Seq<char>, Seq<char>)>,
    pub public: bool,
    pub size: Bytes,
    pub image_type: ImageType,
    pub update_source: Option<ImageSourceView>,
    pub uploaded_at: Seq<char>,
}

impl View for Alias {
    type V = AliasView;

    open spec fn view(&self) -> AliasView {
        AliasView { name: self.name@, description: self.description@ }
    }
}

impl View for ImageSource {
    type V = ImageSourceView;

    open spec fn view(&self) -> ImageSourceView {
        ImageSourceView {
            alias: self.alias@,
            certificate: self.certificate@,
            image_type: self.image_type,
            protocol: self.protocol,
            server: self.server@,
        }
    }
}

/// The views of a list of aliases.
pub open spec fn aliases_view(aliases: Seq<Alias>) -> Seq<AliasView> {
    Seq::new(aliases.len(), |i: int| aliases[i]@)
}

impl View for Image {
    type V = ImageView;

    open spec fn view(&self) -> ImageView {
        ImageView {
            aliases: aliases_view(self.aliases@),
            architecture: self.architecture,
            auto_update: self.auto_update,
            cached: self.cached,
            created_at: self.created_at@,
            expires_at: self.expires_at@,
            filename: self.filename@,
            fingerprint: self.fingerprint@,
            last_used_at: self.last_used_at@,
            profiles: texts_view(self.profiles@),
            properties: pairs_view(self.properties@),
            public: self.public,
            size: self.size,
            image_type: self.image_type,
            update_source: match self.update_source {
                Some(source) => Some(source@),
                None => None,
            },
            uploaded_at: self.uploaded_at@,
        }
    }
}

/// The architecture that a name on the wire stands for.
pub open spec fn arch_of(word: Seq<char>) -> Option<Arch> {
    if word == "i686"@ {
        Some(Arch::I686)
    } else if word == "x86_64"@ {
        Some(Arch::X86_64)
    } else if word == "armv7l"@ {
        Some(Arch::Armv7l)
    } else if word == "aarch64"@ {
        Some(Arch::Aarch64)
    } else if word == "ppc"@ {
        Some(Arch::Ppc)
    } else if word == "ppc64"@ {
        Some(Arch::Ppc64)
    } else if word == "ppc64le"@ {
        Some(Arch::Ppc64le)
    } else if word == "s390x"@ {
        Some(Arch::S390x)
    } else if word == "mips"@ {
        Some(Arch::Mips)
    } else if word == "mips64"@ {
        Some(Arch::Mips64)
    } else if word == "riscv32"@ {
        Some(Arch::Riscv32)
    } else if word == "riscv64"@ {
        Some(Arch::Riscv64)
    } else {
        None
    }
}

/// The image type that a word on the wire stands for.
pub open spec fn image_type_of(word: Seq<char>) -> Option<ImageType> {
    if word == "container"@ {
        Some(ImageType::Container)
    } else if word == "virtual-machine"@ {
        Some(ImageType::VirtualMachine)
    } else {
        None
    }
}

/// The image type that a word on the wire stands for, where the word may be
/// empty to leave the type open.
pub open spec fn open_image_type_of(word: Seq<char>) -> Option<Option<ImageType>> {
    if word.len() == 0 {
        Some(None)
    } else {
        match image_type_of(word) {
            Some(image_type) => Some(Some(image_type)),
            None => None,
        }
    }
}

/// The protocol that a word on the wire stands for.
pub open spec fn protocol_of(word: Seq<char>) -> Option<RemoteImageProtocol> {
    if word == "lxd"@ {
        Some(RemoteImageProtocol::Lxd)
    } else if word == "simplestreams"@ {
        Some(RemoteImageProtocol::Simplestreams)
    } else {
        None
    }
}

/// The member `key` read as one of a closed set of words.
pub open spec fn required_word<T>(
    json: JsonView,
    key: Seq<char>,
    meaning: spec_fn(Seq<char>) -> Option<T>,
) -> Result<T, DecodeError> {
    match required_text(json, key) {
        Ok(word) => match meaning(word) {
            Some(value) => Ok(value),
            None => Err(DecodeError::SchemaMismatch),
        },
        Err(e) => Err(e),
    }
}

/// The names of the members of an alias.
pub open spec fn alias_members() -> Seq<Seq<char>> {
    seq!["name"@, "description"@]
}

/// The alias that a document stands for: both members, and no other.
pub open spec fn alias_of(json: JsonView) -> Result<AliasView, DecodeError> {
    let name = required_text(json, "name"@);
    let description = required_text(json, "description"@);
    if name is Err {
        Err(name->Err_0)
    } else if description is Err {
        Err(description->Err_0)
    } else if !only_members(json, alias_members()) {
        Err(DecodeError::SchemaMismatch)
    } else {
        Ok(AliasView { name: name->Ok_0, description: description->Ok_0 })
    }
}

/// The aliases that an array stands for.
pub open spec fn aliases_of(json: JsonView) -> Result<Seq<AliasView>, DecodeError> {
    match json {
        JsonView::Array(items) => if forall|i: int|
            0 <= i < items.len() ==> alias_of(#[trigger] items[i]) is Ok {
            Ok(Seq::new(items.len(), |i: int| alias_of(items[i])->Ok_0))
        } else {
            Err(DecodeError::SchemaMismatch)
        },
        _ => Err(DecodeError::SchemaMismatch),
    }
}

/// The member `aliases`.
pub open spec fn required_aliases(json: JsonView) -> Result<Seq<AliasView>, DecodeError> {
    match member(json, "aliases"@) {
        Some(value) => aliases_of(value),
        None => Err(DecodeError::SchemaMismatch),
    }
}

/// The update source that a document stands for.
pub open spec fn image_source_of(json: JsonView) -> Result<ImageSourceView, DecodeError> {
    let alias = required_text(json, "alias"@);
    let certificate = required_text(json, "certificate"@);
    let image_type = required_word(
        json,
        "image_type"@,
        |word: Seq<char>| open_image_type_of(word),
    );
    let protocol = required_word(json, "protocol"@, |word: Seq<char>| protocol_of(word));
    let server = required_text(json, "server"@);
    if alias is Err {
        Err(alias->Err_0)
    } else if certificate is Err {
        Err(certificate->Err_0)
    } else if image_type is Err {
        Err(image_type->Err_0)
    } else if protocol is Err {
        Err(protocol->Err_0)
    } else if server is Err {
        Err(server->Err_0)
    } else {
        Ok(
            ImageSourceView {
                alias: alias->Ok_0,
                certificate: certificate->Ok_0,
                image_type: image_type->Ok_0,
                protocol: protocol->Ok_0,
                server: server->Ok_0,
            },
        )
    }
}

/// The member `update_source`; none where the member is left out.
pub open spec fn optional_update_source(json: JsonView) -> Result<
    Option<ImageSourceView>,
    DecodeError,
> {
    if left_out(json, "update_source"@) {
        Ok(None)
    } else {
        match image_source_of(member(json, "update_source"@)->Some_0) {
            Ok(source) => Ok(Some(source)),
            Err(e) => Err(e),
        }
    }
}

/// The image that a document stands for. Every member that the schema names is
/// required, but for `update_source`; others are ignored. Where several members
/// are at fault, the first in the order below decides the error.
pub open spec fn image_of(json: JsonView) -> Result<ImageView, DecodeError> {
    let aliases = required_aliases(json);
    let architecture = required_word(json, "architecture"@, |word: Seq<char>| arch_of(word));
    let auto_update = required_bool(json, "auto_update"@);
    let cached = required_bool(json, "cached"@);
    let created_at = required_text(json, "created_at"@);
    let expires_at = required_text(json, "expires_at"@);
    let filename = required_text(json, "filename"@);
    let fingerprint = required_text(json, "fingerprint"@);
    let last_used_at = required_text(json, "last_used_at"@);
    let profiles = required_texts(json, "profiles"@);
    let properties = required_text_pairs(json, "properties"@);
    let public = required_bool(json, "public"@);
    let size = required_unsigned(json, "size"@);
    let image_type = required_word(json, "type"@, |word: Seq<char>| image_type_of(word));
    let update_source = optional_update_source(json);
    let uploaded_at = required_text(json, "uploaded_at"@);
    if aliases is Err {
        Err(aliases->Err_0)
    } else if architecture is Err {
        Err(architecture->Err_0)
    } else if auto_update is Err {
        Err(auto_update->Err_0)
    } else if cached is Err {
        Err(cached->Err_0)
    } else if created_at is Err {
        Err(created_at->Err_0)
    } else if expires_at is Err {
        Err(expires_at->Err_0)
    } else if filename is Err {
        Err(filename->Err_0)
    } else if fingerprint is Err {
        Err(fingerprint->Err_0)
    } else if last_used_at is Err {
        Err(last_used_at->Err_0)
    } else if profiles is Err {
        Err(profiles->Err_0)
    } else if properties is Err {
        Err(properties->Err_0)
    } else if public is Err {
        Err(public->Err_0)
    } else if size is Err {
        Err(size->Err_0)
    } else if image_type is Err {
        Err(image_type->Err_0)
    } else if update_source is Err {
        Err(update_source->Err_0)
    } else if uploaded_at is Err {
        Err(uploaded_at->Err_0)
    } else {
        Ok(
            ImageView {
                aliases: aliases->Ok_0,
                architecture: architecture->Ok_0,
                auto_update: auto_update->Ok_0,
                cached: cached->Ok_0,
                created_at: created_at->Ok_0,
                expires_at: expires_at->Ok_0,
                filename: filename->Ok_0,
                fingerprint: fingerprint->Ok_0,
                last_used_at: last_used_at->Ok_0,
                profiles: profiles->Ok_0,
                properties: properties->Ok_0,
                public: public->Ok_0,
                size: Bytes(size->Ok_0),
                image_type: image_type->Ok_0,
                update_source: update_source->Ok_0,
                uploaded_at: uploaded_at->Ok_0,
            },
        )
    }
}

impl Arch {
    /// Reads the member `key` as an architecture.
    pub fn at(json: &Json, key: &str) -> (r: Result<Arch, DecodeError>)
        ensures
            r == required_word(json@, key@, |word: Seq<char>| arch_of(word)),
    {
        match text_at(json, key) {
            Ok(word) => {
                if text_is(&word, "i686") {
                    Ok(Arch::I686)
                } else if text_is(&word, "x86_64") {
                    Ok(Arch::X86_64)
                } else if text_is(&word, "armv7l") {
                    Ok(Arch::Armv7l)
                } else if text_is(&word, "aarch64") {
                    Ok(Arch::Aarch64)
                } else if text_is(&word, "ppc") {
                    Ok(Arch::Ppc)
                } else if text_is(&word, "ppc64") {
                    Ok(Arch::Ppc64)
                } else if text_is(&word, "ppc64le") {
                    Ok(Arch::Ppc64le)
                } else if text_is(&word, "s390x") {
                    Ok(Arch::S390x)
                } else if text_is(&word, "mips") {
                    Ok(Arch::Mips)
                } else if text_is(&word, "mips64") {
                    Ok(Arch::Mips64)
                } else if text_is(&word, "riscv32") {
                    Ok(Arch::Riscv32)
                } else if text_is(&word, "riscv64") {
                    Ok(Arch::Riscv64)
                } else {
                    Err(DecodeError::SchemaMismatch)
                }
            },
            Err(e) => Err(e),
        }
    }
}

impl ImageType {
    /// Reads the member `key` as an image type.
    pub fn at(json: &Json, key: &str) -> (r: Result<ImageType, DecodeError>)
        ensures
            r == required_word(json@, key@, |word: Seq<char>| image_type_of(word)),
    {
        match text_at(json, key) {
            Ok(word) => {
                if text_is(&word, "container") {
                    Ok(ImageType::Container)
                } else if text_is(&word, "virtual-machine") {
                    Ok(ImageType::VirtualMachine)
                } else {
                    Err(DecodeError::SchemaMismatch)
                }
            },
            Err(e) => Err(e),
        }
    }
}

impl ImageType {
    /// Reads the member `key` as an image type that may be left open.
    pub fn open_at(json: &Json, key: &str) -> (r: Result<Option<ImageType>, DecodeError>)
        ensures
            r == required_word(json@, key@, |word: Seq<char>| open_image_type_of(word)),
    {
        match text_at(json, key) {
            Ok(word) => {
                if word.as_str().unicode_len() == 0 {
                    Ok(None)
                } else if text_is(&word, "container") {
                    Ok(Some(ImageType::Container))
                } else if text_is(&word, "virtual-machine") {
                    Ok(Some(ImageType::VirtualMachine))
                } else {
                    Err(DecodeError::SchemaMismatch)
                }
            },
            Err(e) => Err(e),
        }
    }
}

impl RemoteImageProtocol {
    /// The word for the protocol on the wire.
    pub open spec fn word(self) -> Seq<char> {
        match self {
            RemoteImageProtocol::Lxd => "lxd"@,
            RemoteImageProtocol::Simplestreams => "simplestreams"@,
        }
    }

    pub fn as_str(&self) -> (r: &'static str)
        ensures
            r@ == self.word(),
    {
        match self {
            RemoteImageProtocol::Lxd => "lxd",
            RemoteImageProtocol::Simplestreams => "simplestreams",
        }
    }

    /// Reads the member `key` as a protocol.
    pub fn at(json: &Json, key: &str) -> (r: Result<RemoteImageProtocol, DecodeError>)
        ensures
            r == required_word(json@, key@, |word: Seq<char>| protocol_of(word)),
    {
        match text_at(json, key) {
            Ok(word) => {
                if text_is(&word, "lxd") {
                    Ok(RemoteImageProtocol::Lxd)
                } else if text_is(&word, "simplestreams") {
                    Ok(RemoteImageProtocol::Simplestreams)
                } else {
                    Err(DecodeError::SchemaMismatch)
                }
            },
            Err(e) => Err(e),
        }
    }
}

impl Alias {
    /// Reads an alias.
    pub fn decode(json: &Json) -> (r: Result<Alias, DecodeError>)
        ensures
            match r {
                Ok(alias) => alias_of(json@) == Ok::<AliasView, DecodeError>(alias@),
                Err(e) => alias_of(json@) == Err::<AliasView, DecodeError>(e),
            },
    {
        let name = match text_at(json, "name") {
            Ok(v) => v,
            Err(e) => return Err(e),
        };
        let description = match text_at(json, "description") {
            Ok(v) => v,
            Err(e) => return Err(e),
        };
        let mut allowed: Vec<String> = Vec::new();
        allowed.push(String::from_str("name"));
        allowed.push(String::from_str("description"));
        assert(texts_view(allowed@) =~= alias_members());
        if !has_only_members(json, &allowed) {
            return Err(DecodeError::SchemaMismatch);
        }
        Ok(Alias { name, description })
    }

    /// Reads an array of aliases.
    pub fn decode_all(json: &Json) -> (r: Result<Vec<Alias>, DecodeError>)
        ensures
            match r {
                Ok(aliases) => aliases_of(json@) == Ok::<Seq<AliasView>, DecodeError>(
                    aliases_view(aliases@),
                ),
                Err(e) => aliases_of(json@) == Err::<Seq<AliasView>, DecodeError>(e),
            },
    {
        match json.as_items() {
            None => Err(DecodeError::SchemaMismatch),
            Some(items) => {
                let ghost all = items_view(items@);
                let mut aliases: Vec<Alias> = Vec::new();
                let mut i: usize = 0;
                while i < items.len()
                    invariant
                        i <= items.len(),
                        all == items_view(items@),
                        json@ == JsonView::Array(all),
                        aliases.len() == i,
                        forall|k: int|
                            0 <= k < i ==> alias_of(all[k]) == Ok::<AliasView, DecodeError>(
                                (#[trigger] aliases[k])@,
                            ),
                    decreases items.len() - i,
                {
                    match Alias::decode(&items[i]) {
                        Ok(alias) => {
                            aliases.push(alias);
                        },
                        Err(_) => {
                            assert(!(alias_of(all[i as int]) is Ok));
                            return Err(DecodeError::SchemaMismatch);
                        },
                    }
                    i += 1;
                }
                proof {
                    assert forall|k: int| 0 <= k < all.len() implies alias_of(
                        #[trigger] all[k],
                    ) is Ok by {
                        assert(alias_of(all[k]) == Ok::<AliasView, DecodeError>(aliases[k]@));
                    }
                    assert(aliases_of(json@)->Ok_0 =~= aliases_view(aliases@));
                }
                Ok(aliases)
            },
        }
    }
}

impl ImageSource {
    /// Reads an update source.
    pub fn decode(json: &Json) -> (r: Result<ImageSource, DecodeError>)
        ensures
            match r {
                Ok(source) => image_source_of(json@) == Ok::<ImageSourceView, DecodeError>(
                    source@,
                ),
                Err(e) => image_source_of(json@) == Err::<ImageSourceView, DecodeError>(e),
            },
    {
        let alias = match text_at(json, "alias") {
            Ok(v) => v,
            Err(e) => return Err(e),
        };
        let certificate = match text_at(json, "certificate") {
            Ok(v) => v,
            Err(e) => return Err(e),
        };
        let image_type = match ImageType::open_at(json, "image_type") {
            Ok(v) => v,
            Err(e) => return Err(e),
        };
        let protocol = match RemoteImageProtocol::at(json, "protocol") {
            Ok(v) => v,
            Err(e) => return Err(e),
        };
        let server = match text_at(json, "server") {
            Ok(v) => v,
            Err(e) => return Err(e),
        };
        Ok(ImageSource { alias, certificate, image_type, protocol, server })
    }
}

impl Resource for Image {
    open spec fn well_formed(value: ImageView) -> bool {
        image_well_formed(value)
    }

    open spec fn decoded(json: JsonView) -> Result<ImageView, DecodeError> {
        image_of(json)
    }

    proof fn lemma_read_is_well_formed(json: JsonView) {
        lemma_read_image_is_well_formed(json);
    }

    fn decode(json: &Json) -> (r: Result<Self, DecodeError>) {
        let aliases = match json.get("aliases") {
            Some(value) => match Alias::decode_all(value) {
                Ok(v) => v,
                Err(e) => return Err(e),
            },
            None => return Err(DecodeError::SchemaMismatch),
        };
        let architecture = match Arch::at(json, "architecture") {
            Ok(v) => v,
            Err(e) => return Err(e),
        };
        let auto_update = match bool_at(json, "auto_update") {
            Ok(v) => v,
            Err(e) => return Err(e),
        };
        let cached = match bool_at(json, "cached") {
            Ok(v) => v,
            Err(e) => return Err(e),
        };
        let created_at = match text_at(json, "created_at") {
            Ok(v) => v,
            Err(e) => return Err(e),
        };
        let expires_at = match text_at(json, "expires_at") {
            Ok(v) => v,
            Err(e) => return Err(e),
        };
        let filename = match text_at(json, "filename") {
            Ok(v) => v,
            Err(e) => return Err(e),
        };
        let fingerprint = match text_at(json, "fingerprint") {
            Ok(v) => v,
            Err(e) => return Err(e),
        };
        let last_used_at = match text_at(json, "last_used_at") {
            Ok(v) => v,
            Err(e) => return Err(e),
        };
        let profiles = match texts_at(json, "profiles") {
            Ok(v) => v,
            Err(e) => return Err(e),
        };
        let properties = match text_pairs_at(json, "properties") {
            Ok(v) => v,
            Err(e) => return Err(e),
        };
        let public = match bool_at(json, "public") {
            Ok(v) => v,
            Err(e) => return Err(e),
        };
        let size = match unsigned_at(json, "size") {
            Ok(v) => Bytes(v),
            Err(e) => return Err(e),
        };
        let image_type = match ImageType::at(json, "type") {
            Ok(v) => v,
            Err(e) => return Err(e),
        };
        let update_source = if is_left_out(json, "update_source") {
            None
        } else {
            match json.get("update_source") {
                Some(value) => match ImageSource::decode(value) {
                    Ok(v) => Some(v),
                    Err(e) => return Err(e),
                },
                None => None,
            }
        };
        let uploaded_at = match text_at(json, "uploaded_at") {
            Ok(v) => v,
            Err(e) => return Err(e),
        };
        proof {
            lemma_read_image_is_well_formed(json@);
        }
        Ok(
            Image {
                aliases,
                architecture,
                auto_update,
                cached,
                created_at,
                expires_at,
                filename,
                fingerprint,
                last_used_at,
                profiles,
                properties,
                public,
                size,
                image_type,
                update_source,
                uploaded_at,
            },
        )
    }
}

impl Arch {
    /// The name of the architecture on the wire.
    pub open spec fn word(self) -> Seq<char> {
        match self {
            Arch::I686 => "i686"@,
            Arch::X86_64 => "x86_64"@,
            Arch::Armv7l => "armv7l"@,
            Arch::Aarch64 => "aarch64"@,
            Arch::Ppc => "ppc"@,
            Arch::Ppc64 => "ppc64"@,
            Arch::Ppc64le => "ppc64le"@,
            Arch::S390x => "s390x"@,
            Arch::Mips => "mips"@,
            Arch::Mips64 => "mips64"@,
            Arch::Riscv32 => "riscv32"@,
            Arch::Riscv64 => "riscv64"@,
        }
    }

    pub fn as_str(&self) -> (r: &'static str)
        ensures
            r@ == self.word(),
    {
        match self {
            Arch::I686 => "i686",
            Arch::X86_64 => "x86_64",
            Arch::Armv7l => "armv7l",
            Arch::Aarch64 => "aarch64",
            Arch::Ppc => "ppc",
            Arch::Ppc64 => "ppc64",
            Arch::Ppc64le => "ppc64le",
            Arch::S390x => "s390x",
            Arch::Mips => "mips",
            Arch::Mips64 => "mips64",
            Arch::Riscv32 => "riscv32",
            Arch::Riscv64 => "riscv64",
        }
    }
}

impl ImageType {
    /// The word for the type on the wire.
    pub open spec fn word(self) -> Seq<char> {
        match self {
            ImageType::Container => "container"@,
            ImageType::VirtualMachine => "virtual-machine"@,
        }
    }

    pub fn as_str(&self) -> (r: &'static str)
        ensures
            r@ == self.word(),
    {
        match self {
            ImageType::Container => "container",
            ImageType::VirtualMachine => "virtual-machine",
        }
    }
}

/// Reading the name written for an architecture gives the architecture.
pub proof fn lemma_arch_round_trip(arch: Arch)
    ensures
        arch_of(arch.word()) == Some(arch),
{
    reveal_strlit("i686");
    reveal_strlit("x86_64");
    reveal_strlit("armv7l");
    reveal_strlit("aarch64");
    reveal_strlit("ppc");
    reveal_strlit("ppc64");
    reveal_strlit("ppc64le");
    reveal_strlit("s390x");
    reveal_strlit("mips");
    reveal_strlit("mips64");
    reveal_strlit("riscv32");
    reveal_strlit("riscv64");
    assert("ppc"@.len() == 3);
    assert("i686"@.len() == 4 && "i686"@[0] == 'i');
    assert("mips"@.len() == 4 && "mips"@[0] == 'm');
    assert("ppc64"@.len() == 5 && "ppc64"@[0] == 'p');
    assert("s390x"@.len() == 5 && "s390x"@[0] == 's');
    assert("x86_64"@.len() == 6 && "x86_64"@[0] == 'x');
    assert("armv7l"@.len() == 6 && "armv7l"@[0] == 'a');
    assert("mips64"@.len() == 6 && "mips64"@[0] == 'm');
    assert("aarch64"@.len() == 7 && "aarch64"@[0] == 'a');
    assert("ppc64le"@.len() == 7 && "ppc64le"@[0] == 'p');
    assert("riscv32"@.len() == 7 && "riscv32"@[0] == 'r' && "riscv32"@[5] == '3');
    assert("riscv64"@.len() == 7 && "riscv64"@[0] == 'r' && "riscv64"@[5] == '6');
}

/// The document that stands for an alias.
pub open spec fn alias_json(alias: AliasView) -> JsonView {
    JsonView::Object(
        seq![
            ("name"@, JsonView::Text(alias.name)),
            ("description"@, JsonView::Text(alias.description)),
        ],
    )
}

/// The array that stands for a list of aliases.
pub open spec fn aliases_json(aliases: Seq<AliasView>) -> JsonView {
    JsonView::Array(Seq::new(aliases.len(), |i: int| alias_json(aliases[i])))
}

/// The word for an image type that may be left open: empty where it is.
pub open spec fn open_image_type_word(image_type: Option<ImageType>) -> Seq<char> {
    match image_type {
        Some(image_type) => image_type.word(),
        None => Seq::empty(),
    }
}

/// The document that stands for an update source.
pub open spec fn image_source_json(source: ImageSourceView) -> JsonView {
    JsonView::Object(
        seq![
            ("alias"@, JsonView::Text(source.alias)),
            ("certificate"@, JsonView::Text(source.certificate)),
            ("image_type"@, JsonView::Text(open_image_type_word(source.image_type))),
            ("protocol"@, JsonView::Text(source.protocol.word())),
            ("server"@, JsonView::Text(source.server)),
        ],
    )
}

/// The document that stands for an update source that may be missing: `null`
/// where it is.
pub open spec fn update_source_json(source: Option<ImageSourceView>) -> JsonView {
    match source {
        Some(source) => image_source_json(source),
        None => JsonView::Null,
    }
}

/// The document that stands for an image.
pub open spec fn image_json(image: ImageView) -> JsonView {
    JsonView::Object(
        seq![
            ("aliases"@, aliases_json(image.aliases)),
            ("architecture"@, JsonView::Text(image.architecture.word())),
            ("auto_update"@, JsonView::Bool(image.auto_update)),
            ("cached"@, JsonView::Bool(image.cached)),
            ("created_at"@, JsonView::Text(image.created_at)),
            ("expires_at"@, JsonView::Text(image.expires_at)),
            ("filename"@, JsonView::Text(image.filename)),
            ("fingerprint"@, JsonView::Text(image.fingerprint)),
            ("last_used_at"@, JsonView::Text(image.last_used_at)),
            ("profiles"@, texts_json(image.profiles)),
            ("properties"@, pairs_json(image.properties)),
            ("public"@, JsonView::Bool(image.public)),
            ("size"@, JsonView::Number(NumberView::Unsigned(image.size.0))),
            ("type"@, JsonView::Text(image.image_type.word())),
            ("update_source"@, update_source_json(image.update_source)),
            ("uploaded_at"@, JsonView::Text(image.uploaded_at)),
        ],
    )
}

/// Reading the document written for an alias gives the alias back.
pub proof fn lemma_alias_round_trip(alias: AliasView)
    ensures
        alias_of(alias_json(alias)) == Ok::<AliasView, DecodeError>(alias),
{
    reveal_strlit("name");
    reveal_strlit("description");
    assert("name"@.len() == 4 && "description"@.len() == 11);
    let json = alias_json(alias);
    let members = json->Object_0;
    lemma_find_at(members, "name"@, 0);
    lemma_find_at(members, "description"@, 1);
    assert(alias_members()[0] == "name"@ && alias_members()[1] == "description"@);
    assert(only_members(json, alias_members()));
}

/// Reading the array written for a list of aliases gives the list back.
pub proof fn lemma_aliases_round_trip(aliases: Seq<AliasView>)
    ensures
        aliases_of(aliases_json(aliases)) == Ok::<Seq<AliasView>, DecodeError>(aliases),
{
    let items = aliases_json(aliases)->Array_0;
    assert forall|i: int| 0 <= i < items.len() implies alias_of(#[trigger] items[i]) == Ok::<
        AliasView,
        DecodeError,
    >(aliases[i]) by {
        lemma_alias_round_trip(aliases[i]);
    }
    assert(aliases_of(aliases_json(aliases))->Ok_0 =~= aliases);
}

/// Reading the document written for an update source gives the source back.
pub proof fn lemma_image_source_round_trip(source: ImageSourceView)
    ensures
        image_source_of(image_source_json(source)) == Ok::<ImageSourceView, DecodeError>(source),
{
    reveal_strlit("alias");
    reveal_strlit("certificate");
    reveal_strlit("image_type");
    reveal_strlit("protocol");
    reveal_strlit("server");
    reveal_strlit("lxd");
    reveal_strlit("simplestreams");
    assert("alias"@.len() == 5 && "certificate"@.len() == 11 && "image_type"@.len() == 10
        && "protocol"@.len() == 8 && "server"@.len() == 6);
    assert("lxd"@.len() == 3 && "simplestreams"@.len() == 13);
    let members = image_source_json(source)->Object_0;
    lemma_find_at(members, "alias"@, 0);
    lemma_find_at(members, "certificate"@, 1);
    lemma_find_at(members, "image_type"@, 2);
    lemma_find_at(members, "protocol"@, 3);
    lemma_find_at(members, "server"@, 4);
    assert(protocol_of(source.protocol.word()) == Some(source.protocol));
    reveal_strlit("container");
    reveal_strlit("virtual-machine");
    assert("container"@.len() == 9 && "virtual-machine"@.len() == 15);
    assert(open_image_type_of(open_image_type_word(source.image_type)) == Some(
        source.image_type,
    ));
}

/// Each member of the document written for an image is found under its name.
pub proof fn lemma_image_members(image: ImageView)
    ensures
        ({
            let json = image_json(image);
            &&& member(json, "aliases"@) == Some(aliases_json(image.aliases))
            &&& member(json, "architecture"@) == Some(JsonView::Text(image.architecture.word()))
            &&& member(json, "auto_update"@) == Some(JsonView::Bool(image.auto_update))
            &&& member(json, "cached"@) == Some(JsonView::Bool(image.cached))
            &&& member(json, "created_at"@) == Some(JsonView::Text(image.created_at))
            &&& member(json, "expires_at"@) == Some(JsonView::Text(image.expires_at))
            &&& member(json, "filename"@) == Some(JsonView::Text(image.filename))
            &&& member(json, "fingerprint"@) == Some(JsonView::Text(image.fingerprint))
            &&& member(json, "last_used_at"@) == Some(JsonView::Text(image.last_used_at))
            &&& member(json, "profiles"@) == Some(texts_json(image.profiles))
            &&& member(json, "properties"@) == Some(pairs_json(image.properties))
            &&& member(json, "public"@) == Some(JsonView::Bool(image.public))
            &&& member(json, "size"@) == Some(
                JsonView::Number(NumberView::Unsigned(image.size.0)),
            )
            &&& member(json, "type"@) == Some(JsonView::Text(image.image_type.word()))
            &&& member(json, "update_source"@) == Some(update_source_json(image.update_source))
            &&& member(json, "uploaded_at"@) == Some(JsonView::Text(image.uploaded_at))
        }),
{
    reveal_strlit("aliases");
    reveal_strlit("architecture");
    reveal_strlit("auto_update");
    reveal_strlit("cached");
    reveal_strlit("created_at");
    reveal_strlit("expires_at");
    reveal_strlit("filename");
    reveal_strlit("fingerprint");
    reveal_strlit("last_used_at");
    reveal_strlit("profiles");
    reveal_strlit("properties");
    reveal_strlit("public");
    reveal_strlit("size");
    reveal_strlit("type");
    reveal_strlit("update_source");
    reveal_strlit("uploaded_at");
    assert("aliases"@.len() == 7 && "update_source"@.len() == 13);
    assert("architecture"@.len() == 12 && "architecture"@[0] == 'a');
    assert("last_used_at"@.len() == 12 && "last_used_at"@[0] == 'l');
    assert("auto_update"@.len() == 11 && "auto_update"@[0] == 'a');
    assert("fingerprint"@.len() == 11 && "fingerprint"@[0] == 'f');
    assert("uploaded_at"@.len() == 11 && "uploaded_at"@[0] == 'u');
    assert("cached"@.len() == 6 && "cached"@[0] == 'c');
    assert("public"@.len() == 6 && "public"@[0] == 'p');
    assert("created_at"@.len() == 10 && "created_at"@[0] == 'c');
    assert("expires_at"@.len() == 10 && "expires_at"@[0] == 'e');
    assert("properties"@.len() == 10 && "properties"@[0] == 'p');
    assert("filename"@.len() == 8 && "filename"@[0] == 'f');
    assert("profiles"@.len() == 8 && "profiles"@[0] == 'p');
    assert("size"@.len() == 4 && "size"@[0] == 's');
    assert("type"@.len() == 4 && "type"@[0] == 't');
    let members = image_json(image)->Object_0;
    lemma_find_at(members, "aliases"@, 0);
    lemma_find_at(members, "architecture"@, 1);
    lemma_find_at(members, "auto_update"@, 2);
    lemma_find_at(members, "cached"@, 3);
    lemma_find_at(members, "created_at"@, 4);
    lemma_find_at(members, "expires_at"@, 5);
    lemma_find_at(members, "filename"@, 6);
    lemma_find_at(members, "fingerprint"@, 7);
    lemma_find_at(members, "last_used_at"@, 8);
    lemma_find_at(members, "profiles"@, 9);
    lemma_find_at(members, "properties"@, 10);
    lemma_find_at(members, "public"@, 11);
    lemma_find_at(members, "size"@, 12);
    lemma_find_at(members, "type"@, 13);
    lemma_find_at(members, "update_source"@, 14);
    lemma_find_at(members, "uploaded_at"@, 15);
}

/// Whether an image is well formed: no property occurs twice.
pub open spec fn image_well_formed(image: ImageView) -> bool {
    distinct_keys(image.properties)
}

/// An image that was read is well formed.
pub proof fn lemma_read_image_is_well_formed(json: JsonView)
    ensures
        image_of(json) matches Ok(image) ==> image_well_formed(image),
{
    if image_of(json) is Ok {
        lemma_text_pairs_are_a_map(member(json, "properties"@)->Some_0);
    }
}

/// Reading the document written for an image gives the image back.
pub proof fn lemma_image_round_trip(image: ImageView)
    requires
        image_well_formed(image),
    ensures
        image_of(image_json(image)) == Ok::<ImageView, DecodeError>(image),
{
    let json = image_json(image);
    lemma_image_members(image);
    lemma_aliases_round_trip(image.aliases);
    lemma_arch_round_trip(image.architecture);
    lemma_texts_round_trip(image.profiles);
    lemma_pairs_round_trip(image.properties);
    reveal_strlit("container");
    reveal_strlit("virtual-machine");
    assert("container"@.len() == 9 && "virtual-machine"@.len() == 15);
    assert(image_type_of(image.image_type.word()) == Some(image.image_type));
    match image.update_source {
        Some(source) => {
            lemma_image_source_round_trip(source);
        },
        None => {},
    }
    assert(optional_update_source(json) == Ok::<Option<ImageSourceView>, DecodeError>(
        image.update_source,
    ));
    assert(required_aliases(json) == Ok::<Seq<AliasView>, DecodeError>(image.aliases));
}

impl Alias {
    /// Writes the alias as a document.
    pub fn encode(&self) -> (r: Json)
        ensures
            r@ == alias_json(self@),
    {
        let mut members: Vec<(String, Json)> = Vec::new();
        assert(members_view(members@) =~= seq![]);
        put(&mut members, "name", Json::text(self.name.as_str()));
        put(&mut members, "description", Json::text(self.description.as_str()));
        assert(members_view(members@) =~= alias_json(self@)->Object_0);
        Json::object(members)
    }

    /// Writes a list of aliases as an array.
    pub fn encode_all(aliases: &Vec<Alias>) -> (r: Json)
        ensures
            r@ == aliases_json(aliases_view(aliases@)),
    {
        let mut items: Vec<Json> = Vec::new();
        let mut i: usize = 0;
        while i < aliases.len()
            invariant
                i <= aliases.len(),
                items.len() == i,
                forall|k: int| 0 <= k < i ==> (#[trigger] items[k])@ == alias_json(aliases[k]@),
            decreases aliases.len() - i,
        {
            items.push(aliases[i].encode());
            i += 1;
        }
        assert(items_view(items@) =~= aliases_json(aliases_view(aliases@))->Array_0);
        Json::array(items)
    }
}

impl ImageSource {
    /// Writes the update source as a document.
    pub fn encode(&self) -> (r: Json)
        ensures
            r@ == image_source_json(self@),
    {
        let mut members: Vec<(String, Json)> = Vec::new();
        assert(members_view(members@) =~= seq![]);
        put(&mut members, "alias", Json::text(self.alias.as_str()));
        put(&mut members, "certificate", Json::text(self.certificate.as_str()));
        let image_type = match &self.image_type {
            Some(image_type) => image_type.as_str(),
            None => "",
        };
        proof {
            reveal_strlit("");
            assert(image_type@ =~= open_image_type_word(self.image_type));
        }
        put(&mut members, "image_type", Json::text(image_type));
        put(&mut members, "protocol", Json::text(self.protocol.as_str()));
        put(&mut members, "server", Json::text(self.server.as_str()));
        assert(members_view(members@) =~= image_source_json(self@)->Object_0);
        Json::object(members)
    }
}

impl Wire for Image {
    open spec fn encoded(value: ImageView) -> JsonView {
        image_json(value)
    }

    fn encode(&self) -> (r: Json) {
        let mut members: Vec<(String, Json)> = Vec::new();
        assert(members_view(members@) =~= seq![]);
        put(&mut members, "aliases", Alias::encode_all(&self.aliases));
        put(&mut members, "architecture", Json::text(self.architecture.as_str()));
        put(&mut members, "auto_update", Json::Bool(self.auto_update));
        put(&mut members, "cached", Json::Bool(self.cached));
        put(&mut members, "created_at", Json::text(self.created_at.as_str()));
        put(&mut members, "expires_at", Json::text(self.expires_at.as_str()));
        put(&mut members, "filename", Json::text(self.filename.as_str()));
        put(&mut members, "fingerprint", Json::text(self.fingerprint.as_str()));
        put(&mut members, "last_used_at", Json::text(self.last_used_at.as_str()));
        put(&mut members, "profiles", texts_to_json(&self.profiles));
        put(&mut members, "properties", pairs_to_json(&self.properties));
        put(&mut members, "public", Json::Bool(self.public));
        put(&mut members, "size", Json::unsigned(self.size.0));
        put(&mut members, "type", Json::text(self.image_type.as_str()));
        let update_source = match &self.update_source {
            Some(source) => source.encode(),
            None => Json::Null,
        };
        put(&mut members, "update_source", update_source);
        put(&mut members, "uploaded_at", Json::text(self.uploaded_at.as_str()));
        assert(members_view(members@) =~= image_json(self@)->Object_0);
        Json::object(members)
    }

    proof fn lemma_round_trip(value: ImageView) {
        lemma_image_round_trip(value);
    }
}

} // verus!
