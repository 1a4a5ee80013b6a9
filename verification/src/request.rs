//! The outbound payload for creating a server instance.
//!
//! The builder assembles a well-formed payload from caller-supplied
//! primitives; the encoder writes it as a JSON object that omits no
//! required field. An absent password serializes as the empty string,
//! never as a missing field: the service does not accept missing required
//! string fields.

use vstd::prelude::*;

use crate::error::DecodeError;
use crate::ids::{get_uuid, lemma_uuid_roundtrip, mem_uuid, Uuid};
use crate::instance::{
    decode_terrains, encode_terrains, terrain_seq_of, Terrain,
};
use crate::json::{
    decode_strings, encode_strings, get_bool, get_string, get_u32, lemma_lookup_at, mem_bool,
    mem_str, mem_u32, member, req_member, string_seq_of, views_of, Json,
};
use crate::num::{lemma_dec_roundtrip_u64, u64_to_dec};

verus! {

/// The simulation settings part of a create-instance request.
#[derive(Debug, Clone, PartialEq)]
pub struct DcsSettingsPayload {
    pub initial_server_name: String,
    pub initial_server_password: String,
    pub initial_max_players: u32,
    pub enable_io: bool,
    pub enable_os: bool,
    pub enable_lfs: bool,
    pub initial_use_voice_chat: bool,
}

pub struct DcsSettingsPayloadV {
    pub initial_server_name: Seq<char>,
    pub initial_server_password: Seq<char>,
    pub initial_max_players: u32,
    pub enable_io: bool,
    pub enable_os: bool,
    pub enable_lfs: bool,
    pub initial_use_voice_chat: bool,
}

impl View for DcsSettingsPayload {
    type V = DcsSettingsPayloadV;

    open spec fn view(&self) -> DcsSettingsPayloadV {
        DcsSettingsPayloadV {
            initial_server_name: self.initial_server_name@,
            initial_server_password: self.initial_server_password@,
            initial_max_players: self.initial_max_players,
            enable_io: self.enable_io,
            enable_os: self.enable_os,
            enable_lfs: self.enable_lfs,
            initial_use_voice_chat: self.initial_use_voice_chat,
        }
    }
}

/// What a JSON value denotes as a settings payload.
pub open spec fn spec_payload(j: Json) -> Option<DcsSettingsPayloadV> {
    let initial_server_name = mem_str(j, "initial_server_name"@);
    let initial_server_password = mem_str(j, "initial_server_password"@);
    let initial_max_players = mem_u32(j, "initial_max_players"@);
    let enable_io = mem_bool(j, "enable_io"@);
    let enable_os = mem_bool(j, "enable_os"@);
    let enable_lfs = mem_bool(j, "enable_lfs"@);
    let initial_use_voice_chat = mem_bool(j, "initial_use_voice_chat"@);
    if initial_server_name is Some && initial_server_password is Some && initial_max_players
        is Some && enable_io is Some && enable_os is Some && enable_lfs is Some
        && initial_use_voice_chat is Some {
        Some(
            DcsSettingsPayloadV {
                initial_server_name: initial_server_name->0,
                initial_server_password: initial_server_password->0,
                initial_max_players: initial_max_players->0,
                enable_io: enable_io->0,
                enable_os: enable_os->0,
                enable_lfs: enable_lfs->0,
                initial_use_voice_chat: initial_use_voice_chat->0,
            },
        )
    } else {
        None
    }
}

impl DcsSettingsPayload {
    /// Writes the payload as a JSON object. The object denotes the payload
    /// itself again: no required field is omitted, an absent password was
    /// already the empty string, and decoding gives back every field.
    pub fn encode(&self) -> (r: Json)
        ensures
            spec_payload(r) == Some(self@),
            mem_str(r, "initial_server_name"@) == Some(self.initial_server_name@),
            mem_str(r, "initial_server_password"@) == Some(self.initial_server_password@),
            mem_u32(r, "initial_max_players"@) == Some(self.initial_max_players),
            mem_bool(r, "enable_io"@) == Some(self.enable_io),
            mem_bool(r, "enable_os"@) == Some(self.enable_os),
            mem_bool(r, "enable_lfs"@) == Some(self.enable_lfs),
            mem_bool(r, "initial_use_voice_chat"@) == Some(self.initial_use_voice_chat),
    {
        let mut entries: Vec<(String, Json)> = Vec::new();
        entries.push(
            (String::from_str("initial_server_name"), Json::Str(self.initial_server_name.clone())),
        );
        entries.push(
            (
                String::from_str("initial_server_password"),
                Json::Str(self.initial_server_password.clone()),
            ),
        );
        entries.push(
            (
                String::from_str("initial_max_players"),
                Json::Num(u64_to_dec(self.initial_max_players as u64)),
            ),
        );
        entries.push((String::from_str("enable_io"), Json::Bool(self.enable_io)));
        entries.push((String::from_str("enable_os"), Json::Bool(self.enable_os)));
        entries.push((String::from_str("enable_lfs"), Json::Bool(self.enable_lfs)));
        entries.push(
            (String::from_str("initial_use_voice_chat"), Json::Bool(self.initial_use_voice_chat)),
        );
        let ghost o = entries@;
        let r = Json::Obj(entries);
        proof {
            reveal(crate::json::member);
            reveal(crate::json::mem_str);
            reveal(crate::json::mem_u32);
            reveal(crate::json::mem_bool);
            reveal_strlit("initial_server_name");
            reveal_strlit("initial_server_password");
            reveal_strlit("initial_max_players");
            reveal_strlit("enable_io");
            reveal_strlit("enable_os");
            reveal_strlit("enable_lfs");
            reveal_strlit("initial_use_voice_chat");
            // lengths, and a differing character for the same-length pairs,
            // separate the keys
            assert("initial_server_name"@.len() == 19);
            assert("initial_server_password"@.len() == 23);
            assert("initial_max_players"@.len() == 19);
            assert("enable_io"@.len() == 9);
            assert("enable_os"@.len() == 9);
            assert("enable_lfs"@.len() == 10);
            assert("initial_use_voice_chat"@.len() == 22);
            assert("initial_server_name"@[8] == 's');
            assert("initial_max_players"@[8] == 'm');
            assert("enable_io"@[7] == 'i');
            assert("enable_os"@[7] == 'o');
            lemma_lookup_at(o, "initial_server_name"@, 0);
            lemma_lookup_at(o, "initial_server_password"@, 1);
            lemma_lookup_at(o, "initial_max_players"@, 2);
            lemma_lookup_at(o, "enable_io"@, 3);
            lemma_lookup_at(o, "enable_os"@, 4);
            lemma_lookup_at(o, "enable_lfs"@, 5);
            lemma_lookup_at(o, "initial_use_voice_chat"@, 6);
            lemma_dec_roundtrip_u64(self.initial_max_players as u64);
            assert(spec_payload(r) == Some(self@));
        }
        r
    }

    pub fn decode(j: &Json) -> (r: Result<DcsSettingsPayload, DecodeError>)
        ensures
            r matches Ok(v) ==> spec_payload(*j) == Some(v@),
            r is Err ==> spec_payload(*j) is None,
    {
        let initial_server_name = get_string(j, "initial_server_name")?;
        let initial_server_password = get_string(j, "initial_server_password")?;
        let initial_max_players = get_u32(j, "initial_max_players")?;
        let enable_io = get_bool(j, "enable_io")?;
        let enable_os = get_bool(j, "enable_os")?;
        let enable_lfs = get_bool(j, "enable_lfs")?;
        let initial_use_voice_chat = get_bool(j, "initial_use_voice_chat")?;
        Ok(
            DcsSettingsPayload {
                initial_server_name,
                initial_server_password,
                initial_max_players,
                enable_io,
                enable_os,
                enable_lfs,
                initial_use_voice_chat,
            },
        )
    }
}

/// The full create-instance request payload.
#[derive(Debug, Clone, PartialEq)]
pub struct CreateInstanceRequest {
    pub product_id: Uuid,
    pub settings: DcsSettingsPayload,
    pub active_mods: Vec<String>,
    pub wanted_terrains: Vec<Terrain>,
}

pub struct CreateInstanceRequestV {
    pub product_id: Uuid,
    pub settings: DcsSettingsPayloadV,
    pub active_mods: Seq<Seq<char>>,
    pub wanted_terrains: Seq<Terrain>,
}

impl View for CreateInstanceRequest {
    type V = CreateInstanceRequestV;

    open spec fn view(&self) -> CreateInstanceRequestV {
        CreateInstanceRequestV {
            product_id: self.product_id,
            settings: self.settings@,
            active_mods: views_of(self.active_mods@),
            wanted_terrains: self.wanted_terrains@,
        }
    }
}

/// What a JSON value denotes as a create-instance request.
pub open spec fn spec_create_request(j: Json) -> Option<CreateInstanceRequestV> {
    let product_id = mem_uuid(j, "product_id"@);
    let settings = match member(j, "settings"@) {
        Some(sv) => spec_payload(sv),
        None => None,
    };
    let active_mods = match member(j, "active_mods"@) {
        Some(av) => string_seq_of(av),
        None => None,
    };
    let wanted_terrains = match member(j, "wanted_terrains"@) {
        Some(tv) => terrain_seq_of(tv),
        None => None,
    };
    if product_id is Some && settings is Some && active_mods is Some && wanted_terrains is Some {
        Some(
            CreateInstanceRequestV {
                product_id: product_id->0,
                settings: settings->0,
                active_mods: active_mods->0,
                wanted_terrains: wanted_terrains->0,
            },
        )
    } else {
        None
    }
}

impl CreateInstanceRequest {
    /// Assembles the outbound payload from caller-supplied primitives. An
    /// absent password becomes the empty string; nothing is validated
    /// locally, the service is the source of truth for identifiers.
    pub fn build(
        name: String,
        password: Option<String>,
        max_players: u32,
        plan: Uuid,
        active_mods: Vec<String>,
        terrains: Vec<Terrain>,
        use_voice_chat: bool,
        enable_io: bool,
        enable_os: bool,
        enable_lfs: bool,
    ) -> (r: CreateInstanceRequest)
        ensures
            r.product_id == plan,
            r.settings.initial_server_name@ == name@,
            password matches Some(p) ==> r.settings.initial_server_password@ == p@,
            password is None ==> r.settings.initial_server_password@ == Seq::<char>::empty(),
            r.settings.initial_max_players == max_players,
            r.settings.initial_use_voice_chat == use_voice_chat,
            r.settings.enable_io == enable_io,
            r.settings.enable_os == enable_os,
            r.settings.enable_lfs == enable_lfs,
            r.active_mods == active_mods,
            r.wanted_terrains == terrains,
    {
        let initial_server_password = match password {
            Some(p) => p,
            None => String::new(),
        };
        CreateInstanceRequest {
            product_id: plan,
            settings: DcsSettingsPayload {
                initial_server_name: name,
                initial_server_password,
                initial_max_players: max_players,
                initial_use_voice_chat: use_voice_chat,
                enable_io,
                enable_os,
                enable_lfs,
            },
            active_mods,
            wanted_terrains: terrains,
        }
    }

    /// Writes the request as a JSON object. The object denotes the request
    /// itself again: no required field is omitted, and decoding what was
    /// encoded gives back every field.
    pub fn encode(&self) -> (r: Json)
        ensures
            spec_create_request(r) == Some(self@),
            member(r, "product_id"@) is Some,
            member(r, "settings"@) is Some,
            member(r, "active_mods"@) is Some,
            member(r, "wanted_terrains"@) is Some,
    {
        let mut entries: Vec<(String, Json)> = Vec::new();
        entries.push((String::from_str("product_id"), Json::Str(self.product_id.hyphenated())));
        entries.push((String::from_str("settings"), self.settings.encode()));
        entries.push((String::from_str("active_mods"), encode_strings(&self.active_mods)));
        entries.push((String::from_str("wanted_terrains"), encode_terrains(&self.wanted_terrains)));
        let ghost o = entries@;
        let r = Json::Obj(entries);
        proof {
            reveal(crate::json::member);
            reveal(crate::ids::mem_uuid);
            reveal_strlit("product_id");
            reveal_strlit("settings");
            reveal_strlit("active_mods");
            reveal_strlit("wanted_terrains");
            assert("product_id"@.len() == 10);
            assert("settings"@.len() == 8);
            assert("active_mods"@.len() == 11);
            assert("wanted_terrains"@.len() == 15);
            lemma_lookup_at(o, "product_id"@, 0);
            lemma_lookup_at(o, "settings"@, 1);
            lemma_lookup_at(o, "active_mods"@, 2);
            lemma_lookup_at(o, "wanted_terrains"@, 3);
            lemma_uuid_roundtrip(self.product_id);
            assert(spec_create_request(r) == Some(self@));
        }
        r
    }

    pub fn decode(j: &Json) -> (r: Result<CreateInstanceRequest, DecodeError>)
        ensures
            r matches Ok(v) ==> spec_create_request(*j) == Some(v@),
            r is Err ==> spec_create_request(*j) is None,
    {
        let product_id = get_uuid(j, "product_id")?;
        let settings = DcsSettingsPayload::decode(req_member(j, "settings")?)?;
        let active_mods = decode_strings(req_member(j, "active_mods")?, "active_mods")?;
        let wanted_terrains = decode_terrains(req_member(j, "wanted_terrains")?, "wanted_terrains")?;
        Ok(CreateInstanceRequest { product_id, settings, active_mods, wanted_terrains })
    }
}

} // verus!
