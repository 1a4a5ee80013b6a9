//! Instance records: the provisioned remote game servers the coordinator
//! manages, their lifecycle status, and the purchasable terrains.
//!
//! Lifecycle states are labels assigned by the remote service and echoed
//! back verbatim; the client observes transitions, it never drives them.

use vstd::prelude::*;

use crate::dcs_settings::{spec_dcs_settings, DcsSettings, DcsSettingsV};
use crate::error::DecodeError;
use crate::ids::{get_uuid, mem_uuid, Uuid};
use crate::json::{
    bool_of, decode_strings, get_bool, get_opt_u32, get_opt_u8, get_string, get_u32, get_u64,
    mem_bool, mem_opt_u32, mem_opt_u8, mem_or_null, mem_str, mem_u32, mem_u64, member,
    opt_member, req_member, str_eq, str_of, string_seq_of, val_bool, views_of, Json,
};

verus! {

/// A purchasable simulation map. The set grows across schema revisions;
/// entries are never removed.
#[derive(Debug, Clone, Copy, PartialEq, Eq, Structural)]
pub enum Terrain {
    Afghanistan,
    Caucasus,
    Falklands,
    Iraq,
    Kola,
    MarianaIslands,
    Nevada,
    Normandy,
    PersianGulf,
    Sinai,
    Syria,
    TheChannel,
}

/// The wire name of a terrain.
pub open spec fn terrain_name(t: Terrain) -> Seq<char> {
    match t {
        Terrain::Afghanistan => "Afghanistan"@,
        Terrain::Caucasus => "Caucasus"@,
        Terrain::Falklands => "Falklands"@,
        Terrain::Iraq => "Iraq"@,
        Terrain::Kola => "Kola"@,
        Terrain::MarianaIslands => "MarianaIslands"@,
        Terrain::Nevada => "Nevada"@,
        Terrain::Normandy => "Normandy"@,
        Terrain::PersianGulf => "PersianGulf"@,
        Terrain::Sinai => "Sinai"@,
        Terrain::Syria => "Syria"@,
        Terrain::TheChannel => "TheChannel"@,
    }
}

/// The terrain a wire name denotes.
pub open spec fn terrain_of_name(s: Seq<char>) -> Option<Terrain> {
    if s == "Afghanistan"@ {
        Some(Terrain::Afghanistan)
    } else if s == "Caucasus"@ {
        Some(Terrain::Caucasus)
    } else if s == "Falklands"@ {
        Some(Terrain::Falklands)
    } else if s == "Iraq"@ {
        Some(Terrain::Iraq)
    } else if s == "Kola"@ {
        Some(Terrain::Kola)
    } else if s == "MarianaIslands"@ {
        Some(Terrain::MarianaIslands)
    } else if s == "Nevada"@ {
        Some(Terrain::Nevada)
    } else if s == "Normandy"@ {
        Some(Terrain::Normandy)
    } else if s == "PersianGulf"@ {
        Some(Terrain::PersianGulf)
    } else if s == "Sinai"@ {
        Some(Terrain::Sinai)
    } else if s == "Syria"@ {
        Some(Terrain::Syria)
    } else if s == "TheChannel"@ {
        Some(Terrain::TheChannel)
    } else {
        None
    }
}

/// What a JSON value denotes as a terrain.
pub open spec fn spec_terrain(v: Json) -> Option<Terrain> {
    match v {
        Json::Str(s) => terrain_of_name(s@),
        _ => None,
    }
}

impl Terrain {
    /// Each terrain's wire name denotes that terrain again.
    pub proof fn lemma_name_roundtrip(t: Terrain)
        ensures
            terrain_of_name(terrain_name(t)) == Some(t),
    {
        reveal_strlit("Afghanistan");
        reveal_strlit("Caucasus");
        reveal_strlit("Falklands");
        reveal_strlit("Iraq");
        reveal_strlit("Kola");
        reveal_strlit("MarianaIslands");
        reveal_strlit("Nevada");
        reveal_strlit("Normandy");
        reveal_strlit("PersianGulf");
        reveal_strlit("Sinai");
        reveal_strlit("Syria");
        reveal_strlit("TheChannel");
        // lengths, and a differing character for the same-length pairs,
        // separate the names
        assert("Afghanistan"@.len() == 11);
        assert("Caucasus"@.len() == 8);
        assert("Falklands"@.len() == 9);
        assert("Iraq"@.len() == 4);
        assert("Kola"@.len() == 4);
        assert("MarianaIslands"@.len() == 14);
        assert("Nevada"@.len() == 6);
        assert("Normandy"@.len() == 8);
        assert("PersianGulf"@.len() == 11);
        assert("Sinai"@.len() == 5);
        assert("Syria"@.len() == 5);
        assert("TheChannel"@.len() == 10);
        assert("Iraq"@[0] == 'I');
        assert("Kola"@[0] == 'K');
        assert("Caucasus"@[0] == 'C');
        assert("Normandy"@[0] == 'N');
        assert("Afghanistan"@[0] == 'A');
        assert("PersianGulf"@[0] == 'P');
        assert("Sinai"@[1] == 'i');
        assert("Syria"@[1] == 'y');
        match t {
            Terrain::Afghanistan => assert(terrain_of_name(terrain_name(t)) == Some(t)),
            Terrain::Caucasus => assert(terrain_of_name(terrain_name(t)) == Some(t)),
            Terrain::Falklands => assert(terrain_of_name(terrain_name(t)) == Some(t)),
            Terrain::Iraq => assert(terrain_of_name(terrain_name(t)) == Some(t)),
            Terrain::Kola => assert(terrain_of_name(terrain_name(t)) == Some(t)),
            Terrain::MarianaIslands => assert(terrain_of_name(terrain_name(t)) == Some(t)),
            Terrain::Nevada => assert(terrain_of_name(terrain_name(t)) == Some(t)),
            Terrain::Normandy => assert(terrain_of_name(terrain_name(t)) == Some(t)),
            Terrain::PersianGulf => assert(terrain_of_name(terrain_name(t)) == Some(t)),
            Terrain::Sinai => assert(terrain_of_name(terrain_name(t)) == Some(t)),
            Terrain::Syria => assert(terrain_of_name(terrain_name(t)) == Some(t)),
            Terrain::TheChannel => assert(terrain_of_name(terrain_name(t)) == Some(t)),
        }
    }

    pub fn encode(&self) -> (r: Json)
        ensures
            spec_terrain(r) == Some(*self),
            str_of(r) == Some(terrain_name(*self)),
    {
        proof {
            Terrain::lemma_name_roundtrip(*self);
        }
        let name = match self {
            Terrain::Afghanistan => "Afghanistan",
            Terrain::Caucasus => "Caucasus",
            Terrain::Falklands => "Falklands",
            Terrain::Iraq => "Iraq",
            Terrain::Kola => "Kola",
            Terrain::MarianaIslands => "MarianaIslands",
            Terrain::Nevada => "Nevada",
            Terrain::Normandy => "Normandy",
            Terrain::PersianGulf => "PersianGulf",
            Terrain::Sinai => "Sinai",
            Terrain::Syria => "Syria",
            Terrain::TheChannel => "TheChannel",
        };
        Json::Str(String::from_str(name))
    }

    pub fn decode(j: &Json) -> (r: Result<Terrain, DecodeError>)
        ensures
            r matches Ok(t) ==> spec_terrain(*j) == Some(t),
            r is Err ==> spec_terrain(*j) is None,
    {
        match j {
            Json::Str(s) => {
                let n = s.as_str();
                if str_eq(n, "Afghanistan") {
                    Ok(Terrain::Afghanistan)
                } else if str_eq(n, "Caucasus") {
                    Ok(Terrain::Caucasus)
                } else if str_eq(n, "Falklands") {
                    Ok(Terrain::Falklands)
                } else if str_eq(n, "Iraq") {
                    Ok(Terrain::Iraq)
                } else if str_eq(n, "Kola") {
                    Ok(Terrain::Kola)
                } else if str_eq(n, "MarianaIslands") {
                    Ok(Terrain::MarianaIslands)
                } else if str_eq(n, "Nevada") {
                    Ok(Terrain::Nevada)
                } else if str_eq(n, "Normandy") {
                    Ok(Terrain::Normandy)
                } else if str_eq(n, "PersianGulf") {
                    Ok(Terrain::PersianGulf)
                } else if str_eq(n, "Sinai") {
                    Ok(Terrain::Sinai)
                } else if str_eq(n, "Syria") {
                    Ok(Terrain::Syria)
                } else if str_eq(n, "TheChannel") {
                    Ok(Terrain::TheChannel)
                } else {
                    Err(DecodeError::at("terrain"))
                }
            },
            _ => Err(DecodeError::at("terrain")),
        }
    }
}

/// What a sequence of JSON values denotes as terrains, every element one.
pub open spec fn terrains_of(a: Seq<Json>) -> Option<Seq<Terrain>>
    decreases a.len(),
{
    if a.len() == 0 {
        Some(Seq::empty())
    } else {
        match (terrains_of(a.drop_last()), spec_terrain(a.last())) {
            (Some(p), Some(t)) => Some(p.push(t)),
            _ => None,
        }
    }
}

/// What a JSON value denotes as an array of terrains.
pub open spec fn terrain_seq_of(v: Json) -> Option<Seq<Terrain>> {
    match v {
        Json::Arr(a) => terrains_of(a@),
        _ => None,
    }
}

proof fn lemma_terrains_of_bad(a: Seq<Json>, i: int)
    requires
        0 <= i < a.len(),
        spec_terrain(a[i]) is None,
    ensures
        terrains_of(a) is None,
    decreases a.len(),
{
    if i < a.len() - 1 {
        assert(a.drop_last()[i] == a[i]);
        lemma_terrains_of_bad(a.drop_last(), i);
    }
}

/// Decodes a JSON array of terrain names.
pub fn decode_terrains(c: &Json, k: &str) -> (r: Result<Vec<Terrain>, DecodeError>)
    ensures
        r matches Ok(v) ==> terrain_seq_of(*c) == Some(v@),
        r is Err ==> terrain_seq_of(*c) is None,
{
    match c {
        Json::Arr(a) => {
            let mut out: Vec<Terrain> = Vec::new();
            let n = a.len();
            let mut i: usize = 0;
            proof {
                assert(a@.take(0) =~= Seq::<Json>::empty());
            }
            while i < n
                invariant
                    i <= n == a@.len(),
                    *c == Json::Arr(*a),
                    terrains_of(a@.take(i as int)) == Some(out@),
                decreases n - i,
            {
                match Terrain::decode(&a[i]) {
                    Ok(t) => {
                        out.push(t);
                        proof {
                            assert(a@.take(i as int + 1).drop_last() =~= a@.take(i as int));
                            assert(a@.take(i as int + 1).last() == a@[i as int]);
                        }
                    },
                    Err(_) => {
                        proof {
                            lemma_terrains_of_bad(a@, i as int);
                        }
                        return Err(DecodeError::at(k));
                    },
                }
                i += 1;
            }
            proof {
                assert(a@.take(n as int) =~= a@);
            }
            Ok(out)
        },
        _ => Err(DecodeError::at(k)),
    }
}

/// Encodes terrains as a JSON array of their wire names.
pub fn encode_terrains(ts: &Vec<Terrain>) -> (r: Json)
    ensures
        terrain_seq_of(r) == Some(ts@),
{
    let mut items: Vec<Json> = Vec::new();
    let n = ts.len();
    let mut i: usize = 0;
    proof {
        assert(ts@.take(0) =~= Seq::<Terrain>::empty());
        assert(terrains_of(items@) == Some(Seq::<Terrain>::empty()));
    }
    while i < n
        invariant
            i <= n == ts@.len(),
            terrains_of(items@) == Some(ts@.take(i as int)),
        decreases n - i,
    {
        let ghost prev = items@;
        items.push(ts[i].encode());
        proof {
            assert(items@.drop_last() =~= prev);
            assert(ts@.take(i as int + 1) =~= ts@.take(i as int).push(ts@[i as int]));
        }
        i += 1;
    }
    proof {
        assert(ts@.take(n as int) =~= ts@);
    }
    Json::Arr(items)
}

/// Why a server stopped, as the service reports it.
#[derive(Debug, Clone, Copy, PartialEq, Eq, Hash, Structural)]
pub enum InstanceStoppedReason {
    StoppedNormally,
    StoppedUnexpectedly,
    MaxTriesReached,
}

pub open spec fn reason_name(x: InstanceStoppedReason) -> Seq<char> {
    match x {
        InstanceStoppedReason::StoppedNormally => "StoppedNormally"@,
        InstanceStoppedReason::StoppedUnexpectedly => "StoppedUnexpectedly"@,
        InstanceStoppedReason::MaxTriesReached => "MaxTriesReached"@,
    }
}

pub open spec fn reason_of_name(s: Seq<char>) -> Option<InstanceStoppedReason> {
    if s == "StoppedNormally"@ {
        Some(InstanceStoppedReason::StoppedNormally)
    } else if s == "StoppedUnexpectedly"@ {
        Some(InstanceStoppedReason::StoppedUnexpectedly)
    } else if s == "MaxTriesReached"@ {
        Some(InstanceStoppedReason::MaxTriesReached)
    } else {
        None
    }
}

/// What a JSON value denotes as a stopped reason.
pub open spec fn spec_reason(v: Json) -> Option<InstanceStoppedReason> {
    match v {
        Json::Str(s) => reason_of_name(s@),
        _ => None,
    }
}

impl InstanceStoppedReason {
    /// Each reason's wire name denotes that reason again.
    pub proof fn lemma_name_roundtrip(x: InstanceStoppedReason)
        ensures
            reason_of_name(reason_name(x)) == Some(x),
    {
        reveal_strlit("StoppedNormally");
        reveal_strlit("StoppedUnexpectedly");
        reveal_strlit("MaxTriesReached");
        assert("StoppedNormally"@.len() == 15);
        assert("StoppedUnexpectedly"@.len() == 19);
        assert("MaxTriesReached"@.len() == 15);
        assert("StoppedNormally"@[0] == 'S');
        assert("MaxTriesReached"@[0] == 'M');
        match x {
            InstanceStoppedReason::StoppedNormally => assert(reason_of_name(reason_name(x))
                == Some(x)),
            InstanceStoppedReason::StoppedUnexpectedly => assert(reason_of_name(reason_name(x))
                == Some(x)),
            InstanceStoppedReason::MaxTriesReached => assert(reason_of_name(reason_name(x))
                == Some(x)),
        }
    }

    pub fn encode(&self) -> (r: Json)
        ensures
            spec_reason(r) == Some(*self),
            str_of(r) == Some(reason_name(*self)),
    {
        proof {
            InstanceStoppedReason::lemma_name_roundtrip(*self);
        }
        let name = match self {
            InstanceStoppedReason::StoppedNormally => "StoppedNormally",
            InstanceStoppedReason::StoppedUnexpectedly => "StoppedUnexpectedly",
            InstanceStoppedReason::MaxTriesReached => "MaxTriesReached",
        };
        Json::Str(String::from_str(name))
    }

    pub fn decode(j: &Json) -> (r: Result<InstanceStoppedReason, DecodeError>)
        ensures
            r matches Ok(x) ==> spec_reason(*j) == Some(x),
            r is Err ==> spec_reason(*j) is None,
    {
        match j {
            Json::Str(s) => {
                let n = s.as_str();
                if str_eq(n, "StoppedNormally") {
                    Ok(InstanceStoppedReason::StoppedNormally)
                } else if str_eq(n, "StoppedUnexpectedly") {
                    Ok(InstanceStoppedReason::StoppedUnexpectedly)
                } else if str_eq(n, "MaxTriesReached") {
                    Ok(InstanceStoppedReason::MaxTriesReached)
                } else {
                    Err(DecodeError::at("reason"))
                }
            },
            _ => Err(DecodeError::at("reason")),
        }
    }
}

/// The remote lifecycle of an instance: provisioning phases, steady states,
/// and pending operator intent. Exactly one variant is active at a time;
/// transitions happen server-side and are observed, never driven, here.
#[derive(Debug, Clone, PartialEq)]
pub enum InstanceStatus {
    InstallingBaseGame { progress: Option<u8> },
    InstallingTerrains {
        installed: Vec<Terrain>,
        processing: Option<Terrain>,
        processing_progress: Option<u8>,
    },
    InstallingMods,
    InstallingPost,
    ServerStarted,
    ServerStopped { was_error: bool, reason: InstanceStoppedReason },
    ServerExpired,
    ServerDeleted,
    WantServerStarted { current_try: u32 },
    WantServerStopped { error_passthrough: Option<(bool, InstanceStoppedReason)> },
    WantUpdateServer,
}

pub enum InstanceStatusV {
    InstallingBaseGame { progress: Option<u8> },
    InstallingTerrains {
        installed: Seq<Terrain>,
        processing: Option<Terrain>,
        processing_progress: Option<u8>,
    },
    InstallingMods,
    InstallingPost,
    ServerStarted,
    ServerStopped { was_error: bool, reason: InstanceStoppedReason },
    ServerExpired,
    ServerDeleted,
    WantServerStarted { current_try: u32 },
    WantServerStopped { error_passthrough: Option<(bool, InstanceStoppedReason)> },
    WantUpdateServer,
}

impl View for InstanceStatus {
    type V = InstanceStatusV;

    open spec fn view(&self) -> InstanceStatusV {
        match self {
            InstanceStatus::InstallingBaseGame { progress } => InstanceStatusV::InstallingBaseGame {
                progress: *progress,
            },
            InstanceStatus::InstallingTerrains { installed, processing, processing_progress } => {
                InstanceStatusV::InstallingTerrains {
                    installed: installed@,
                    processing: *processing,
                    processing_progress: *processing_progress,
                }
            },
            InstanceStatus::InstallingMods => InstanceStatusV::InstallingMods,
            InstanceStatus::InstallingPost => InstanceStatusV::InstallingPost,
            InstanceStatus::ServerStarted => InstanceStatusV::ServerStarted,
            InstanceStatus::ServerStopped { was_error, reason } => InstanceStatusV::ServerStopped {
                was_error: *was_error,
                reason: *reason,
            },
            InstanceStatus::ServerExpired => InstanceStatusV::ServerExpired,
            InstanceStatus::ServerDeleted => InstanceStatusV::ServerDeleted,
            InstanceStatus::WantServerStarted { current_try } => InstanceStatusV::WantServerStarted {
                current_try: *current_try,
            },
            InstanceStatus::WantServerStopped { error_passthrough } => {
                InstanceStatusV::WantServerStopped { error_passthrough: *error_passthrough }
            },
            InstanceStatus::WantUpdateServer => InstanceStatusV::WantUpdateServer,
        }
    }
}

/// What a JSON value denotes as a lifecycle status. A variant without
/// fields travels as its bare name; one with fields travels as a
/// single-member object mapping the name to the fields.
pub open spec fn spec_status(j: Json) -> Option<InstanceStatusV> {
    match j {
        Json::Str(s) => if s@ == "InstallingMods"@ {
            Some(InstanceStatusV::InstallingMods)
        } else if s@ == "InstallingPost"@ {
            Some(InstanceStatusV::InstallingPost)
        } else if s@ == "ServerStarted"@ {
            Some(InstanceStatusV::ServerStarted)
        } else if s@ == "ServerExpired"@ {
            Some(InstanceStatusV::ServerExpired)
        } else if s@ == "ServerDeleted"@ {
            Some(InstanceStatusV::ServerDeleted)
        } else if s@ == "WantUpdateServer"@ {
            Some(InstanceStatusV::WantUpdateServer)
        } else {
            None
        },
        Json::Obj(o) => if o.len() == 1 {
            let k = o[0].0@;
            let v = o[0].1;
            if k == "InstallingBaseGame"@ {
                match mem_opt_u8(v, "progress"@) {
                    Some(progress) => Some(InstanceStatusV::InstallingBaseGame { progress }),
                    None => None,
                }
            } else if k == "InstallingTerrains"@ {
                let installed = match member(v, "installed"@) {
                    Some(iv) => terrain_seq_of(iv),
                    None => None,
                };
                let processing = match mem_or_null(v, "processing"@) {
                    None => Some(Option::<Terrain>::None),
                    Some(pv) => match spec_terrain(pv) {
                        Some(t) => Some(Some(t)),
                        None => None,
                    },
                };
                let processing_progress = mem_opt_u8(v, "processing_progress"@);
                if installed is Some && processing is Some && processing_progress is Some {
                    Some(
                        InstanceStatusV::InstallingTerrains {
                            installed: installed->0,
                            processing: processing->0,
                            processing_progress: processing_progress->0,
                        },
                    )
                } else {
                    None
                }
            } else if k == "ServerStopped"@ {
                let was_error = mem_bool(v, "was_error"@);
                let reason = match member(v, "reason"@) {
                    Some(rv) => spec_reason(rv),
                    None => None,
                };
                if was_error is Some && reason is Some {
                    Some(
                        InstanceStatusV::ServerStopped {
                            was_error: was_error->0,
                            reason: reason->0,
                        },
                    )
                } else {
                    None
                }
            } else if k == "WantServerStarted"@ {
                match mem_u32(v, "current_try"@) {
                    Some(current_try) => Some(InstanceStatusV::WantServerStarted { current_try }),
                    None => None,
                }
            } else if k == "WantServerStopped"@ {
                match mem_or_null(v, "error_passthrough"@) {
                    None => Some(
                        InstanceStatusV::WantServerStopped { error_passthrough: None },
                    ),
                    Some(ev) => match ev {
                        Json::Arr(a) => if a@.len() == 2 {
                            match (bool_of(a@[0]), spec_reason(a@[1])) {
                                (Some(w), Some(rr)) => Some(
                                    InstanceStatusV::WantServerStopped {
                                        error_passthrough: Some((w, rr)),
                                    },
                                ),
                                _ => None,
                            }
                        } else {
                            None
                        },
                        _ => None,
                    },
                }
            } else {
                None
            }
        } else {
            None
        },
        _ => None,
    }
}

impl InstanceStatus {
    pub fn decode(j: &Json) -> (r: Result<InstanceStatus, DecodeError>)
        ensures
            r matches Ok(st) ==> spec_status(*j) == Some(st@),
            r is Err ==> spec_status(*j) is None,
    {
        match j {
            Json::Str(s) => {
                let n = s.as_str();
                if str_eq(n, "InstallingMods") {
                    Ok(InstanceStatus::InstallingMods)
                } else if str_eq(n, "InstallingPost") {
                    Ok(InstanceStatus::InstallingPost)
                } else if str_eq(n, "ServerStarted") {
                    Ok(InstanceStatus::ServerStarted)
                } else if str_eq(n, "ServerExpired") {
                    Ok(InstanceStatus::ServerExpired)
                } else if str_eq(n, "ServerDeleted") {
                    Ok(InstanceStatus::ServerDeleted)
                } else if str_eq(n, "WantUpdateServer") {
                    Ok(InstanceStatus::WantUpdateServer)
                } else {
                    Err(DecodeError::at("status"))
                }
            },
            Json::Obj(entries) => {
                if entries.len() != 1 {
                    return Err(DecodeError::at("status"));
                }
                let k = entries[0].0.as_str();
                let v = &entries[0].1;
                if str_eq(k, "InstallingBaseGame") {
                    let progress = get_opt_u8(v, "progress")?;
                    Ok(InstanceStatus::InstallingBaseGame { progress })
                } else if str_eq(k, "InstallingTerrains") {
                    let iv = req_member(v, "installed")?;
                    let installed = decode_terrains(iv, "installed")?;
                    let processing = match opt_member(v, "processing") {
                        None => None,
                        Some(pv) => Some(Terrain::decode(pv)?),
                    };
                    let processing_progress = get_opt_u8(v, "processing_progress")?;
                    Ok(
                        InstanceStatus::InstallingTerrains {
                            installed,
                            processing,
                            processing_progress,
                        },
                    )
                } else if str_eq(k, "ServerStopped") {
                    let was_error = get_bool(v, "was_error")?;
                    let rv = req_member(v, "reason")?;
                    let reason = InstanceStoppedReason::decode(rv)?;
                    Ok(InstanceStatus::ServerStopped { was_error, reason })
                } else if str_eq(k, "WantServerStarted") {
                    let current_try = get_u32(v, "current_try")?;
                    Ok(InstanceStatus::WantServerStarted { current_try })
                } else if str_eq(k, "WantServerStopped") {
                    let error_passthrough = match opt_member(v, "error_passthrough") {
                        None => None,
                        Some(ev) => match ev {
                            Json::Arr(a) => {
                                if a.len() != 2 {
                                    return Err(DecodeError::at("error_passthrough"));
                                }
                                let w = val_bool(&a[0], "error_passthrough")?;
                                let rr = InstanceStoppedReason::decode(&a[1])?;
                                Some((w, rr))
                            },
                            _ => {
                                return Err(DecodeError::at("error_passthrough"));
                            },
                        },
                    };
                    Ok(InstanceStatus::WantServerStopped { error_passthrough })
                } else {
                    Err(DecodeError::at("status"))
                }
            },
            _ => Err(DecodeError::at("status")),
        }
    }
}

/// A provisioned remote game server, as the service reports it. The client
/// holds only transient, immutable copies returned from calls.
#[derive(Debug, Clone, PartialEq)]
pub struct Instance {
    pub id: Uuid,
    pub node_id: Uuid,
    pub user_id: String,
    pub product_id: Uuid,
    pub ip: String,
    pub port: u32,
    pub webgui_port: u32,
    pub ftp_port: u32,
    pub ftp_username: String,
    pub ftp_password: String,
    pub pid: Option<u32>,
    pub status: InstanceStatus,
    pub want_delete: bool,
    pub wanted_terrains: Vec<Terrain>,
    pub rented_at: u64,
    pub rented_until: Option<u32>,
    pub active_mods: Vec<String>,
    pub created_at: String,
    pub dcs_settings: Option<DcsSettings>,
}

pub struct InstanceV {
    pub id: Uuid,
    pub node_id: Uuid,
    pub user_id: Seq<char>,
    pub product_id: Uuid,
    pub ip: Seq<char>,
    pub port: u32,
    pub webgui_port: u32,
    pub ftp_port: u32,
    pub ftp_username: Seq<char>,
    pub ftp_password: Seq<char>,
    pub pid: Option<u32>,
    pub status: InstanceStatusV,
    pub want_delete: bool,
    pub wanted_terrains: Seq<Terrain>,
    pub rented_at: u64,
    pub rented_until: Option<u32>,
    pub active_mods: Seq<Seq<char>>,
    pub created_at: Seq<char>,
    pub dcs_settings: Option<DcsSettingsV>,
}

impl View for Instance {
    type V = InstanceV;

    open spec fn view(&self) -> InstanceV {
        InstanceV {
            id: self.id,
            node_id: self.node_id,
            user_id: self.user_id@,
            product_id: self.product_id,
            ip: self.ip@,
            port: self.port,
            webgui_port: self.webgui_port,
            ftp_port: self.ftp_port,
            ftp_username: self.ftp_username@,
            ftp_password: self.ftp_password@,
            pid: self.pid,
            status: self.status@,
            want_delete: self.want_delete,
            wanted_terrains: self.wanted_terrains@,
            rented_at: self.rented_at,
            rented_until: self.rented_until,
            active_mods: views_of(self.active_mods@),
            created_at: self.created_at@,
            dcs_settings: match self.dcs_settings {
                Some(d) => Some(d@),
                None => None,
            },
        }
    }
}

/// What a JSON value denotes as an instance record.
pub open spec fn spec_instance(j: Json) -> Option<InstanceV> {
    let id = mem_uuid(j, "id"@);
    let node_id = mem_uuid(j, "node_id"@);
    let user_id = mem_str(j, "user_id"@);
    let product_id = mem_uuid(j, "product_id"@);
    let ip = mem_str(j, "ip"@);
    let port = mem_u32(j, "port"@);
    let webgui_port = mem_u32(j, "webgui_port"@);
    let ftp_port = mem_u32(j, "ftp_port"@);
    let ftp_username = mem_str(j, "ftp_username"@);
    let ftp_password = mem_str(j, "ftp_password"@);
    let pid = mem_opt_u32(j, "pid"@);
    let status = match member(j, "status"@) {
        Some(sv) => spec_status(sv),
        None => None,
    };
    let want_delete = mem_bool(j, "want_delete"@);
    let wanted_terrains = match member(j, "wanted_terrains"@) {
        Some(tv) => terrain_seq_of(tv),
        None => None,
    };
    let rented_at = mem_u64(j, "rented_at"@);
    let rented_until = mem_opt_u32(j, "rented_until"@);
    let active_mods = match member(j, "active_mods"@) {
        Some(av) => string_seq_of(av),
        None => None,
    };
    let created_at = mem_str(j, "created_at"@);
    let dcs_settings = match mem_or_null(j, "dcs_settings"@) {
        None => Some(Option::<DcsSettingsV>::None),
        Some(dv) => match spec_dcs_settings(dv) {
            Some(d) => Some(Some(d)),
            None => None,
        },
    };
    if id is Some && node_id is Some && user_id is Some && product_id is Some && ip is Some
        && port is Some && webgui_port is Some && ftp_port is Some && ftp_username is Some
        && ftp_password is Some && pid is Some && status is Some && want_delete is Some
        && wanted_terrains is Some && rented_at is Some && rented_until is Some && active_mods
        is Some && created_at is Some && dcs_settings is Some {
        Some(
            InstanceV {
                id: id->0,
                node_id: node_id->0,
                user_id: user_id->0,
                product_id: product_id->0,
                ip: ip->0,
                port: port->0,
                webgui_port: webgui_port->0,
                ftp_port: ftp_port->0,
                ftp_username: ftp_username->0,
                ftp_password: ftp_password->0,
                pid: pid->0,
                status: status->0,
                want_delete: want_delete->0,
                wanted_terrains: wanted_terrains->0,
                rented_at: rented_at->0,
                rented_until: rented_until->0,
                active_mods: active_mods->0,
                created_at: created_at->0,
                dcs_settings: dcs_settings->0,
            },
        )
    } else {
        None
    }
}

impl Instance {
    pub fn decode(j: &Json) -> (r: Result<Instance, DecodeError>)
        ensures
            r matches Ok(v) ==> spec_instance(*j) == Some(v@),
            r is Err ==> spec_instance(*j) is None,
    {
        let id = get_uuid(j, "id")?;
        let node_id = get_uuid(j, "node_id")?;
        let user_id = get_string(j, "user_id")?;
        let product_id = get_uuid(j, "product_id")?;
        let ip = get_string(j, "ip")?;
        let port = get_u32(j, "port")?;
        let webgui_port = get_u32(j, "webgui_port")?;
        let ftp_port = get_u32(j, "ftp_port")?;
        let ftp_username = get_string(j, "ftp_username")?;
        let ftp_password = get_string(j, "ftp_password")?;
        let pid = get_opt_u32(j, "pid")?;
        let status = InstanceStatus::decode(req_member(j, "status")?)?;
        let want_delete = get_bool(j, "want_delete")?;
        let wanted_terrains = decode_terrains(req_member(j, "wanted_terrains")?, "wanted_terrains")?;
        let rented_at = get_u64(j, "rented_at")?;
        let rented_until = get_opt_u32(j, "rented_until")?;
        let active_mods = decode_strings(req_member(j, "active_mods")?, "active_mods")?;
        let created_at = get_string(j, "created_at")?;
        let dcs_settings = match opt_member(j, "dcs_settings") {
            None => None,
            Some(dv) => Some(DcsSettings::decode(dv)?),
        };
        Ok(
            Instance {
                id,
                node_id,
                user_id,
                product_id,
                ip,
                port,
                webgui_port,
                ftp_port,
                ftp_username,
                ftp_password,
                pid,
                status,
                want_delete,
                wanted_terrains,
                rented_at,
                rented_until,
                active_mods,
                created_at,
                dcs_settings,
            },
        )
    }
}

/// What a sequence of JSON values denotes as instances, every element one.
pub open spec fn instances_of(a: Seq<Json>) -> Option<Seq<InstanceV>>
    decreases a.len(),
{
    if a.len() == 0 {
        Some(Seq::empty())
    } else {
        match (instances_of(a.drop_last()), spec_instance(a.last())) {
            (Some(p), Some(v)) => Some(p.push(v)),
            _ => None,
        }
    }
}

/// What a JSON value denotes as an array of instances.
pub open spec fn instance_seq_of(v: Json) -> Option<Seq<InstanceV>> {
    match v {
        Json::Arr(a) => instances_of(a@),
        _ => None,
    }
}

proof fn lemma_instances_of_bad(a: Seq<Json>, i: int)
    requires
        0 <= i < a.len(),
        spec_instance(a[i]) is None,
    ensures
        instances_of(a) is None,
    decreases a.len(),
{
    if i < a.len() - 1 {
        assert(a.drop_last()[i] == a[i]);
        lemma_instances_of_bad(a.drop_last(), i);
    }
}

/// The views of a sequence of instances.
pub open spec fn instance_views(xs: Seq<Instance>) -> Seq<InstanceV> {
    xs.map_values(|x: Instance| x@)
}

/// Decodes a JSON array of instance records.
pub fn decode_instances(c: &Json, k: &str) -> (r: Result<Vec<Instance>, DecodeError>)
    ensures
        r matches Ok(v) ==> instance_seq_of(*c) == Some(instance_views(v@)),
        r is Err ==> instance_seq_of(*c) is None,
{
    match c {
        Json::Arr(a) => {
            let mut out: Vec<Instance> = Vec::new();
            let n = a.len();
            let mut i: usize = 0;
            proof {
                assert(a@.take(0) =~= Seq::<Json>::empty());
                assert(instance_views(out@) =~= Seq::<InstanceV>::empty());
            }
            while i < n
                invariant
                    i <= n == a@.len(),
                    *c == Json::Arr(*a),
                    instances_of(a@.take(i as int)) == Some(instance_views(out@)),
                decreases n - i,
            {
                match Instance::decode(&a[i]) {
                    Ok(x) => {
                        let ghost prev = out@;
                        out.push(x);
                        proof {
                            assert(a@.take(i as int + 1).drop_last() =~= a@.take(i as int));
                            assert(a@.take(i as int + 1).last() == a@[i as int]);
                            assert(instance_views(out@) =~= instance_views(prev).push(
                                out@.last()@,
                            ));
                        }
                    },
                    Err(_) => {
                        proof {
                            lemma_instances_of_bad(a@, i as int);
                        }
                        return Err(DecodeError::at(k));
                    },
                }
                i += 1;
            }
            proof {
                assert(a@.take(n as int) =~= a@);
            }
            Ok(out)
        },
        _ => Err(DecodeError::at(k)),
    }
}

} // verus!
