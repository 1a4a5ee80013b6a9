//! An earlier schema revision of the instance record, as the node-side API
//! reports it. Kept as its own shape, with its own terrain set and status
//! variants, so that wire compatibility with deployments still speaking
//! this revision is bit-exact rather than guessed.

use vstd::prelude::*;

use crate::dcs_settings::{spec_dcs_settings, DcsSettings, DcsSettingsV};
use crate::error::DecodeError;
use crate::ids::{get_uuid, mem_uuid, Uuid};
use crate::json::{
    decode_strings, get_bool, get_opt_u32, get_opt_u8, get_string, get_u32, get_u64, mem_bool,
    mem_opt_u32, mem_opt_u8, mem_or_null, mem_str, mem_u32, mem_u64, member, opt_member,
    req_member, str_eq, str_of, string_seq_of, views_of, Json,
};

verus! {

/// The terrain set this revision knew.
#[derive(Debug, Clone, Copy, PartialEq, Eq, Structural)]
pub enum Terrain {
    Caucasus,
    Falklands,
    Kola,
    MarianaIslands,
    Nevada,
    Normandy,
    PersianGulf,
    Sinai,
    Syria,
    TheChannel,
}

pub open spec fn terrain_name(t: Terrain) -> Seq<char> {
    match t {
        Terrain::Caucasus => "Caucasus"@,
        Terrain::Falklands => "Falklands"@,
        Terrain::Kola => "Kola"@,
        Terrain::MarianaIslands => "MarianaIslands"@,
        Terrain::Nevada => "Nevada"@,
        Terrain::Normandy => "Normandy"@,
        Terrain::PersianGulf => "PersianGulf"@,
        Terrain::Sinai => "Sinai"@,
        Terrain::Syria => "Syria"@,
        Terrain::TheChannel => "TheChannel"@,
    }
}

pub open spec fn terrain_of_name(s: Seq<char>) -> Option<Terrain> {
    if s == "Caucasus"@ {
        Some(Terrain::Caucasus)
    } else if s == "Falklands"@ {
        Some(Terrain::Falklands)
    } else if s == "Kola"@ {
        Some(Terrain::Kola)
    } else if s == "MarianaIslands"@ {
        Some(Terrain::MarianaIslands)
    } else if s == "Nevada"@ {
        Some(Terrain::Nevada)
    } else if s == "Normandy"@ {
        Some(Terrain::Normandy)
    } else if s == "PersianGulf"@ {
        Some(Terrain::PersianGulf)
    } else if s == "Sinai"@ {
        Some(Terrain::Sinai)
    } else if s == "Syria"@ {
        Some(Terrain::Syria)
    } else if s == "TheChannel"@ {
        Some(Terrain::TheChannel)
    } else {
        None
    }
}

pub open spec fn spec_terrain(v: Json) -> Option<Terrain> {
    match v {
        Json::Str(s) => terrain_of_name(s@),
        _ => None,
    }
}

impl Terrain {
    /// Each terrain's wire name denotes that terrain again.
    pub proof fn lemma_name_roundtrip(t: Terrain)
        ensures
            terrain_of_name(terrain_name(t)) == Some(t),
    {
        reveal_strlit("Caucasus");
        reveal_strlit("Falklands");
        reveal_strlit("Kola");
        reveal_strlit("MarianaIslands");
        reveal_strlit("Nevada");
        reveal_strlit("Normandy");
        reveal_strlit("PersianGulf");
        reveal_strlit("Sinai");
        reveal_strlit("Syria");
        reveal_strlit("TheChannel");
        assert("Caucasus"@.len() == 8);
        assert("Falklands"@.len() == 9);
        assert("Kola"@.len() == 4);
        assert("MarianaIslands"@.len() == 14);
        assert("Nevada"@.len() == 6);
        assert("Normandy"@.len() == 8);
        assert("PersianGulf"@.len() == 11);
        assert("Sinai"@.len() == 5);
        assert("Syria"@.len() == 5);
        assert("TheChannel"@.len() == 10);
        assert("Caucasus"@[0] == 'C');
        assert("Normandy"@[0] == 'N');
        assert("Sinai"@[1] == 'i');
        assert("Syria"@[1] == 'y');
        match t {
            Terrain::Caucasus => assert(terrain_of_name(terrain_name(t)) == Some(t)),
            Terrain::Falklands => assert(terrain_of_name(terrain_name(t)) == Some(t)),
            Terrain::Kola => assert(terrain_of_name(terrain_name(t)) == Some(t)),
            Terrain::MarianaIslands => assert(terrain_of_name(terrain_name(t)) == Some(t)),
            Terrain::Nevada => assert(terrain_of_name(terrain_name(t)) == Some(t)),
            Terrain::Normandy => assert(terrain_of_name(terrain_name(t)) == Some(t)),
            Terrain::PersianGulf => assert(terrain_of_name(terrain_name(t)) == Some(t)),
            Terrain::Sinai => assert(terrain_of_name(terrain_name(t)) == Some(t)),
            Terrain::Syria => assert(terrain_of_name(terrain_name(t)) == Some(t)),
            Terrain::TheChannel => assert(terrain_of_name(terrain_name(t)) == Some(t)),
        }
    }

    pub fn encode(&self) -> (r: Json)
        ensures
            spec_terrain(r) == Some(*self),
            str_of(r) == Some(terrain_name(*self)),
    {
        proof {
            Terrain::lemma_name_roundtrip(*self);
        }
        let name = match self {
            Terrain::Caucasus => "Caucasus",
            Terrain::Falklands => "Falklands",
            Terrain::Kola => "Kola",
            Terrain::MarianaIslands => "MarianaIslands",
            Terrain::Nevada => "Nevada",
            Terrain::Normandy => "Normandy",
            Terrain::PersianGulf => "PersianGulf",
            Terrain::Sinai => "Sinai",
            Terrain::Syria => "Syria",
            Terrain::TheChannel => "TheChannel",
        };
        Json::Str(String::from_str(name))
    }

    pub fn decode(j: &Json) -> (r: Result<Terrain, DecodeError>)
        ensures
            r matches Ok(t) ==> spec_terrain(*j) == Some(t),
            r is Err ==> spec_terrain(*j) is None,
    {
        match j {
            Json::Str(s) => {
                let n = s.as_str();
                if str_eq(n, "Caucasus") {
                    Ok(Terrain::Caucasus)
                } else if str_eq(n, "Falklands") {
                    Ok(Terrain::Falklands)
                } else if str_eq(n, "Kola") {
                    Ok(Terrain::Kola)
                } else if str_eq(n, "MarianaIslands") {
                    Ok(Terrain::MarianaIslands)
                } else if str_eq(n, "Nevada") {
                    Ok(Terrain::Nevada)
                } else if str_eq(n, "Normandy") {
                    Ok(Terrain::Normandy)
                } else if str_eq(n, "PersianGulf") {
                    Ok(Terrain::PersianGulf)
                } else if str_eq(n, "Sinai") {
                    Ok(Terrain::Sinai)
                } else if str_eq(n, "Syria") {
                    Ok(Terrain::Syria)
                } else if str_eq(n, "TheChannel") {
                    Ok(Terrain::TheChannel)
                } else {
                    Err(DecodeError::at("terrain"))
                }
            },
            _ => Err(DecodeError::at("terrain")),
        }
    }
}

pub open spec fn terrains_of(a: Seq<Json>) -> Option<Seq<Terrain>>
    decreases a.len(),
{
    if a.len() == 0 {
        Some(Seq::empty())
    } else {
        match (terrains_of(a.drop_last()), spec_terrain(a.last())) {
            (Some(p), Some(t)) => Some(p.push(t)),
            _ => None,
        }
    }
}

pub open spec fn terrain_seq_of(v: Json) -> Option<Seq<Terrain>> {
    match v {
        Json::Arr(a) => terrains_of(a@),
        _ => None,
    }
}

proof fn lemma_terrains_of_bad(a: Seq<Json>, i: int)
    requires
        0 <= i < a.len(),
        spec_terrain(a[i]) is None,
    ensures
        terrains_of(a) is None,
    decreases a.len(),
{
    if i < a.len() - 1 {
        assert(a.drop_last()[i] == a[i]);
        lemma_terrains_of_bad(a.drop_last(), i);
    }
}

pub fn decode_terrains(c: &Json, k: &str) -> (r: Result<Vec<Terrain>, DecodeError>)
    ensures
        r matches Ok(v) ==> terrain_seq_of(*c) == Some(v@),
        r is Err ==> terrain_seq_of(*c) is None,
{
    match c {
        Json::Arr(a) => {
            let mut out: Vec<Terrain> = Vec::new();
            let n = a.len();
            let mut i: usize = 0;
            proof {
                assert(a@.take(0) =~= Seq::<Json>::empty());
            }
            while i < n
                invariant
                    i <= n == a@.len(),
                    *c == Json::Arr(*a),
                    terrains_of(a@.take(i as int)) == Some(out@),
                decreases n - i,
            {
                match Terrain::decode(&a[i]) {
                    Ok(t) => {
                        out.push(t);
                        proof {
                            assert(a@.take(i as int + 1).drop_last() =~= a@.take(i as int));
                            assert(a@.take(i as int + 1).last() == a@[i as int]);
                        }
                    },
                    Err(_) => {
                        proof {
                            lemma_terrains_of_bad(a@, i as int);
                        }
                        return Err(DecodeError::at(k));
                    },
                }
                i += 1;
            }
            proof {
                assert(a@.take(n as int) =~= a@);
            }
            Ok(out)
        },
        _ => Err(DecodeError::at(k)),
    }
}

/// Why a server of this revision stopped.
#[derive(Debug, Clone, Copy, PartialEq, Eq, Structural)]
pub enum ServerStoppedReason {
    StoppedNormally,
    StoppedUnexpectedly,
    MaxTriesReached,
}

pub open spec fn reason_name(x: ServerStoppedReason) -> Seq<char> {
    match x {
        ServerStoppedReason::StoppedNormally => "StoppedNormally"@,
        ServerStoppedReason::StoppedUnexpectedly => "StoppedUnexpectedly"@,
        ServerStoppedReason::MaxTriesReached => "MaxTriesReached"@,
    }
}

pub open spec fn reason_of_name(s: Seq<char>) -> Option<ServerStoppedReason> {
    if s == "StoppedNormally"@ {
        Some(ServerStoppedReason::StoppedNormally)
    } else if s == "StoppedUnexpectedly"@ {
        Some(ServerStoppedReason::StoppedUnexpectedly)
    } else if s == "MaxTriesReached"@ {
        Some(ServerStoppedReason::MaxTriesReached)
    } else {
        None
    }
}

pub open spec fn spec_reason(v: Json) -> Option<ServerStoppedReason> {
    match v {
        Json::Str(s) => reason_of_name(s@),
        _ => None,
    }
}

impl ServerStoppedReason {
    pub fn decode(j: &Json) -> (r: Result<ServerStoppedReason, DecodeError>)
        ensures
            r matches Ok(x) ==> spec_reason(*j) == Some(x),
            r is Err ==> spec_reason(*j) is None,
    {
        match j {
            Json::Str(s) => {
                let n = s.as_str();
                if str_eq(n, "StoppedNormally") {
                    Ok(ServerStoppedReason::StoppedNormally)
                } else if str_eq(n, "StoppedUnexpectedly") {
                    Ok(ServerStoppedReason::StoppedUnexpectedly)
                } else if str_eq(n, "MaxTriesReached") {
                    Ok(ServerStoppedReason::MaxTriesReached)
                } else {
                    Err(DecodeError::at("reason"))
                }
            },
            _ => Err(DecodeError::at("reason")),
        }
    }
}

/// The lifecycle labels of this revision; `WantServerStopped` carried no
/// payload yet.
#[derive(Debug, Clone, PartialEq)]
pub enum NodeGameStatus {
    InstallingBaseGame { progress: Option<u8> },
    InstallingTerrains {
        installed: Vec<Terrain>,
        processing: Option<Terrain>,
        processing_progress: Option<u8>,
    },
    InstallingMods,
    InstallingPost,
    ServerStarted,
    ServerStopped { was_error: bool, reason: ServerStoppedReason },
    ServerExpired,
    ServerDeleted,
    WantServerStarted { current_try: u32 },
    WantServerStopped,
    WantUpdateServer,
}

pub enum NodeGameStatusV {
    InstallingBaseGame { progress: Option<u8> },
    InstallingTerrains {
        installed: Seq<Terrain>,
        processing: Option<Terrain>,
        processing_progress: Option<u8>,
    },
    InstallingMods,
    InstallingPost,
    ServerStarted,
    ServerStopped { was_error: bool, reason: ServerStoppedReason },
    ServerExpired,
    ServerDeleted,
    WantServerStarted { current_try: u32 },
    WantServerStopped,
    WantUpdateServer,
}

impl View for NodeGameStatus {
    type V = NodeGameStatusV;

    open spec fn view(&self) -> NodeGameStatusV {
        match self {
            NodeGameStatus::InstallingBaseGame { progress } => NodeGameStatusV::InstallingBaseGame {
                progress: *progress,
            },
            NodeGameStatus::InstallingTerrains { installed, processing, processing_progress } => {
                NodeGameStatusV::InstallingTerrains {
                    installed: installed@,
                    processing: *processing,
                    processing_progress: *processing_progress,
                }
            },
            NodeGameStatus::InstallingMods => NodeGameStatusV::InstallingMods,
            NodeGameStatus::InstallingPost => NodeGameStatusV::InstallingPost,
            NodeGameStatus::ServerStarted => NodeGameStatusV::ServerStarted,
            NodeGameStatus::ServerStopped { was_error, reason } => NodeGameStatusV::ServerStopped {
                was_error: *was_error,
                reason: *reason,
            },
            NodeGameStatus::ServerExpired => NodeGameStatusV::ServerExpired,
            NodeGameStatus::ServerDeleted => NodeGameStatusV::ServerDeleted,
            NodeGameStatus::WantServerStarted { current_try } => {
                NodeGameStatusV::WantServerStarted { current_try: *current_try }
            },
            NodeGameStatus::WantServerStopped => NodeGameStatusV::WantServerStopped,
            NodeGameStatus::WantUpdateServer => NodeGameStatusV::WantUpdateServer,
        }
    }
}

/// What a JSON value denotes as a node-game status: a bare name for a
/// fieldless variant, a single-member object for one with fields.
pub open spec fn spec_status(j: Json) -> Option<NodeGameStatusV> {
    match j {
        Json::Str(s) => if s@ == "InstallingMods"@ {
            Some(NodeGameStatusV::InstallingMods)
        } else if s@ == "InstallingPost"@ {
            Some(NodeGameStatusV::InstallingPost)
        } else if s@ == "ServerStarted"@ {
            Some(NodeGameStatusV::ServerStarted)
        } else if s@ == "ServerExpired"@ {
            Some(NodeGameStatusV::ServerExpired)
        } else if s@ == "ServerDeleted"@ {
            Some(NodeGameStatusV::ServerDeleted)
        } else if s@ == "WantServerStopped"@ {
            Some(NodeGameStatusV::WantServerStopped)
        } else if s@ == "WantUpdateServer"@ {
            Some(NodeGameStatusV::WantUpdateServer)
        } else {
            None
        },
        Json::Obj(o) => if o.len() == 1 {
            let k = o[0].0@;
            let v = o[0].1;
            if k == "InstallingBaseGame"@ {
                match crate::json::mem_opt_u8(v, "progress"@) {
                    Some(progress) => Some(NodeGameStatusV::InstallingBaseGame { progress }),
                    None => None,
                }
            } else if k == "InstallingTerrains"@ {
                let installed = match member(v, "installed"@) {
                    Some(iv) => terrain_seq_of(iv),
                    None => None,
                };
                let processing = match mem_or_null(v, "processing"@) {
                    None => Some(Option::<Terrain>::None),
                    Some(pv) => match spec_terrain(pv) {
                        Some(t) => Some(Some(t)),
                        None => None,
                    },
                };
                let processing_progress = crate::json::mem_opt_u8(v, "processing_progress"@);
                if installed is Some && processing is Some && processing_progress is Some {
                    Some(
                        NodeGameStatusV::InstallingTerrains {
                            installed: installed->0,
                            processing: processing->0,
                            processing_progress: processing_progress->0,
                        },
                    )
                } else {
                    None
                }
            } else if k == "ServerStopped"@ {
                let was_error = mem_bool(v, "was_error"@);
                let reason = match member(v, "reason"@) {
                    Some(rv) => spec_reason(rv),
                    None => None,
                };
                if was_error is Some && reason is Some {
                    Some(
                        NodeGameStatusV::ServerStopped {
                            was_error: was_error->0,
                            reason: reason->0,
                        },
                    )
                } else {
                    None
                }
            } else if k == "WantServerStarted"@ {
                match mem_u32(v, "current_try"@) {
                    Some(current_try) => Some(
                        NodeGameStatusV::WantServerStarted { current_try },
                    ),
                    None => None,
                }
            } else {
                None
            }
        } else {
            None
        },
        _ => None,
    }
}

impl NodeGameStatus {
    pub fn decode(j: &Json) -> (r: Result<NodeGameStatus, DecodeError>)
        ensures
            r matches Ok(st) ==> spec_status(*j) == Some(st@),
            r is Err ==> spec_status(*j) is None,
    {
        match j {
            Json::Str(s) => {
                let n = s.as_str();
                if str_eq(n, "InstallingMods") {
                    Ok(NodeGameStatus::InstallingMods)
                } else if str_eq(n, "InstallingPost") {
                    Ok(NodeGameStatus::InstallingPost)
                } else if str_eq(n, "ServerStarted") {
                    Ok(NodeGameStatus::ServerStarted)
                } else if str_eq(n, "ServerExpired") {
                    Ok(NodeGameStatus::ServerExpired)
                } else if str_eq(n, "ServerDeleted") {
                    Ok(NodeGameStatus::ServerDeleted)
                } else if str_eq(n, "WantServerStopped") {
                    Ok(NodeGameStatus::WantServerStopped)
                } else if str_eq(n, "WantUpdateServer") {
                    Ok(NodeGameStatus::WantUpdateServer)
                } else {
                    Err(DecodeError::at("status"))
                }
            },
            Json::Obj(entries) => {
                if entries.len() != 1 {
                    return Err(DecodeError::at("status"));
                }
                let k = entries[0].0.as_str();
                let v = &entries[0].1;
                if str_eq(k, "InstallingBaseGame") {
                    let progress = get_opt_u8(v, "progress")?;
                    Ok(NodeGameStatus::InstallingBaseGame { progress })
                } else if str_eq(k, "InstallingTerrains") {
                    let iv = req_member(v, "installed")?;
                    let installed = decode_terrains(iv, "installed")?;
                    let processing = match opt_member(v, "processing") {
                        None => None,
                        Some(pv) => Some(Terrain::decode(pv)?),
                    };
                    let processing_progress = get_opt_u8(v, "processing_progress")?;
                    Ok(
                        NodeGameStatus::InstallingTerrains {
                            installed,
                            processing,
                            processing_progress,
                        },
                    )
                } else if str_eq(k, "ServerStopped") {
                    let was_error = get_bool(v, "was_error")?;
                    let rv = req_member(v, "reason")?;
                    let reason = ServerStoppedReason::decode(rv)?;
                    Ok(NodeGameStatus::ServerStopped { was_error, reason })
                } else if str_eq(k, "WantServerStarted") {
                    let current_try = get_u32(v, "current_try")?;
                    Ok(NodeGameStatus::WantServerStarted { current_try })
                } else {
                    Err(DecodeError::at("status"))
                }
            },
            _ => Err(DecodeError::at("status")),
        }
    }
}

/// The instance record of this revision; it had no rental end field.
#[derive(Debug, Clone, PartialEq)]
pub struct NodeGame {
    pub id: Uuid,
    pub node_id: Uuid,
    pub user_id: String,
    pub product_id: Uuid,
    pub ip: String,
    pub port: u32,
    pub webgui_port: u32,
    pub ftp_port: u32,
    pub ftp_username: String,
    pub ftp_password: String,
    pub pid: Option<u32>,
    pub status: NodeGameStatus,
    pub want_delete: bool,
    pub wanted_terrains: Vec<Terrain>,
    pub rented_at: u64,
    pub active_mods: Vec<String>,
    pub created_at: String,
    pub dcs_settings: Option<DcsSettings>,
}

pub struct NodeGameV {
    pub id: Uuid,
    pub node_id: Uuid,
    pub user_id: Seq<char>,
    pub product_id: Uuid,
    pub ip: Seq<char>,
    pub port: u32,
    pub webgui_port: u32,
    pub ftp_port: u32,
    pub ftp_username: Seq<char>,
    pub ftp_password: Seq<char>,
    pub pid: Option<u32>,
    pub status: NodeGameStatusV,
    pub want_delete: bool,
    pub wanted_terrains: Seq<Terrain>,
    pub rented_at: u64,
    pub active_mods: Seq<Seq<char>>,
    pub created_at: Seq<char>,
    pub dcs_settings: Option<DcsSettingsV>,
}

impl View for NodeGame {
    type V = NodeGameV;

    open spec fn view(&self) -> NodeGameV {
        NodeGameV {
            id: self.id,
            node_id: self.node_id,
            user_id: self.user_id@,
            product_id: self.product_id,
            ip: self.ip@,
            port: self.port,
            webgui_port: self.webgui_port,
            ftp_port: self.ftp_port,
            ftp_username: self.ftp_username@,
            ftp_password: self.ftp_password@,
            pid: self.pid,
            status: self.status@,
            want_delete: self.want_delete,
            wanted_terrains: self.wanted_terrains@,
            rented_at: self.rented_at,
            active_mods: views_of(self.active_mods@),
            created_at: self.created_at@,
            dcs_settings: match self.dcs_settings {
                Some(d) => Some(d@),
                None => None,
            },
        }
    }
}

pub open spec fn spec_node_game(j: Json) -> Option<NodeGameV> {
    let id = mem_uuid(j, "id"@);
    let node_id = mem_uuid(j, "node_id"@);
    let user_id = mem_str(j, "user_id"@);
    let product_id = mem_uuid(j, "product_id"@);
    let ip = mem_str(j, "ip"@);
    let port = mem_u32(j, "port"@);
    let webgui_port = mem_u32(j, "webgui_port"@);
    let ftp_port = mem_u32(j, "ftp_port"@);
    let ftp_username = mem_str(j, "ftp_username"@);
    let ftp_password = mem_str(j, "ftp_password"@);
    let pid = mem_opt_u32(j, "pid"@);
    let status = match member(j, "status"@) {
        Some(sv) => spec_status(sv),
        None => None,
    };
    let want_delete = mem_bool(j, "want_delete"@);
    let wanted_terrains = match member(j, "wanted_terrains"@) {
        Some(tv) => terrain_seq_of(tv),
        None => None,
    };
    let rented_at = mem_u64(j, "rented_at"@);
    let active_mods = match member(j, "active_mods"@) {
        Some(av) => string_seq_of(av),
        None => None,
    };
    let created_at = mem_str(j, "created_at"@);
    let dcs_settings = match mem_or_null(j, "dcs_settings"@) {
        None => Some(Option::<DcsSettingsV>::None),
        Some(dv) => match spec_dcs_settings(dv) {
            Some(d) => Some(Some(d)),
            None => None,
        },
    };
    if id is Some && node_id is Some && user_id is Some && product_id is Some && ip is Some
        && port is Some && webgui_port is Some && ftp_port is Some && ftp_username is Some
        && ftp_password is Some && pid is Some && status is Some && want_delete is Some
        && wanted_terrains is Some && rented_at is Some && active_mods is Some && created_at
        is Some && dcs_settings is Some {
        Some(
            NodeGameV {
                id: id->0,
                node_id: node_id->0,
                user_id: user_id->0,
                product_id: product_id->0,
                ip: ip->0,
                port: port->0,
                webgui_port: webgui_port->0,
                ftp_port: ftp_port->0,
                ftp_username: ftp_username->0,
                ftp_password: ftp_password->0,
                pid: pid->0,
                status: status->0,
                want_delete: want_delete->0,
                wanted_terrains: wanted_terrains->0,
                rented_at: rented_at->0,
                active_mods: active_mods->0,
                created_at: created_at->0,
                dcs_settings: dcs_settings->0,
            },
        )
    } else {
        None
    }
}

impl NodeGame {
    pub fn decode(j: &Json) -> (r: Result<NodeGame, DecodeError>)
        ensures
            r matches Ok(v) ==> spec_node_game(*j) == Some(v@),
            r is Err ==> spec_node_game(*j) is None,
    {
        let id = get_uuid(j, "id")?;
        let node_id = get_uuid(j, "node_id")?;
        let user_id = get_string(j, "user_id")?;
        let product_id = get_uuid(j, "product_id")?;
        let ip = get_string(j, "ip")?;
        let port = get_u32(j, "port")?;
        let webgui_port = get_u32(j, "webgui_port")?;
        let ftp_port = get_u32(j, "ftp_port")?;
        let ftp_username = get_string(j, "ftp_username")?;
        let ftp_password = get_string(j, "ftp_password")?;
        let pid = get_opt_u32(j, "pid")?;
        let status = NodeGameStatus::decode(req_member(j, "status")?)?;
        let want_delete = get_bool(j, "want_delete")?;
        let wanted_terrains = decode_terrains(req_member(j, "wanted_terrains")?, "wanted_terrains")?;
        let rented_at = get_u64(j, "rented_at")?;
        let active_mods = decode_strings(req_member(j, "active_mods")?, "active_mods")?;
        let created_at = get_string(j, "created_at")?;
        let dcs_settings = match opt_member(j, "dcs_settings") {
            None => None,
            Some(dv) => Some(DcsSettings::decode(dv)?),
        };
        Ok(
            NodeGame {
                id,
                node_id,
                user_id,
                product_id,
                ip,
                port,
                webgui_port,
                ftp_port,
                ftp_username,
                ftp_password,
                pid,
                status,
                want_delete,
                wanted_terrains,
                rented_at,
                active_mods,
                created_at,
                dcs_settings,
            },
        )
    }
}

} // verus!
