//! The live runtime snapshot of an instance: mission rotation, player
//! roster, and the echoed server settings.
//!
//! Two wire shapes here are irregular and decoded leniently. The banned
//! list arrives either as an array of records or as an empty object (never
//! a non-empty one); the object form decodes to an empty sequence, any
//! non-empty object is a decode error. A mission-list field arrives either
//! as an array, whose non-string entries are silently dropped, or as an
//! object, which decodes to an empty sequence; any other shape is an error.

use vstd::prelude::*;

use crate::error::DecodeError;
use crate::json::{
    get_bool, get_i32, get_num_text, get_opt_i32, get_opt_string, get_string, mem_bool, mem_i32,
    mem_num_text, mem_opt_i32, mem_opt_str, mem_str, member, opt_member, req_member, str_of,
    views_of, Json,
};

verus! {

/// An entry of the banned-players list.
#[derive(Debug, Clone, PartialEq)]
pub struct BannedPlayer {
    pub banned_from: i64,
    pub banned_until: i64,
    pub ipaddr: String,
    pub name: String,
    pub reason: String,
    pub ucid: String,
}

pub struct BannedPlayerV {
    pub banned_from: i64,
    pub banned_until: i64,
    pub ipaddr: Seq<char>,
    pub name: Seq<char>,
    pub reason: Seq<char>,
    pub ucid: Seq<char>,
}

impl View for BannedPlayer {
    type V = BannedPlayerV;

    open spec fn view(&self) -> BannedPlayerV {
        BannedPlayerV {
            banned_from: self.banned_from,
            banned_until: self.banned_until,
            ipaddr: self.ipaddr@,
            name: self.name@,
            reason: self.reason@,
            ucid: self.ucid@,
        }
    }
}

pub open spec fn spec_banned_player(j: Json) -> Option<BannedPlayerV> {
    let banned_from = crate::json::mem_i64(j, "banned_from"@);
    let banned_until = crate::json::mem_i64(j, "banned_until"@);
    let ipaddr = mem_str(j, "ipaddr"@);
    let name = mem_str(j, "name"@);
    let reason = mem_str(j, "reason"@);
    let ucid = mem_str(j, "ucid"@);
    if banned_from is Some && banned_until is Some && ipaddr is Some && name is Some && reason
        is Some && ucid is Some {
        Some(
            BannedPlayerV {
                banned_from: banned_from->0,
                banned_until: banned_until->0,
                ipaddr: ipaddr->0,
                name: name->0,
                reason: reason->0,
                ucid: ucid->0,
            },
        )
    } else {
        None
    }
}

impl BannedPlayer {
    pub fn decode(j: &Json) -> (r: Result<BannedPlayer, DecodeError>)
        ensures
            r matches Ok(v) ==> spec_banned_player(*j) == Some(v@),
            r is Err ==> spec_banned_player(*j) is None,
    {
        let banned_from = crate::json::get_i64(j, "banned_from")?;
        let banned_until = crate::json::get_i64(j, "banned_until")?;
        let ipaddr = get_string(j, "ipaddr")?;
        let name = get_string(j, "name")?;
        let reason = get_string(j, "reason")?;
        let ucid = get_string(j, "ucid")?;
        Ok(BannedPlayer { banned_from, banned_until, ipaddr, name, reason, ucid })
    }
}

/// A connected player.
#[derive(Debug, Clone, PartialEq)]
pub struct Player {
    pub ping: i32,
    pub side: i32,
    pub slot: String,
    pub id: i32,
    pub name: String,
    pub score: i32,
    pub ucid: String,
    pub started: bool,
    pub lang: String,
    pub ipaddr: String,
}

pub struct PlayerV {
    pub ping: i32,
    pub side: i32,
    pub slot: Seq<char>,
    pub id: i32,
    pub name: Seq<char>,
    pub score: i32,
    pub ucid: Seq<char>,
    pub started: bool,
    pub lang: Seq<char>,
    pub ipaddr: Seq<char>,
}

impl View for Player {
    type V = PlayerV;

    open spec fn view(&self) -> PlayerV {
        PlayerV {
            ping: self.ping,
            side: self.side,
            slot: self.slot@,
            id: self.id,
            name: self.name@,
            score: self.score,
            ucid: self.ucid@,
            started: self.started,
            lang: self.lang@,
            ipaddr: self.ipaddr@,
        }
    }
}

pub open spec fn spec_player(j: Json) -> Option<PlayerV> {
    let ping = mem_i32(j, "ping"@);
    let side = mem_i32(j, "side"@);
    let slot = mem_str(j, "slot"@);
    let id = mem_i32(j, "id"@);
    let name = mem_str(j, "name"@);
    let score = mem_i32(j, "score"@);
    let ucid = mem_str(j, "ucid"@);
    let started = mem_bool(j, "started"@);
    let lang = mem_str(j, "lang"@);
    let ipaddr = mem_str(j, "ipaddr"@);
    if ping is Some && side is Some && slot is Some && id is Some && name is Some && score is Some
        && ucid is Some && started is Some && lang is Some && ipaddr is Some {
        Some(
            PlayerV {
                ping: ping->0,
                side: side->0,
                slot: slot->0,
                id: id->0,
                name: name->0,
                score: score->0,
                ucid: ucid->0,
                started: started->0,
                lang: lang->0,
                ipaddr: ipaddr->0,
            },
        )
    } else {
        None
    }
}

impl Player {
    pub fn decode(j: &Json) -> (r: Result<Player, DecodeError>)
        ensures
            r matches Ok(v) ==> spec_player(*j) == Some(v@),
            r is Err ==> spec_player(*j) is None,
    {
        let ping = get_i32(j, "ping")?;
        let side = get_i32(j, "side")?;
        let slot = get_string(j, "slot")?;
        let id = get_i32(j, "id")?;
        let name = get_string(j, "name")?;
        let score = get_i32(j, "score")?;
        let ucid = get_string(j, "ucid")?;
        let started = get_bool(j, "started")?;
        let lang = get_string(j, "lang")?;
        let ipaddr = get_string(j, "ipaddr")?;
        Ok(Player { ping, side, slot, id, name, score, ucid, started, lang, ipaddr })
    }
}

/// What a sequence of JSON values denotes as banned players, every element
/// one.
pub open spec fn banned_list_of(a: Seq<Json>) -> Option<Seq<BannedPlayerV>>
    decreases a.len(),
{
    if a.len() == 0 {
        Some(Seq::empty())
    } else {
        match (banned_list_of(a.drop_last()), spec_banned_player(a.last())) {
            (Some(p), Some(v)) => Some(p.push(v)),
            _ => None,
        }
    }
}

/// The lenient banned-players shape: an array of records, or an empty
/// object standing for an empty list. A non-empty object and every other
/// shape is an error.
pub open spec fn spec_banned_field(v: Json) -> Option<Seq<BannedPlayerV>> {
    match v {
        Json::Arr(a) => banned_list_of(a@),
        Json::Obj(o) => if o.len() == 0 {
            Some(Seq::empty())
        } else {
            None
        },
        _ => None,
    }
}

proof fn lemma_banned_list_bad(a: Seq<Json>, i: int)
    requires
        0 <= i < a.len(),
        spec_banned_player(a[i]) is None,
    ensures
        banned_list_of(a) is None,
    decreases a.len(),
{
    if i < a.len() - 1 {
        assert(a.drop_last()[i] == a[i]);
        lemma_banned_list_bad(a.drop_last(), i);
    }
}

pub open spec fn banned_views(xs: Seq<BannedPlayer>) -> Seq<BannedPlayerV> {
    xs.map_values(|x: BannedPlayer| x@)
}

/// Decodes the banned-players field: an array of records, or an empty
/// object meaning "none".
pub fn decode_banned_field(c: &Json, k: &str) -> (r: Result<Vec<BannedPlayer>, DecodeError>)
    ensures
        r matches Ok(v) ==> spec_banned_field(*c) == Some(banned_views(v@)),
        r is Err ==> spec_banned_field(*c) is None,
{
    match c {
        Json::Arr(a) => {
            let mut out: Vec<BannedPlayer> = Vec::new();
            let n = a.len();
            let mut i: usize = 0;
            proof {
                assert(a@.take(0) =~= Seq::<Json>::empty());
                assert(banned_views(out@) =~= Seq::<BannedPlayerV>::empty());
            }
            while i < n
                invariant
                    i <= n == a@.len(),
                    *c == Json::Arr(*a),
                    banned_list_of(a@.take(i as int)) == Some(banned_views(out@)),
                decreases n - i,
            {
                match BannedPlayer::decode(&a[i]) {
                    Ok(x) => {
                        let ghost prev = out@;
                        out.push(x);
                        proof {
                            assert(a@.take(i as int + 1).drop_last() =~= a@.take(i as int));
                            assert(a@.take(i as int + 1).last() == a@[i as int]);
                            assert(banned_views(out@) =~= banned_views(prev).push(out@.last()@));
                        }
                    },
                    Err(_) => {
                        proof {
                            lemma_banned_list_bad(a@, i as int);
                        }
                        return Err(DecodeError::at(k));
                    },
                }
                i += 1;
            }
            proof {
                assert(a@.take(n as int) =~= a@);
            }
            Ok(out)
        },
        Json::Obj(o) => {
            if o.len() == 0 {
                proof {
                    assert(banned_views(Seq::<BannedPlayer>::empty()) =~= Seq::<
                        BannedPlayerV,
                    >::empty());
                }
                Ok(Vec::new())
            } else {
                Err(DecodeError::at(k))
            }
        },
        _ => Err(DecodeError::at(k)),
    }
}

/// The strings kept from a mission-list array: string entries in order,
/// anything else silently dropped.
pub open spec fn kept_strings(a: Seq<Json>) -> Seq<Seq<char>>
    decreases a.len(),
{
    if a.len() == 0 {
        Seq::empty()
    } else {
        match str_of(a.last()) {
            Some(s) => kept_strings(a.drop_last()).push(s),
            None => kept_strings(a.drop_last()),
        }
    }
}

/// The lenient mission-list shape: an array whose non-string entries are
/// dropped, or any object standing for an empty list.
pub open spec fn spec_mission_field(v: Json) -> Option<Seq<Seq<char>>> {
    match v {
        Json::Arr(a) => Some(kept_strings(a@)),
        Json::Obj(_) => Some(Seq::empty()),
        _ => None,
    }
}

/// Decodes a mission-list field leniently: string entries are kept in
/// order, non-string entries are dropped, and an object of any content
/// stands for an empty list.
pub fn deserialize_mission_field(c: &Json, k: &str) -> (r: Result<Vec<String>, DecodeError>)
    ensures
        r matches Ok(v) ==> spec_mission_field(*c) == Some(views_of(v@)),
        r is Err ==> spec_mission_field(*c) is None,
{
    match c {
        Json::Arr(a) => {
            let mut out: Vec<String> = Vec::new();
            let n = a.len();
            let mut i: usize = 0;
            proof {
                assert(a@.take(0) =~= Seq::<Json>::empty());
                assert(views_of(out@) =~= Seq::<Seq<char>>::empty());
            }
            while i < n
                invariant
                    i <= n == a@.len(),
                    kept_strings(a@.take(i as int)) == views_of(out@),
                decreases n - i,
            {
                proof {
                    assert(a@.take(i as int + 1).drop_last() =~= a@.take(i as int));
                    assert(a@.take(i as int + 1).last() == a@[i as int]);
                }
                match &a[i] {
                    Json::Str(s) => {
                        let ghost prev = out@;
                        out.push(s.clone());
                        proof {
                            assert(str_of(a@[i as int]) == Some(s@));
                            assert(views_of(out@) =~= views_of(prev).push(s@));
                        }
                    },
                    _ => {
                        proof {
                            assert(str_of(a@[i as int]) is None);
                        }
                    },
                }
                i += 1;
            }
            proof {
                assert(a@.take(n as int) =~= a@);
            }
            Ok(out)
        },
        Json::Obj(_) => {
            proof {
                assert(views_of(Seq::<String>::empty()) =~= Seq::<Seq<char>>::empty());
            }
            Ok(Vec::new())
        },
        _ => Err(DecodeError::at(k)),
    }
}

/// What a JSON object denotes as a roster: session id to player, in wire
/// order.
pub open spec fn player_entries_of(o: Seq<(String, Json)>) -> Option<Seq<(Seq<char>, PlayerV)>>
    decreases o.len(),
{
    if o.len() == 0 {
        Some(Seq::empty())
    } else {
        match (player_entries_of(o.drop_last()), spec_player(o.last().1)) {
            (Some(p), Some(v)) => Some(p.push((o.last().0@, v))),
            _ => None,
        }
    }
}

pub open spec fn player_map_of(v: Json) -> Option<Seq<(Seq<char>, PlayerV)>> {
    match v {
        Json::Obj(o) => player_entries_of(o@),
        _ => None,
    }
}

pub open spec fn player_entry_views(xs: Seq<(String, Player)>) -> Seq<(Seq<char>, PlayerV)> {
    xs.map_values(|p: (String, Player)| (p.0@, p.1@))
}

proof fn lemma_player_entries_bad(o: Seq<(String, Json)>, i: int)
    requires
        0 <= i < o.len(),
        spec_player(o[i].1) is None,
    ensures
        player_entries_of(o) is None,
    decreases o.len(),
{
    if i < o.len() - 1 {
        assert(o.drop_last()[i] == o[i]);
        lemma_player_entries_bad(o.drop_last(), i);
    }
}

/// Decodes the roster object, keeping entries in wire order.
pub fn decode_player_map(c: &Json, k: &str) -> (r: Result<Vec<(String, Player)>, DecodeError>)
    ensures
        r matches Ok(v) ==> player_map_of(*c) == Some(player_entry_views(v@)),
        r is Err ==> player_map_of(*c) is None,
{
    match c {
        Json::Obj(entries) => {
            let mut out: Vec<(String, Player)> = Vec::new();
            let n = entries.len();
            let mut i: usize = 0;
            proof {
                assert(entries@.take(0) =~= Seq::<(String, Json)>::empty());
                assert(player_entry_views(out@) =~= Seq::<(Seq<char>, PlayerV)>::empty());
            }
            while i < n
                invariant
                    i <= n == entries@.len(),
                    *c == Json::Obj(*entries),
                    player_entries_of(entries@.take(i as int)) == Some(player_entry_views(out@)),
                decreases n - i,
            {
                match Player::decode(&entries[i].1) {
                    Ok(p) => {
                        let ghost prev = out@;
                        out.push((entries[i].0.clone(), p));
                        proof {
                            assert(entries@.take(i as int + 1).drop_last() =~= entries@.take(
                                i as int,
                            ));
                            assert(entries@.take(i as int + 1).last() == entries@[i as int]);
                            assert(player_entry_views(out@) =~= player_entry_views(prev).push(
                                (out@.last().0@, out@.last().1@),
                            ));
                        }
                    },
                    Err(_) => {
                        proof {
                            lemma_player_entries_bad(entries@, i as int);
                        }
                        return Err(DecodeError::at(k));
                    },
                }
                i += 1;
            }
            proof {
                assert(entries@.take(n as int) =~= entries@);
            }
            Ok(out)
        },
        _ => Err(DecodeError::at(k)),
    }
}

/// The roster and ban list of a running server. The roster is a map of
/// session id to player, kept in wire order.
#[derive(Debug, Clone, PartialEq)]
pub struct Players {
    pub banned: Vec<BannedPlayer>,
    pub all: Vec<(String, Player)>,
}

pub struct PlayersV {
    pub banned: Seq<BannedPlayerV>,
    pub all: Seq<(Seq<char>, PlayerV)>,
}

impl View for Players {
    type V = PlayersV;

    open spec fn view(&self) -> PlayersV {
        PlayersV { banned: banned_views(self.banned@), all: player_entry_views(self.all@) }
    }
}

pub open spec fn spec_players(j: Json) -> Option<PlayersV> {
    let banned = match member(j, "banned"@) {
        Some(bv) => spec_banned_field(bv),
        None => None,
    };
    let all = match member(j, "all"@) {
        Some(av) => player_map_of(av),
        None => None,
    };
    if banned is Some && all is Some {
        Some(PlayersV { banned: banned->0, all: all->0 })
    } else {
        None
    }
}

impl Players {
    pub fn decode(j: &Json) -> (r: Result<Players, DecodeError>)
        ensures
            r matches Ok(v) ==> spec_players(*j) == Some(v@),
            r is Err ==> spec_players(*j) is None,
    {
        let banned = decode_banned_field(req_member(j, "banned")?, "banned")?;
        let all = decode_player_map(req_member(j, "all")?, "all")?;
        Ok(Players { banned, all })
    }
}

/// The roster answer of the runtime endpoint.
#[derive(Debug, Clone, PartialEq)]
pub struct PlayersResponse {
    pub players: Players,
    pub server_id: i32,
}

pub struct PlayersResponseV {
    pub players: PlayersV,
    pub server_id: i32,
}

impl View for PlayersResponse {
    type V = PlayersResponseV;

    open spec fn view(&self) -> PlayersResponseV {
        PlayersResponseV { players: self.players@, server_id: self.server_id }
    }
}

pub open spec fn spec_players_response(j: Json) -> Option<PlayersResponseV> {
    let players = match member(j, "players"@) {
        Some(pv) => spec_players(pv),
        None => None,
    };
    let server_id = mem_i32(j, "server_id"@);
    if players is Some && server_id is Some {
        Some(PlayersResponseV { players: players->0, server_id: server_id->0 })
    } else {
        None
    }
}

impl PlayersResponse {
    pub fn decode(j: &Json) -> (r: Result<PlayersResponse, DecodeError>)
        ensures
            r matches Ok(v) ==> spec_players_response(*j) == Some(v@),
            r is Err ==> spec_players_response(*j) is None,
    {
        let players = Players::decode(req_member(j, "players")?)?;
        let server_id = get_i32(j, "server_id")?;
        Ok(PlayersResponse { players, server_id })
    }
}

/// The running mission. The mission clock is a fractional wire number,
/// carried as its decimal text.
#[derive(Debug, Clone, PartialEq)]
pub struct MissionInfo {
    pub result_red: Option<i32>,
    pub result_blue: Option<i32>,
    pub mission_filename: String,
    pub mission_time: String,
    pub mission_name: String,
    pub mission_description: String,
}

pub struct MissionInfoV {
    pub result_red: Option<i32>,
    pub result_blue: Option<i32>,
    pub mission_filename: Seq<char>,
    pub mission_time: Seq<char>,
    pub mission_name: Seq<char>,
    pub mission_description: Seq<char>,
}

impl View for MissionInfo {
    type V = MissionInfoV;

    open spec fn view(&self) -> MissionInfoV {
        MissionInfoV {
            result_red: self.result_red,
            result_blue: self.result_blue,
            mission_filename: self.mission_filename@,
            mission_time: self.mission_time@,
            mission_name: self.mission_name@,
            mission_description: self.mission_description@,
        }
    }
}

pub open spec fn spec_mission_info(j: Json) -> Option<MissionInfoV> {
    let result_red = mem_opt_i32(j, "result_red"@);
    let result_blue = mem_opt_i32(j, "result_blue"@);
    let mission_filename = mem_str(j, "mission_filename"@);
    let mission_time = mem_num_text(j, "mission_time"@);
    let mission_name = mem_str(j, "mission_name"@);
    let mission_description = mem_str(j, "mission_description"@);
    if result_red is Some && result_blue is Some && mission_filename is Some && mission_time
        is Some && mission_name is Some && mission_description is Some {
        Some(
            MissionInfoV {
                result_red: result_red->0,
                result_blue: result_blue->0,
                mission_filename: mission_filename->0,
                mission_time: mission_time->0,
                mission_name: mission_name->0,
                mission_description: mission_description->0,
            },
        )
    } else {
        None
    }
}

impl MissionInfo {
    pub fn decode(j: &Json) -> (r: Result<MissionInfo, DecodeError>)
        ensures
            r matches Ok(v) ==> spec_mission_info(*j) == Some(v@),
            r is Err ==> spec_mission_info(*j) is None,
    {
        let result_red = get_opt_i32(j, "result_red")?;
        let result_blue = get_opt_i32(j, "result_blue")?;
        let mission_filename = get_string(j, "mission_filename")?;
        let mission_time = get_num_text(j, "mission_time")?;
        let mission_name = get_string(j, "mission_name")?;
        let mission_description = get_string(j, "mission_description")?;
        Ok(
            MissionInfo {
                result_red,
                result_blue,
                mission_filename,
                mission_time,
                mission_name,
                mission_description,
            },
        )
    }
}

/// The mission rotation, under the camel-cased wire names of this endpoint.
#[derive(Debug, Clone, PartialEq)]
pub struct MissionList {
    pub mission_list: Vec<String>,
    pub mission_theatres: Vec<String>,
    pub list_start_index: i32,
    pub list_shuffle: bool,
    pub list_loop: bool,
}

pub struct MissionListV {
    pub mission_list: Seq<Seq<char>>,
    pub mission_theatres: Seq<Seq<char>>,
    pub list_start_index: i32,
    pub list_shuffle: bool,
    pub list_loop: bool,
}

impl View for MissionList {
    type V = MissionListV;

    open spec fn view(&self) -> MissionListV {
        MissionListV {
            mission_list: views_of(self.mission_list@),
            mission_theatres: views_of(self.mission_theatres@),
            list_start_index: self.list_start_index,
            list_shuffle: self.list_shuffle,
            list_loop: self.list_loop,
        }
    }
}

pub open spec fn spec_mission_list(j: Json) -> Option<MissionListV> {
    let mission_list = match member(j, "missionList"@) {
        Some(v) => spec_mission_field(v),
        None => None,
    };
    let mission_theatres = match member(j, "missionTheatres"@) {
        Some(v) => spec_mission_field(v),
        None => None,
    };
    let list_start_index = mem_i32(j, "listStartIndex"@);
    let list_shuffle = mem_bool(j, "listShuffle"@);
    let list_loop = mem_bool(j, "listLoop"@);
    if mission_list is Some && mission_theatres is Some && list_start_index is Some && list_shuffle
        is Some && list_loop is Some {
        Some(
            MissionListV {
                mission_list: mission_list->0,
                mission_theatres: mission_theatres->0,
                list_start_index: list_start_index->0,
                list_shuffle: list_shuffle->0,
                list_loop: list_loop->0,
            },
        )
    } else {
        None
    }
}

impl MissionList {
    pub fn decode(j: &Json) -> (r: Result<MissionList, DecodeError>)
        ensures
            r matches Ok(v) ==> spec_mission_list(*j) == Some(v@),
            r is Err ==> spec_mission_list(*j) is None,
    {
        let mission_list = deserialize_mission_field(req_member(j, "missionList")?, "missionList")?;
        let mission_theatres = deserialize_mission_field(
            req_member(j, "missionTheatres")?,
            "missionTheatres",
        )?;
        let list_start_index = get_i32(j, "listStartIndex")?;
        let list_shuffle = get_bool(j, "listShuffle")?;
        let list_loop = get_bool(j, "listLoop")?;
        Ok(
            MissionList {
                mission_list,
                mission_theatres,
                list_start_index,
                list_shuffle,
                list_loop,
            },
        )
    }
}

/// The advanced block of the echoed server settings.
#[derive(Debug, Clone, PartialEq)]
pub struct AdvancedSettings {
    pub allow_change_tailno: bool,
    pub disable_events: bool,
    pub allow_ownship_export: bool,
    pub allow_object_export: bool,
    pub pause_on_load: bool,
    pub allow_sensor_export: bool,
    pub event_takeoff: bool,
    pub pause_without_clients: bool,
    pub client_outbound_limit: i32,
    pub client_inbound_limit: i32,
    pub server_can_screenshot: bool,
    pub allow_players_pool: bool,
    pub voice_chat_server: bool,
    pub allow_change_skin: bool,
    pub event_connect: bool,
    pub event_ejecting: bool,
    pub event_kill: bool,
    pub event_crash: bool,
    pub event_role: bool,
    pub resume_mode: i32,
    pub max_ping: i32,
    pub allow_trial_only_clients: bool,
    pub allow_dynamic_radio: bool,
    pub red_password_hash: Option<String>,
    pub blue_password_hash: Option<String>,
    pub red_password: Option<String>,
    pub blue_password: Option<String>,
}

pub struct AdvancedSettingsV {
    pub allow_change_tailno: bool,
    pub disable_events: bool,
    pub allow_ownship_export: bool,
    pub allow_object_export: bool,
    pub pause_on_load: bool,
    pub allow_sensor_export: bool,
    pub event_takeoff: bool,
    pub pause_without_clients: bool,
    pub client_outbound_limit: i32,
    pub client_inbound_limit: i32,
    pub server_can_screenshot: bool,
    pub allow_players_pool: bool,
    pub voice_chat_server: bool,
    pub allow_change_skin: bool,
    pub event_connect: bool,
    pub event_ejecting: bool,
    pub event_kill: bool,
    pub event_crash: bool,
    pub event_role: bool,
    pub resume_mode: i32,
    pub max_ping: i32,
    pub allow_trial_only_clients: bool,
    pub allow_dynamic_radio: bool,
    pub red_password_hash: Option<Seq<char>>,
    pub blue_password_hash: Option<Seq<char>>,
    pub red_password: Option<Seq<char>>,
    pub blue_password: Option<Seq<char>>,
}

impl View for AdvancedSettings {
    type V = AdvancedSettingsV;

    open spec fn view(&self) -> AdvancedSettingsV {
        AdvancedSettingsV {
            allow_change_tailno: self.allow_change_tailno,
            disable_events: self.disable_events,
            allow_ownship_export: self.allow_ownship_export,
            allow_object_export: self.allow_object_export,
            pause_on_load: self.pause_on_load,
            allow_sensor_export: self.allow_sensor_export,
            event_takeoff: self.event_takeoff,
            pause_without_clients: self.pause_without_clients,
            client_outbound_limit: self.client_outbound_limit,
            client_inbound_limit: self.client_inbound_limit,
            server_can_screenshot: self.server_can_screenshot,
            allow_players_pool: self.allow_players_pool,
            voice_chat_server: self.voice_chat_server,
            allow_change_skin: self.allow_change_skin,
            event_connect: self.event_connect,
            event_ejecting: self.event_ejecting,
            event_kill: self.event_kill,
            event_crash: self.event_crash,
            event_role: self.event_role,
            resume_mode: self.resume_mode,
            max_ping: self.max_ping,
            allow_trial_only_clients: self.allow_trial_only_clients,
            allow_dynamic_radio: self.allow_dynamic_radio,
            red_password_hash: match self.red_password_hash {
                Some(s) => Some(s@),
                None => None,
            },
            blue_password_hash: match self.blue_password_hash {
                Some(s) => Some(s@),
                None => None,
            },
            red_password: match self.red_password {
                Some(s) => Some(s@),
                None => None,
            },
            blue_password: match self.blue_password {
                Some(s) => Some(s@),
                None => None,
            },
        }
    }
}

#[verifier::opaque]
pub open spec fn spec_advanced_settings(j: Json) -> Option<AdvancedSettingsV> {
    let allow_change_tailno = mem_bool(j, "allow_change_tailno"@);
    let disable_events = mem_bool(j, "disable_events"@);
    let allow_ownship_export = mem_bool(j, "allow_ownship_export"@);
    let allow_object_export = mem_bool(j, "allow_object_export"@);
    let pause_on_load = mem_bool(j, "pause_on_load"@);
    let allow_sensor_export = mem_bool(j, "allow_sensor_export"@);
    let event_takeoff = mem_bool(j, "event_Takeoff"@);
    let pause_without_clients = mem_bool(j, "pause_without_clients"@);
    let client_outbound_limit = mem_i32(j, "client_outbound_limit"@);
    let client_inbound_limit = mem_i32(j, "client_inbound_limit"@);
    let server_can_screenshot = mem_bool(j, "server_can_screenshot"@);
    let allow_players_pool = mem_bool(j, "allow_players_pool"@);
    let voice_chat_server = mem_bool(j, "voice_chat_server"@);
    let allow_change_skin = mem_bool(j, "allow_change_skin"@);
    let event_connect = mem_bool(j, "event_Connect"@);
    let event_ejecting = mem_bool(j, "event_Ejecting"@);
    let event_kill = mem_bool(j, "event_Kill"@);
    let event_crash = mem_bool(j, "event_Crash"@);
    let event_role = mem_bool(j, "event_Role"@);
    let resume_mode = mem_i32(j, "resume_mode"@);
    let max_ping = mem_i32(j, "maxPing"@);
    let allow_trial_only_clients = mem_bool(j, "allow_trial_only_clients"@);
    let allow_dynamic_radio = mem_bool(j, "allow_dynamic_radio"@);
    let red_password_hash = mem_opt_str(j, "redPasswordHash"@);
    let blue_password_hash = mem_opt_str(j, "bluePasswordHash"@);
    let red_password = mem_opt_str(j, "redPassword"@);
    let blue_password = mem_opt_str(j, "bluePassword"@);
    if allow_change_tailno is Some && disable_events is Some && allow_ownship_export is Some
        && allow_object_export is Some && pause_on_load is Some && allow_sensor_export is Some
        && event_takeoff is Some && pause_without_clients is Some && client_outbound_limit is Some
        && client_inbound_limit is Some && server_can_screenshot is Some && allow_players_pool
        is Some && voice_chat_server is Some && allow_change_skin is Some && event_connect is Some
        && event_ejecting is Some && event_kill is Some && event_crash is Some && event_role
        is Some && resume_mode is Some && max_ping is Some && allow_trial_only_clients is Some
        && allow_dynamic_radio is Some && red_password_hash is Some && blue_password_hash is Some
        && red_password is Some && blue_password is Some {
        Some(
            AdvancedSettingsV {
                allow_change_tailno: allow_change_tailno->0,
                disable_events: disable_events->0,
                allow_ownship_export: allow_ownship_export->0,
                allow_object_export: allow_object_export->0,
                pause_on_load: pause_on_load->0,
                allow_sensor_export: allow_sensor_export->0,
                event_takeoff: event_takeoff->0,
                pause_without_clients: pause_without_clients->0,
                client_outbound_limit: client_outbound_limit->0,
                client_inbound_limit: client_inbound_limit->0,
                server_can_screenshot: server_can_screenshot->0,
                allow_players_pool: allow_players_pool->0,
                voice_chat_server: voice_chat_server->0,
                allow_change_skin: allow_change_skin->0,
                event_connect: event_connect->0,
                event_ejecting: event_ejecting->0,
                event_kill: event_kill->0,
                event_crash: event_crash->0,
                event_role: event_role->0,
                resume_mode: resume_mode->0,
                max_ping: max_ping->0,
                allow_trial_only_clients: allow_trial_only_clients->0,
                allow_dynamic_radio: allow_dynamic_radio->0,
                red_password_hash: red_password_hash->0,
                blue_password_hash: blue_password_hash->0,
                red_password: red_password->0,
                blue_password: blue_password->0,
            },
        )
    } else {
        None
    }
}

/// If any field is missing or ill-typed, the record does not decode.
#[verifier::rlimit(100)]
proof fn lemma_advanced_settings_none(j: Json)
    requires
        mem_bool(j, "allow_change_tailno"@) is None || mem_bool(j, "disable_events"@) is None
            || mem_bool(j, "allow_ownship_export"@) is None || mem_bool(
            j,
            "allow_object_export"@,
        ) is None || mem_bool(j, "pause_on_load"@) is None || mem_bool(
            j,
            "allow_sensor_export"@,
        ) is None || mem_bool(j, "event_Takeoff"@) is None || mem_bool(
            j,
            "pause_without_clients"@,
        ) is None || mem_i32(j, "client_outbound_limit"@) is None || mem_i32(
            j,
            "client_inbound_limit"@,
        ) is None || mem_bool(j, "server_can_screenshot"@) is None || mem_bool(
            j,
            "allow_players_pool"@,
        ) is None || mem_bool(j, "voice_chat_server"@) is None || mem_bool(
            j,
            "allow_change_skin"@,
        ) is None || mem_bool(j, "event_Connect"@) is None || mem_bool(j, "event_Ejecting"@)
            is None || mem_bool(j, "event_Kill"@) is None || mem_bool(j, "event_Crash"@) is None
            || mem_bool(j, "event_Role"@) is None || mem_i32(j, "resume_mode"@) is None
            || mem_i32(j, "maxPing"@) is None || mem_bool(j, "allow_trial_only_clients"@) is None
            || mem_bool(j, "allow_dynamic_radio"@) is None || mem_opt_str(j, "redPasswordHash"@)
            is None || mem_opt_str(j, "bluePasswordHash"@) is None || mem_opt_str(
            j,
            "redPassword"@,
        ) is None || mem_opt_str(j, "bluePassword"@) is None,
    ensures
        spec_advanced_settings(j) is None,
{
    reveal(crate::dcs_runtime::spec_advanced_settings);
}

/// With every field present and well-typed, the record decodes to them.
#[verifier::rlimit(100)]
proof fn lemma_advanced_settings_some(j: Json, v: AdvancedSettingsV)
    requires
        mem_bool(j, "allow_change_tailno"@) == Some(v.allow_change_tailno),
        mem_bool(j, "disable_events"@) == Some(v.disable_events),
        mem_bool(j, "allow_ownship_export"@) == Some(v.allow_ownship_export),
        mem_bool(j, "allow_object_export"@) == Some(v.allow_object_export),
        mem_bool(j, "pause_on_load"@) == Some(v.pause_on_load),
        mem_bool(j, "allow_sensor_export"@) == Some(v.allow_sensor_export),
        mem_bool(j, "event_Takeoff"@) == Some(v.event_takeoff),
        mem_bool(j, "pause_without_clients"@) == Some(v.pause_without_clients),
        mem_i32(j, "client_outbound_limit"@) == Some(v.client_outbound_limit),
        mem_i32(j, "client_inbound_limit"@) == Some(v.client_inbound_limit),
        mem_bool(j, "server_can_screenshot"@) == Some(v.server_can_screenshot),
        mem_bool(j, "allow_players_pool"@) == Some(v.allow_players_pool),
        mem_bool(j, "voice_chat_server"@) == Some(v.voice_chat_server),
        mem_bool(j, "allow_change_skin"@) == Some(v.allow_change_skin),
        mem_bool(j, "event_Connect"@) == Some(v.event_connect),
        mem_bool(j, "event_Ejecting"@) == Some(v.event_ejecting),
        mem_bool(j, "event_Kill"@) == Some(v.event_kill),
        mem_bool(j, "event_Crash"@) == Some(v.event_crash),
        mem_bool(j, "event_Role"@) == Some(v.event_role),
        mem_i32(j, "resume_mode"@) == Some(v.resume_mode),
        mem_i32(j, "maxPing"@) == Some(v.max_ping),
        mem_bool(j, "allow_trial_only_clients"@) == Some(v.allow_trial_only_clients),
        mem_bool(j, "allow_dynamic_radio"@) == Some(v.allow_dynamic_radio),
        mem_opt_str(j, "redPasswordHash"@) == Some(v.red_password_hash),
        mem_opt_str(j, "bluePasswordHash"@) == Some(v.blue_password_hash),
        mem_opt_str(j, "redPassword"@) == Some(v.red_password),
        mem_opt_str(j, "bluePassword"@) == Some(v.blue_password),
    ensures
        spec_advanced_settings(j) == Some(v),
{
    reveal(crate::dcs_runtime::spec_advanced_settings);
    let w = spec_advanced_settings(j)->0;
    assert(w == v);
}

impl AdvancedSettings {
    #[verifier::rlimit(100)]
    #[verifier::spinoff_prover]
    pub fn decode(j: &Json) -> (r: Result<AdvancedSettings, DecodeError>)
        ensures
            r matches Ok(v) ==> spec_advanced_settings(*j) == Some(v@),
            r is Err ==> spec_advanced_settings(*j) is None,
    {
        let v1 = get_bool(j, "allow_change_tailno");
        let v2 = get_bool(j, "disable_events");
        let v3 = get_bool(j, "allow_ownship_export");
        let v4 = get_bool(j, "allow_object_export");
        let v5 = get_bool(j, "pause_on_load");
        let v6 = get_bool(j, "allow_sensor_export");
        let v7 = get_bool(j, "event_Takeoff");
        let v8 = get_bool(j, "pause_without_clients");
        let v9 = get_i32(j, "client_outbound_limit");
        let v10 = get_i32(j, "client_inbound_limit");
        let v11 = get_bool(j, "server_can_screenshot");
        let v12 = get_bool(j, "allow_players_pool");
        let v13 = get_bool(j, "voice_chat_server");
        let v14 = get_bool(j, "allow_change_skin");
        let v15 = get_bool(j, "event_Connect");
        let v16 = get_bool(j, "event_Ejecting");
        let v17 = get_bool(j, "event_Kill");
        let v18 = get_bool(j, "event_Crash");
        let v19 = get_bool(j, "event_Role");
        let v20 = get_i32(j, "resume_mode");
        let v21 = get_i32(j, "maxPing");
        let v22 = get_bool(j, "allow_trial_only_clients");
        let v23 = get_bool(j, "allow_dynamic_radio");
        let v24 = get_opt_string(j, "redPasswordHash");
        let v25 = get_opt_string(j, "bluePasswordHash");
        let v26 = get_opt_string(j, "redPassword");
        let v27 = get_opt_string(j, "bluePassword");
        match (
            v1, v2, v3, v4, v5, v6, v7, v8, v9, v10, v11, v12, v13, v14, v15, v16, v17, v18, v19,
            v20, v21, v22, v23, v24, v25, v26, v27,
        ) {
            (
                Ok(allow_change_tailno),
                Ok(disable_events),
                Ok(allow_ownship_export),
                Ok(allow_object_export),
                Ok(pause_on_load),
                Ok(allow_sensor_export),
                Ok(event_takeoff),
                Ok(pause_without_clients),
                Ok(client_outbound_limit),
                Ok(client_inbound_limit),
                Ok(server_can_screenshot),
                Ok(allow_players_pool),
                Ok(voice_chat_server),
                Ok(allow_change_skin),
                Ok(event_connect),
                Ok(event_ejecting),
                Ok(event_kill),
                Ok(event_crash),
                Ok(event_role),
                Ok(resume_mode),
                Ok(max_ping),
                Ok(allow_trial_only_clients),
                Ok(allow_dynamic_radio),
                Ok(red_password_hash),
                Ok(blue_password_hash),
                Ok(red_password),
                Ok(blue_password),
            ) => {
                let out = AdvancedSettings {
                        allow_change_tailno,
                        disable_events,
                        allow_ownship_export,
                        allow_object_export,
                        pause_on_load,
                        allow_sensor_export,
                        event_takeoff,
                        pause_without_clients,
                        client_outbound_limit,
                        client_inbound_limit,
                        server_can_screenshot,
                        allow_players_pool,
                        voice_chat_server,
                        allow_change_skin,
                        event_connect,
                        event_ejecting,
                        event_kill,
                        event_crash,
                        event_role,
                        resume_mode,
                        max_ping,
                        allow_trial_only_clients,
                        allow_dynamic_radio,
                        red_password_hash,
                        blue_password_hash,
                        red_password,
                        blue_password,
                    };
                proof {
                    lemma_advanced_settings_some(*j, out@);
                }
                Ok(out)
            },
            _ => {
                proof {
                    lemma_advanced_settings_none(*j);
                }
                Err(DecodeError::at("advanced"))
            },
        }
    }
}

/// The echoed server settings block.
#[derive(Debug, Clone, PartialEq)]
pub struct Settings {
    pub description: String,
    pub require_pure_textures: bool,
    pub list_start_index: i32,
    pub advanced: AdvancedSettings,
    pub port: i32,
    pub mode: i32,
    pub bind_address: String,
    pub is_public: bool,
    pub list_shuffle: bool,
    pub password: String,
    pub list_loop: bool,
    pub name: String,
    pub require_pure_scripts: bool,
    pub mission_list: Vec<String>,
    pub require_pure_clients: bool,
    pub require_pure_models: bool,
    pub max_players: i32,
}

pub struct SettingsV {
    pub description: Seq<char>,
    pub require_pure_textures: bool,
    pub list_start_index: i32,
    pub advanced: AdvancedSettingsV,
    pub port: i32,
    pub mode: i32,
    pub bind_address: Seq<char>,
    pub is_public: bool,
    pub list_shuffle: bool,
    pub password: Seq<char>,
    pub list_loop: bool,
    pub name: Seq<char>,
    pub require_pure_scripts: bool,
    pub mission_list: Seq<Seq<char>>,
    pub require_pure_clients: bool,
    pub require_pure_models: bool,
    pub max_players: i32,
}

impl View for Settings {
    type V = SettingsV;

    open spec fn view(&self) -> SettingsV {
        SettingsV {
            description: self.description@,
            require_pure_textures: self.require_pure_textures,
            list_start_index: self.list_start_index,
            advanced: self.advanced@,
            port: self.port,
            mode: self.mode,
            bind_address: self.bind_address@,
            is_public: self.is_public,
            list_shuffle: self.list_shuffle,
            password: self.password@,
            list_loop: self.list_loop,
            name: self.name@,
            require_pure_scripts: self.require_pure_scripts,
            mission_list: views_of(self.mission_list@),
            require_pure_clients: self.require_pure_clients,
            require_pure_models: self.require_pure_models,
            max_players: self.max_players,
        }
    }
}

pub open spec fn spec_settings(j: Json) -> Option<SettingsV> {
    let description = mem_str(j, "description"@);
    let require_pure_textures = mem_bool(j, "require_pure_textures"@);
    let list_start_index = mem_i32(j, "listStartIndex"@);
    let advanced = match member(j, "advanced"@) {
        Some(av) => spec_advanced_settings(av),
        None => None,
    };
    let port = mem_i32(j, "port"@);
    let mode = mem_i32(j, "mode"@);
    let bind_address = mem_str(j, "bind_address"@);
    let is_public = mem_bool(j, "isPublic"@);
    let list_shuffle = mem_bool(j, "listShuffle"@);
    let password = mem_str(j, "password"@);
    let list_loop = mem_bool(j, "listLoop"@);
    let name = mem_str(j, "name"@);
    let require_pure_scripts = mem_bool(j, "require_pure_scripts"@);
    let mission_list = match member(j, "missionList"@) {
        Some(v) => spec_mission_field(v),
        None => None,
    };
    let require_pure_clients = mem_bool(j, "require_pure_clients"@);
    let require_pure_models = mem_bool(j, "require_pure_models"@);
    let max_players = mem_i32(j, "maxPlayers"@);
    if description is Some && require_pure_textures is Some && list_start_index is Some && advanced
        is Some && port is Some && mode is Some && bind_address is Some && is_public is Some
        && list_shuffle is Some && password is Some && list_loop is Some && name is Some
        && require_pure_scripts is Some && mission_list is Some && require_pure_clients is Some
        && require_pure_models is Some && max_players is Some {
        Some(
            SettingsV {
                description: description->0,
                require_pure_textures: require_pure_textures->0,
                list_start_index: list_start_index->0,
                advanced: advanced->0,
                port: port->0,
                mode: mode->0,
                bind_address: bind_address->0,
                is_public: is_public->0,
                list_shuffle: list_shuffle->0,
                password: password->0,
                list_loop: list_loop->0,
                name: name->0,
                require_pure_scripts: require_pure_scripts->0,
                mission_list: mission_list->0,
                require_pure_clients: require_pure_clients->0,
                require_pure_models: require_pure_models->0,
                max_players: max_players->0,
            },
        )
    } else {
        None
    }
}

impl Settings {
    #[verifier::rlimit(50)]
    pub fn decode(j: &Json) -> (r: Result<Settings, DecodeError>)
        ensures
            r matches Ok(v) ==> spec_settings(*j) == Some(v@),
            r is Err ==> spec_settings(*j) is None,
    {
        let description = get_string(j, "description")?;
        let require_pure_textures = get_bool(j, "require_pure_textures")?;
        let list_start_index = get_i32(j, "listStartIndex")?;
        let advanced = AdvancedSettings::decode(req_member(j, "advanced")?)?;
        let port = get_i32(j, "port")?;
        let mode = get_i32(j, "mode")?;
        let bind_address = get_string(j, "bind_address")?;
        let is_public = get_bool(j, "isPublic")?;
        let list_shuffle = get_bool(j, "listShuffle")?;
        let password = get_string(j, "password")?;
        let list_loop = get_bool(j, "listLoop")?;
        let name = get_string(j, "name")?;
        let require_pure_scripts = get_bool(j, "require_pure_scripts")?;
        let mission_list = deserialize_mission_field(req_member(j, "missionList")?, "missionList")?;
        let require_pure_clients = get_bool(j, "require_pure_clients")?;
        let require_pure_models = get_bool(j, "require_pure_models")?;
        let max_players = get_i32(j, "maxPlayers")?;
        Ok(
            Settings {
                description,
                require_pure_textures,
                list_start_index,
                advanced,
                port,
                mode,
                bind_address,
                is_public,
                list_shuffle,
                password,
                list_loop,
                name,
                require_pure_scripts,
                mission_list,
                require_pure_clients,
                require_pure_models,
                max_players,
            },
        )
    }
}

/// The full echoed configuration of a running server.
#[derive(Debug, Clone, PartialEq)]
pub struct ServerSettings {
    pub mission_list: MissionList,
    pub settings: Settings,
    pub ip: String,
}

pub struct ServerSettingsV {
    pub mission_list: MissionListV,
    pub settings: SettingsV,
    pub ip: Seq<char>,
}

impl View for ServerSettings {
    type V = ServerSettingsV;

    open spec fn view(&self) -> ServerSettingsV {
        ServerSettingsV {
            mission_list: self.mission_list@,
            settings: self.settings@,
            ip: self.ip@,
        }
    }
}

pub open spec fn spec_server_settings(j: Json) -> Option<ServerSettingsV> {
    let mission_list = match member(j, "mission_list"@) {
        Some(v) => spec_mission_list(v),
        None => None,
    };
    let settings = match member(j, "settings"@) {
        Some(v) => spec_settings(v),
        None => None,
    };
    let ip = mem_str(j, "ip"@);
    if mission_list is Some && settings is Some && ip is Some {
        Some(
            ServerSettingsV {
                mission_list: mission_list->0,
                settings: settings->0,
                ip: ip->0,
            },
        )
    } else {
        None
    }
}

impl ServerSettings {
    pub fn decode(j: &Json) -> (r: Result<ServerSettings, DecodeError>)
        ensures
            r matches Ok(v) ==> spec_server_settings(*j) == Some(v@),
            r is Err ==> spec_server_settings(*j) is None,
    {
        let mission_list = MissionList::decode(req_member(j, "mission_list")?)?;
        let settings = Settings::decode(req_member(j, "settings")?)?;
        let ip = get_string(j, "ip")?;
        Ok(ServerSettings { mission_list, settings, ip })
    }
}

/// A point-in-time read of the live simulation.
#[derive(Debug, Clone, PartialEq)]
pub struct DcsRuntime {
    pub paused: bool,
    pub mission_info: Option<MissionInfo>,
    pub mission_list: Option<MissionList>,
    pub players: Option<PlayersResponse>,
    pub settings: Option<ServerSettings>,
}

pub struct DcsRuntimeV {
    pub paused: bool,
    pub mission_info: Option<MissionInfoV>,
    pub mission_list: Option<MissionListV>,
    pub players: Option<PlayersResponseV>,
    pub settings: Option<ServerSettingsV>,
}

impl View for DcsRuntime {
    type V = DcsRuntimeV;

    open spec fn view(&self) -> DcsRuntimeV {
        DcsRuntimeV {
            paused: self.paused,
            mission_info: match self.mission_info {
                Some(v) => Some(v@),
                None => None,
            },
            mission_list: match self.mission_list {
                Some(v) => Some(v@),
                None => None,
            },
            players: match self.players {
                Some(v) => Some(v@),
                None => None,
            },
            settings: match self.settings {
                Some(v) => Some(v@),
                None => None,
            },
        }
    }
}

pub open spec fn spec_dcs_runtime(j: Json) -> Option<DcsRuntimeV> {
    let paused = mem_bool(j, "paused"@);
    let mission_info = match crate::json::mem_or_null(j, "mission_info"@) {
        None => Some(Option::<MissionInfoV>::None),
        Some(v) => match spec_mission_info(v) {
            Some(x) => Some(Some(x)),
            None => None,
        },
    };
    let mission_list = match crate::json::mem_or_null(j, "mission_list"@) {
        None => Some(Option::<MissionListV>::None),
        Some(v) => match spec_mission_list(v) {
            Some(x) => Some(Some(x)),
            None => None,
        },
    };
    let players = match crate::json::mem_or_null(j, "players"@) {
        None => Some(Option::<PlayersResponseV>::None),
        Some(v) => match spec_players_response(v) {
            Some(x) => Some(Some(x)),
            None => None,
        },
    };
    let settings = match crate::json::mem_or_null(j, "settings"@) {
        None => Some(Option::<ServerSettingsV>::None),
        Some(v) => match spec_server_settings(v) {
            Some(x) => Some(Some(x)),
            None => None,
        },
    };
    if paused is Some && mission_info is Some && mission_list is Some && players is Some
        && settings is Some {
        Some(
            DcsRuntimeV {
                paused: paused->0,
                mission_info: mission_info->0,
                mission_list: mission_list->0,
                players: players->0,
                settings: settings->0,
            },
        )
    } else {
        None
    }
}

impl DcsRuntime {
    pub fn decode(j: &Json) -> (r: Result<DcsRuntime, DecodeError>)
        ensures
            r matches Ok(v) ==> spec_dcs_runtime(*j) == Some(v@),
            r is Err ==> spec_dcs_runtime(*j) is None,
    {
        let paused = get_bool(j, "paused")?;
        let mission_info = match opt_member(j, "mission_info") {
            None => None,
            Some(v) => Some(MissionInfo::decode(v)?),
        };
        let mission_list = match opt_member(j, "mission_list") {
            None => None,
            Some(v) => Some(MissionList::decode(v)?),
        };
        let players = match opt_member(j, "players") {
            None => None,
            Some(v) => Some(PlayersResponse::decode(v)?),
        };
        let settings = match opt_member(j, "settings") {
            None => None,
            Some(v) => Some(ServerSettings::decode(v)?),
        };
        Ok(DcsRuntime { paused, mission_info, mission_list, players, settings })
    }
}

} // verus!
