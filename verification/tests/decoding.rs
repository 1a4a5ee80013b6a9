use nimbuspulse::billing::BillingType;
use nimbuspulse::dcs_runtime::{
    decode_banned_field, deserialize_mission_field, BannedPlayer, MissionList, Players,
};
use nimbuspulse::instance::{Instance, InstanceStatus, InstanceStoppedReason, Terrain};
use nimbuspulse::json::Json;
use nimbuspulse::system_resources_period::SystemResourcesPeriod;

fn obj(entries: Vec<(&str, Json)>) -> Json {
    Json::Obj(entries.into_iter().map(|(k, v)| (k.to_string(), v)).collect())
}

fn s(text: &str) -> Json {
    Json::Str(text.to_string())
}

fn n(text: &str) -> Json {
    Json::Num(text.to_string())
}

fn banned_player_json() -> Json {
    obj(vec![
        ("banned_from", n("100")),
        ("banned_until", n("200")),
        ("ipaddr", s("10.0.0.1")),
        ("name", s("griefer")),
        ("reason", s("team kill")),
        ("ucid", s("abc123")),
    ])
}

#[test]
fn banned_empty_object_is_empty_sequence() {
    let r = decode_banned_field(&Json::Obj(Vec::new()), "banned").expect("decodes");
    assert!(r.is_empty());
}

#[test]
fn banned_non_empty_object_is_an_error() {
    let bad = obj(vec![("a", obj(vec![]))]);
    assert!(decode_banned_field(&bad, "banned").is_err());
}

#[test]
fn banned_array_decodes_its_records() {
    let r = decode_banned_field(&Json::Arr(vec![banned_player_json()]), "banned")
        .expect("decodes");
    assert_eq!(
        r,
        vec![BannedPlayer {
            banned_from: 100,
            banned_until: 200,
            ipaddr: "10.0.0.1".to_string(),
            name: "griefer".to_string(),
            reason: "team kill".to_string(),
            ucid: "abc123".to_string(),
        }]
    );
}

#[test]
fn mission_field_drops_non_string_entries() {
    let j = Json::Arr(vec![s("m1.miz"), n("42"), s("m2.miz")]);
    let r = deserialize_mission_field(&j, "missionList").expect("decodes");
    assert_eq!(r, vec!["m1.miz".to_string(), "m2.miz".to_string()]);
}

#[test]
fn mission_field_object_is_empty_list() {
    let r = deserialize_mission_field(&Json::Obj(Vec::new()), "missionList").expect("decodes");
    assert!(r.is_empty());
    let nonempty = obj(vec![("anything", n("1"))]);
    let r2 = deserialize_mission_field(&nonempty, "missionList").expect("decodes");
    assert!(r2.is_empty());
}

#[test]
fn mission_field_other_shapes_are_errors() {
    assert!(deserialize_mission_field(&n("3"), "missionList").is_err());
    assert!(deserialize_mission_field(&s("m1.miz"), "missionList").is_err());
}

#[test]
fn mission_list_decodes_camel_cased_keys() {
    let j = obj(vec![
        ("missionList", Json::Arr(vec![s("a.miz")])),
        ("missionTheatres", Json::Obj(Vec::new())),
        ("listStartIndex", n("2")),
        ("listShuffle", Json::Bool(true)),
        ("listLoop", Json::Bool(false)),
    ]);
    let r = MissionList::decode(&j).expect("decodes");
    assert_eq!(r.mission_list, vec!["a.miz".to_string()]);
    assert!(r.mission_theatres.is_empty());
    assert_eq!(r.list_start_index, 2);
    assert!(r.list_shuffle);
    assert!(!r.list_loop);
}

#[test]
fn unit_status_decodes_from_bare_name() {
    let r = InstanceStatus::decode(&s("ServerStarted")).expect("decodes");
    assert_eq!(r, InstanceStatus::ServerStarted);
}

#[test]
fn stopped_status_decodes_with_reason() {
    let j = obj(vec![(
        "ServerStopped",
        obj(vec![("was_error", Json::Bool(true)), ("reason", s("MaxTriesReached"))]),
    )]);
    let r = InstanceStatus::decode(&j).expect("decodes");
    assert_eq!(
        r,
        InstanceStatus::ServerStopped {
            was_error: true,
            reason: InstanceStoppedReason::MaxTriesReached,
        }
    );
}

#[test]
fn want_stopped_status_decodes_passthrough_pair() {
    let j = obj(vec![(
        "WantServerStopped",
        obj(vec![(
            "error_passthrough",
            Json::Arr(vec![Json::Bool(true), s("StoppedUnexpectedly")]),
        )]),
    )]);
    let r = InstanceStatus::decode(&j).expect("decodes");
    assert_eq!(
        r,
        InstanceStatus::WantServerStopped {
            error_passthrough: Some((true, InstanceStoppedReason::StoppedUnexpectedly)),
        }
    );
    let null_case = obj(vec![("WantServerStopped", obj(vec![("error_passthrough", Json::Null)]))]);
    let r2 = InstanceStatus::decode(&null_case).expect("decodes");
    assert_eq!(r2, InstanceStatus::WantServerStopped { error_passthrough: None });
}

#[test]
fn status_rejects_unknown_and_multi_key_objects() {
    assert!(InstanceStatus::decode(&s("Rebooting")).is_err());
    let two = obj(vec![("InstallingMods", Json::Null), ("InstallingPost", Json::Null)]);
    assert!(InstanceStatus::decode(&two).is_err());
}

pub fn instance_json() -> Json {
    obj(vec![
        ("id", s("01234567-89ab-cdef-fedc-ba9876543210")),
        ("node_id", s("00000000-0000-0000-0000-000000000001")),
        ("user_id", s("user-7")),
        ("product_id", s("00000000-0000-0000-0000-000000000002")),
        ("ip", s("203.0.113.9")),
        ("port", n("10308")),
        ("webgui_port", n("8088")),
        ("ftp_port", n("21")),
        ("ftp_username", s("ftp")),
        ("ftp_password", s("pw")),
        ("pid", Json::Null),
        ("status", s("ServerStarted")),
        ("want_delete", Json::Bool(false)),
        ("wanted_terrains", Json::Arr(vec![s("Caucasus"), s("Syria")])),
        ("rented_at", n("1700000000")),
        ("rented_until", n("1700")),
        ("active_mods", Json::Arr(vec![s("modA")])),
        ("created_at", s("2024-01-01T00:00:00Z")),
        ("dcs_settings", Json::Null),
    ])
}

#[test]
fn instance_decodes_every_field() {
    let r = Instance::decode(&instance_json()).expect("decodes");
    assert_eq!(r.id.hi, 0x0123456789abcdef);
    assert_eq!(r.id.lo, 0xfedcba9876543210);
    assert_eq!(r.user_id, "user-7");
    assert_eq!(r.port, 10308);
    assert_eq!(r.pid, None);
    assert_eq!(r.status, InstanceStatus::ServerStarted);
    assert_eq!(r.wanted_terrains, vec![Terrain::Caucasus, Terrain::Syria]);
    assert_eq!(r.rented_at, 1700000000);
    assert_eq!(r.rented_until, Some(1700));
    assert_eq!(r.active_mods, vec!["modA".to_string()]);
    assert!(r.dcs_settings.is_none());
}

#[test]
fn instance_missing_field_is_an_error() {
    let mut entries = match instance_json() {
        Json::Obj(e) => e,
        _ => unreachable!(),
    };
    entries.retain(|e| e.0 != "ip");
    assert!(Instance::decode(&Json::Obj(entries)).is_err());
}

#[test]
fn players_decodes_banned_object_and_roster() {
    let player = obj(vec![
        ("ping", n("30")),
        ("side", n("1")),
        ("slot", s("1")),
        ("id", n("2")),
        ("name", s("pilot")),
        ("score", n("0")),
        ("ucid", s("u1")),
        ("started", Json::Bool(true)),
        ("lang", s("en")),
        ("ipaddr", s("10.0.0.2")),
    ]);
    let j = obj(vec![
        ("banned", Json::Obj(Vec::new())),
        ("all", obj(vec![("2", player)])),
    ]);
    let r = Players::decode(&j).expect("decodes");
    assert!(r.banned.is_empty());
    assert_eq!(r.all.len(), 1);
    assert_eq!(r.all[0].0, "2");
    assert_eq!(r.all[0].1.name, "pilot");
}

#[test]
fn billing_type_parses_any_case_and_labels_lowercase() {
    assert_eq!(BillingType::from_str("hourly"), Ok(BillingType::Hourly));
    assert_eq!(BillingType::from_str("Hourly"), Ok(BillingType::Hourly));
    assert_eq!(BillingType::from_str("MONTHLY"), Ok(BillingType::Monthly));
    assert_eq!(
        BillingType::from_str("weekly"),
        Err("Invalid billing type: weekly".to_string())
    );
    assert_eq!(BillingType::Hourly.label(), "hourly");
    assert_eq!(BillingType::Monthly.label(), "monthly");
}

#[test]
fn period_labels_and_decodes() {
    assert_eq!(SystemResourcesPeriod::Now.label(), "now");
    assert_eq!(SystemResourcesPeriod::Week.label(), "week");
    assert_eq!(
        SystemResourcesPeriod::decode(&s("day")).expect("decodes"),
        SystemResourcesPeriod::Day
    );
    assert!(SystemResourcesPeriod::decode(&s("month")).is_err());
}
