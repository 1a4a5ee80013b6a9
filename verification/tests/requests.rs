use nimbuspulse::files::FileUploadRequest;
use nimbuspulse::ids::{parse_uuid, Uuid};
use nimbuspulse::instance::Terrain;
use nimbuspulse::json::Json;
use nimbuspulse::num::{parse_i64_dec, parse_u64_dec, u64_to_dec};
use nimbuspulse::region::Region;
use nimbuspulse::request::{CreateInstanceRequest, DcsSettingsPayload};

fn sample_payload() -> DcsSettingsPayload {
    DcsSettingsPayload {
        initial_server_name: "Alpha".to_string(),
        initial_server_password: "hunter2".to_string(),
        initial_max_players: 16,
        enable_io: true,
        enable_os: false,
        enable_lfs: true,
        initial_use_voice_chat: false,
    }
}

fn sample_request() -> CreateInstanceRequest {
    CreateInstanceRequest {
        product_id: Uuid { hi: 0x0123456789abcdef, lo: 0xfedcba9876543210 },
        settings: sample_payload(),
        active_mods: vec!["modA".to_string(), "modB".to_string()],
        wanted_terrains: vec![Terrain::Caucasus, Terrain::Syria],
    }
}

#[test]
fn build_with_password_keeps_it() {
    let r = CreateInstanceRequest::build(
        "Alpha".to_string(),
        Some("hunter2".to_string()),
        16,
        Uuid { hi: 1, lo: 2 },
        vec!["m".to_string()],
        vec![Terrain::Kola],
        true,
        false,
        true,
        false,
    );
    assert_eq!(r.settings.initial_server_password, "hunter2");
    assert_eq!(r.settings.initial_server_name, "Alpha");
    assert_eq!(r.settings.initial_max_players, 16);
    assert_eq!(r.product_id, Uuid { hi: 1, lo: 2 });
    assert_eq!(r.wanted_terrains, vec![Terrain::Kola]);
}

#[test]
fn build_without_password_uses_empty_string() {
    let r = CreateInstanceRequest::build(
        "Alpha".to_string(),
        None,
        4,
        Uuid { hi: 0, lo: 0 },
        Vec::new(),
        Vec::new(),
        false,
        false,
        false,
        false,
    );
    assert_eq!(r.settings.initial_server_password, "");
}

#[test]
fn encoded_request_never_omits_required_fields() {
    let j = sample_request().encode();
    match &j {
        Json::Obj(entries) => {
            let keys: Vec<&str> = entries.iter().map(|e| e.0.as_str()).collect();
            assert_eq!(
                keys,
                vec!["product_id", "settings", "active_mods", "wanted_terrains"]
            );
            match &entries[1].1 {
                Json::Obj(settings) => {
                    let skeys: Vec<&str> = settings.iter().map(|e| e.0.as_str()).collect();
                    assert_eq!(
                        skeys,
                        vec![
                            "initial_server_name",
                            "initial_server_password",
                            "initial_max_players",
                            "enable_io",
                            "enable_os",
                            "enable_lfs",
                            "initial_use_voice_chat",
                        ]
                    );
                }
                other => panic!("settings should be an object, got {:?}", other),
            }
        }
        other => panic!("request should encode to an object, got {:?}", other),
    }
}

#[test]
fn absent_password_encodes_as_empty_string_field() {
    let r = CreateInstanceRequest::build(
        "Alpha".to_string(),
        None,
        4,
        Uuid { hi: 0, lo: 0 },
        Vec::new(),
        Vec::new(),
        false,
        false,
        false,
        false,
    );
    let j = r.settings.encode();
    match &j {
        Json::Obj(entries) => {
            let pw = entries
                .iter()
                .find(|e| e.0 == "initial_server_password")
                .expect("password field present");
            assert_eq!(pw.1, Json::Str(String::new()));
        }
        other => panic!("payload should encode to an object, got {:?}", other),
    }
}

#[test]
fn create_request_round_trips() {
    let r = sample_request();
    let decoded = CreateInstanceRequest::decode(&r.encode()).expect("decodes");
    assert_eq!(decoded, r);
}

#[test]
fn settings_payload_round_trips() {
    let p = sample_payload();
    let decoded = DcsSettingsPayload::decode(&p.encode()).expect("decodes");
    assert_eq!(decoded, p);
}

#[test]
fn file_upload_request_round_trips() {
    let r = FileUploadRequest {
        path: "missions/alpha.miz".to_string(),
        content: vec![0, 1, 127, 128, 255],
        overwrite: true,
    };
    let decoded = FileUploadRequest::decode(&r.encode()).expect("decodes");
    assert_eq!(decoded, r);
}

#[test]
fn terrain_round_trips() {
    let all = [
        Terrain::Afghanistan,
        Terrain::Caucasus,
        Terrain::Falklands,
        Terrain::Iraq,
        Terrain::Kola,
        Terrain::MarianaIslands,
        Terrain::Nevada,
        Terrain::Normandy,
        Terrain::PersianGulf,
        Terrain::Sinai,
        Terrain::Syria,
        Terrain::TheChannel,
    ];
    for t in all {
        assert_eq!(Terrain::decode(&t.encode()).expect("decodes"), t);
    }
}

#[test]
fn region_round_trips_and_uses_wire_names() {
    for x in [Region::Germany, Region::USA, Region::Invalid] {
        assert_eq!(Region::decode(&x.encode()).expect("decodes"), x);
    }
    assert_eq!(Region::Germany.encode(), Json::Str("de".to_string()));
    assert_eq!(Region::USA.encode(), Json::Str("us".to_string()));
}

#[test]
fn uuid_formats_hyphenated_lowercase() {
    let u = Uuid { hi: 0x0123456789abcdef, lo: 0xfedcba9876543210 };
    assert_eq!(u.hyphenated(), "01234567-89ab-cdef-fedc-ba9876543210");
}

#[test]
fn uuid_parses_both_cases_and_round_trips() {
    let u = Uuid { hi: 0xdeadbeef00112233, lo: 0x445566778899aabb };
    let text = u.hyphenated();
    assert_eq!(parse_uuid(&text), Some(u));
    assert_eq!(parse_uuid("DEADBEEF-0011-2233-4455-66778899AABB"), Some(u));
    assert_eq!(parse_uuid("deadbeef-0011-2233-4455-66778899aab"), None);
    assert_eq!(parse_uuid("deadbeef_0011-2233-4455-66778899aabb"), None);
    assert_eq!(parse_uuid("deadbeeg-0011-2233-4455-66778899aabb"), None);
}

#[test]
fn decimal_text_round_trips() {
    assert_eq!(u64_to_dec(0), "0");
    assert_eq!(u64_to_dec(18446744073709551615), "18446744073709551615");
    assert_eq!(parse_u64_dec("42"), Some(42));
    assert_eq!(parse_u64_dec("18446744073709551616"), None);
    assert_eq!(parse_u64_dec("1.5"), None);
    assert_eq!(parse_u64_dec(""), None);
    assert_eq!(parse_i64_dec("-9223372036854775808"), Some(i64::MIN));
    assert_eq!(parse_i64_dec("-9223372036854775809"), None);
    assert_eq!(parse_i64_dec("9223372036854775807"), Some(i64::MAX));
}
