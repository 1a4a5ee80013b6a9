use nimbuspulse::client::{
    action_outcome, base_url, create_server_outcome, get_runtime_outcome,
    get_server_resources_outcome, get_servers_outcome, is_success, missions_path, pause_path,
    resources_path, resume_path, runtime_path, server_path, servers_path, start_mission_path,
    start_server_path, stop_server_path, Client,
};
use nimbuspulse::error::{ApiError, Operation};
use nimbuspulse::ids::Uuid;
use nimbuspulse::instance::InstanceStatus;
use nimbuspulse::json::Json;
use nimbuspulse::system_resources::ServerResources;

fn obj(entries: Vec<(&str, Json)>) -> Json {
    Json::Obj(entries.into_iter().map(|(k, v)| (k.to_string(), v)).collect())
}

fn s(text: &str) -> Json {
    Json::Str(text.to_string())
}

fn n(text: &str) -> Json {
    Json::Num(text.to_string())
}

fn instance_json() -> Json {
    obj(vec![
        ("id", s("01234567-89ab-cdef-fedc-ba9876543210")),
        ("node_id", s("00000000-0000-0000-0000-000000000001")),
        ("user_id", s("user-7")),
        ("product_id", s("00000000-0000-0000-0000-000000000002")),
        ("ip", s("203.0.113.9")),
        ("port", n("10308")),
        ("webgui_port", n("8088")),
        ("ftp_port", n("21")),
        ("ftp_username", s("ftp")),
        ("ftp_password", s("pw")),
        ("pid", n("4242")),
        ("status", s("ServerStarted")),
        ("want_delete", Json::Bool(false)),
        ("wanted_terrains", Json::Arr(Vec::new())),
        ("rented_at", n("1700000000")),
        ("rented_until", Json::Null),
        ("active_mods", Json::Arr(Vec::new())),
        ("created_at", s("2024-01-01T00:00:00Z")),
        ("dcs_settings", Json::Null),
    ])
}

#[test]
fn client_stores_and_rotates_key() {
    let mut c = Client::new("key-one".to_string());
    assert_eq!(c.api_key(), "key-one");
    c.set_api_key("key-two".to_string());
    assert_eq!(c.api_key(), "key-two");
}

#[test]
fn paths_follow_the_wire_protocol() {
    let id = Uuid { hi: 0x0123456789abcdef, lo: 0xfedcba9876543210 };
    let tail = "01234567-89ab-cdef-fedc-ba9876543210";
    assert_eq!(base_url(), "https://coordinator.nimbuspulse.com");
    assert_eq!(servers_path(), "/game_servers");
    assert_eq!(server_path(&id), format!("/game_servers/{}", tail));
    assert_eq!(start_server_path(&id), format!("/game_servers/{}/start", tail));
    assert_eq!(stop_server_path(&id), format!("/game_servers/{}/stop", tail));
    assert_eq!(runtime_path(&id), format!("/game_servers/{}/runtime", tail));
    assert_eq!(resources_path(&id), format!("/game_servers/{}/resources", tail));
    assert_eq!(missions_path(&id), format!("/game_servers/{}/dcs-api/missions", tail));
    assert_eq!(resume_path(&id), format!("/game_servers/{}/dcs-api/resume", tail));
    assert_eq!(pause_path(&id), format!("/game_servers/{}/dcs-api/pause", tail));
    assert_eq!(
        start_mission_path(&id, 7),
        format!("/game_servers/{}/dcs-api/missions/7/start", tail)
    );
}

#[test]
fn create_server_accepts_created_status_with_valid_body() {
    let body = instance_json();
    let r = create_server_outcome(201, String::new(), Some(&body));
    let inst = r.expect("201 with a valid body succeeds");
    assert_eq!(inst.user_id, "user-7");
    assert_eq!(inst.pid, Some(4242));
}

#[test]
fn create_server_conflict_reports_body_text() {
    let r = create_server_outcome(409, "conflict".to_string(), None);
    match r {
        Err(ApiError::HttpStatusFailure { operation, status, body }) => {
            assert_eq!(operation, Operation::CreateServer);
            assert_eq!(status, 409);
            assert!(body.contains("conflict"));
        }
        other => panic!("expected an HTTP status failure, got {:?}", other),
    }
}

#[test]
fn create_server_bad_body_is_a_decode_failure() {
    let body = obj(vec![("id", n("3"))]);
    match create_server_outcome(200, String::new(), Some(&body)) {
        Err(ApiError::DecodeFailure { operation, .. }) => {
            assert_eq!(operation, Operation::CreateServer);
        }
        other => panic!("expected a decode failure, got {:?}", other),
    }
}

#[test]
fn get_runtime_tolerates_banned_object_and_counts_roster() {
    let player = obj(vec![
        ("ping", n("30")),
        ("side", n("1")),
        ("slot", s("1")),
        ("id", n("2")),
        ("name", s("pilot")),
        ("score", n("0")),
        ("ucid", s("u1")),
        ("started", Json::Bool(true)),
        ("lang", s("en")),
        ("ipaddr", s("10.0.0.2")),
    ]);
    let body = obj(vec![
        ("paused", Json::Bool(false)),
        ("mission_info", Json::Null),
        ("mission_list", Json::Null),
        (
            "players",
            obj(vec![
                (
                    "players",
                    obj(vec![
                        ("banned", Json::Obj(Vec::new())),
                        ("all", obj(vec![("2", player)])),
                    ]),
                ),
                ("server_id", n("5")),
            ]),
        ),
        ("settings", Json::Null),
    ]);
    let r = get_runtime_outcome(200, String::new(), Some(&body)).expect("decodes");
    let players = r.players.expect("players present");
    assert_eq!(players.players.banned.len(), 0);
    assert_eq!(players.players.all.len(), 1);
    assert_eq!(players.server_id, 5);
}

#[test]
fn get_servers_decodes_a_list() {
    let body = Json::Arr(vec![instance_json()]);
    let r = get_servers_outcome(200, String::new(), Some(&body)).expect("decodes");
    assert_eq!(r.len(), 1);
    assert_eq!(r[0].status, InstanceStatus::ServerStarted);
}

#[test]
fn get_server_resources_decodes_series() {
    let body = obj(vec![
        (
            "cpus",
            Json::Arr(vec![obj(vec![
                ("metric", obj(vec![("core", s("0"))])),
                (
                    "values",
                    Json::Arr(vec![Json::Arr(vec![n("1700000000.5"), s("12.5")])]),
                ),
            ])]),
        ),
        ("max_ram", n("8192")),
        ("ram", Json::Arr(Vec::new())),
    ]);
    let r: ServerResources =
        get_server_resources_outcome(200, String::new(), Some(&body)).expect("decodes");
    assert_eq!(r.max_ram, 8192);
    assert_eq!(r.cpus.len(), 1);
    assert_eq!(r.cpus[0].metric.core, "0");
    assert_eq!(
        r.cpus[0].values,
        vec![("1700000000.5".to_string(), "12.5".to_string())]
    );
    assert!(r.ram.is_empty());
}

#[test]
fn actions_succeed_only_in_the_success_range() {
    assert!(is_success(200));
    assert!(is_success(299));
    assert!(!is_success(199));
    assert!(!is_success(300));
    assert!(action_outcome(Operation::StartServer, 204, String::new()).is_ok());
    match action_outcome(Operation::StopServer, 500, "boom".to_string()) {
        Err(ApiError::HttpStatusFailure { operation, status, body }) => {
            assert_eq!(operation, Operation::StopServer);
            assert_eq!(status, 500);
            assert_eq!(body, "boom");
        }
        other => panic!("expected an HTTP status failure, got {:?}", other),
    }
}

#[test]
fn transport_failures_carry_their_detail() {
    let e = ApiError::TransportFailure { detail: "dns error".to_string() };
    match e {
        ApiError::TransportFailure { detail } => assert_eq!(detail, "dns error"),
        other => panic!("expected a transport failure, got {:?}", other),
    }
}
