use govee_web::cache::{DirectoryCache, FetchOutcome, FetchStep, ListStep, ReadOutcome,
    WriteOutcome};
use govee_web::codec::encode_directory;
use govee_web::color::{parse_color, Color};
use govee_web::controller::resolve;
use govee_web::device::{Device, Devices};
use govee_web::error::{DeviceRepoError, Error};
use govee_web::health::{health_response, HealthStatus};
use govee_web::settings::{default_port, default_ttl, Settings};

fn device(id: &str, name: &str) -> Device {
    Device {
        device: id.to_string(),
        model: "H6159".to_string(),
        name: name.to_string(),
        controllable: true,
        retrievable: true,
    }
}

#[test]
fn resolve_returns_the_first_match() {
    let directory = Devices {
        devices: vec![device("X", "first"), device("Y", "other"), device("X", "second")],
    };
    let d = resolve(&directory, "X").expect("X is present");
    assert_eq!(d.device, "X");
    assert_eq!(d.name, "first");
}

#[test]
fn resolve_fails_with_device_not_found() {
    let directory = Devices { devices: vec![device("X", "first")] };
    let e = resolve(&directory, "missing").expect_err("missing is absent");
    assert_eq!(e, Error::DeviceNotFound("missing".to_string()));
}

#[test]
fn resolve_is_case_sensitive_and_exact() {
    let directory = Devices { devices: vec![device("Bulb", "first")] };
    assert!(resolve(&directory, "bulb").is_err());
    assert!(resolve(&directory, "Bul").is_err());
    assert!(resolve(&directory, "Bulb").is_ok());
}

#[test]
fn end_to_end_directory_example() {
    // TTL 300 s, empty cache: the first listing misses, fetches one device
    // from upstream, stores it, and returns it.
    let cache = DirectoryCache::new(300);
    assert!(matches!(cache.on_read(ReadOutcome::Absent), ListStep::FetchUpstream));
    let upstream = Devices { devices: vec![device("bulb1", "Desk")] };
    let (cmd, fetched) = match cache.on_fetch(FetchOutcome::Fetched(upstream)) {
        FetchStep::Store(cmd, out) => (cmd, out),
        other => panic!("expected a store command, got {:?}", other),
    };
    assert_eq!(cmd.ttl_seconds, 300);
    let (listed, logged) = cache.finish_miss(fetched, WriteOutcome::Written);
    assert_eq!(logged, None);
    assert_eq!(listed.devices.len(), 1);
    assert_eq!(listed.devices[0].device, "bulb1");
    // A second listing within the TTL hits the stored payload: same single
    // device, no upstream step.
    let again = match cache.on_read(ReadOutcome::Found(cmd.payload)) {
        ListStep::Serve(d) => d,
        other => panic!("expected a served directory, got {:?}", other),
    };
    assert_eq!(again.devices.len(), 1);
    assert_eq!(again.devices[0].device, "bulb1");
    assert_eq!(again.devices[0].name, "Desk");
    // bulb1 resolves; an unknown identifier maps to the 404 kind.
    assert!(resolve(&again, "bulb1").is_ok());
    let missing = resolve(&again, "nope").expect_err("nope is absent");
    assert_eq!(missing.status_code(), 404);
}

#[test]
fn error_kinds_map_to_their_status_codes() {
    assert_eq!(Error::InvalidColor("zzz".to_string()).status_code(), 400);
    assert_eq!(Error::DeviceNotFound("x".to_string()).status_code(), 404);
    assert_eq!(Error::Repo(DeviceRepoError::Serialization).status_code(), 500);
    assert_eq!(
        Error::Repo(DeviceRepoError::Connection("down".to_string())).status_code(),
        500
    );
}

#[test]
fn error_messages_name_client_faults_and_hide_server_detail() {
    assert_eq!(
        Error::InvalidColor("zzz".to_string()).response_message(),
        "Invalid color 'zzz'"
    );
    assert_eq!(
        Error::DeviceNotFound("nope".to_string()).response_message(),
        "Unknown device 'nope'"
    );
    assert_eq!(
        Error::Repo(DeviceRepoError::GetKey("secret detail".to_string())).response_message(),
        "UNHANDLED_SERVER_ERROR"
    );
}

#[test]
fn colors_parse_with_and_without_the_leading_hash() {
    assert_eq!(parse_color("#00ff80"), Ok(Color { red: 0, green: 255, blue: 128 }));
    assert_eq!(parse_color("00FF80"), Ok(Color { red: 0, green: 255, blue: 128 }));
    assert_eq!(parse_color("#A1b2C3"), Ok(Color { red: 161, green: 178, blue: 195 }));
}

#[test]
fn unparsable_colors_are_invalid_input() {
    assert_eq!(parse_color("red"), Err(Error::InvalidColor("red".to_string())));
    assert_eq!(parse_color("#12345"), Err(Error::InvalidColor("#12345".to_string())));
    assert_eq!(parse_color("#1234567"), Err(Error::InvalidColor("#1234567".to_string())));
    assert_eq!(parse_color("#12g456"), Err(Error::InvalidColor("#12g456".to_string())));
    assert_eq!(parse_color(""), Err(Error::InvalidColor("".to_string())));
}

#[test]
fn health_endpoint_reports_the_probe() {
    let (code, body) = health_response("1.2.3".to_string(), true);
    assert_eq!(code, 200);
    assert_eq!(body.status, HealthStatus::Healthy);
    assert_eq!(body.version, "1.2.3");
    let (code, body) = health_response("1.2.3".to_string(), false);
    assert_eq!(code, 500);
    assert_eq!(body.status, HealthStatus::Failing);
}

#[test]
fn settings_apply_defaults_for_absent_fields() {
    assert_eq!(default_ttl(), 300);
    assert_eq!(default_port(), 3000);
    let s = Settings::from_parts(
        "foo".to_string(),
        "redis://fakeredis:1234".to_string(),
        "https://developer-api.example".to_string(),
        None,
        None,
        None,
    );
    assert_eq!(s.redis_ttl(), 300);
    assert_eq!(s.port, 3000);
    assert_eq!(s.bind_addr, [127, 0, 0, 1]);
    assert_eq!(s.api_key, "foo");
    assert_eq!(s.redis_uri, "redis://fakeredis:1234");
}

#[test]
fn settings_keep_explicit_values() {
    let s = Settings::from_parts(
        "bar".to_string(),
        "redis://otherredis:1234".to_string(),
        "http://foo/bar".to_string(),
        Some(400),
        Some([255, 255, 255, 255]),
        Some(7070),
    );
    assert_eq!(s.redis_ttl(), 400);
    assert_eq!(s.port, 7070);
    assert_eq!(s.bind_addr, [255, 255, 255, 255]);
    assert_eq!(s.remote_api_url, "http://foo/bar");
}

#[test]
fn stored_payload_feeds_resolution() {
    // A wrapper that handed its input back unchanged instead of collecting
    // the decoded field characters would break this: the decoded identifier
    // must equal the encoded one character for character.
    let cache = DirectoryCache::new(300);
    let payload = encode_directory(&Devices { devices: vec![device("AA:BB", "Desk")] });
    let served = match cache.on_read(ReadOutcome::Found(payload)) {
        ListStep::Serve(d) => d,
        other => panic!("expected a served directory, got {:?}", other),
    };
    let d = resolve(&served, "AA:BB").expect("the stored device resolves");
    assert_eq!(d.name, "Desk");
}
