use govee_web::cache::{CacheKey, DirectoryCache, FetchOutcome, FetchStep, ListStep, ReadOutcome,
    WriteOutcome};
use govee_web::codec::{decode_directory, encode_directory};
use govee_web::device::{Device, Devices};
use govee_web::error::DeviceRepoError;

fn device(id: &str, model: &str, name: &str) -> Device {
    Device {
        device: id.to_string(),
        model: model.to_string(),
        name: name.to_string(),
        controllable: true,
        retrievable: true,
    }
}

fn sample_directory() -> Devices {
    Devices {
        devices: vec![
            device("AA:BB:CC:DD", "H6159", "Desk strip"),
            device("11:22:33:44", "H6003", "Bedroom, lamp; \\ corner"),
        ],
    }
}

#[test]
fn hit_serves_stored_directory_unchanged() {
    let cache = DirectoryCache::new(300);
    let stored = encode_directory(&sample_directory());
    let step = cache.on_read(ReadOutcome::Found(stored));
    match step {
        ListStep::Serve(d) => {
            assert_eq!(d.devices.len(), 2);
            assert_eq!(d.devices[0].device, "AA:BB:CC:DD");
            assert_eq!(d.devices[0].model, "H6159");
            assert_eq!(d.devices[0].name, "Desk strip");
            assert_eq!(d.devices[1].device, "11:22:33:44");
            assert_eq!(d.devices[1].name, "Bedroom, lamp; \\ corner");
        },
        other => panic!("expected a served directory, got {:?}", other),
    }
}

#[test]
fn miss_steps_to_upstream_fetch() {
    let cache = DirectoryCache::new(300);
    let step = cache.on_read(ReadOutcome::Absent);
    assert!(matches!(step, ListStep::FetchUpstream));
}

#[test]
fn unreachable_backend_is_a_connection_error_not_a_miss() {
    let cache = DirectoryCache::new(300);
    let step = cache.on_read(ReadOutcome::Unreachable("connection refused".to_string()));
    match step {
        ListStep::Fail(e) => {
            assert_eq!(e, DeviceRepoError::Connection("connection refused".to_string()));
        },
        other => panic!("expected a hard failure, got {:?}", other),
    }
}

#[test]
fn failed_read_is_a_hard_error() {
    let cache = DirectoryCache::new(300);
    let step = cache.on_read(ReadOutcome::Failed("io timeout".to_string()));
    match step {
        ListStep::Fail(e) => {
            assert_eq!(e, DeviceRepoError::GetKey("io timeout".to_string()));
        },
        other => panic!("expected a hard failure, got {:?}", other),
    }
}

#[test]
fn corrupt_payload_is_a_serialization_error_not_a_miss() {
    let cache = DirectoryCache::new(300);
    let corrupt: Vec<char> = "this is not a directory".chars().collect();
    let step = cache.on_read(ReadOutcome::Found(corrupt));
    match step {
        ListStep::Fail(e) => assert_eq!(e, DeviceRepoError::Serialization),
        other => panic!("expected a serialization failure, got {:?}", other),
    }
}

#[test]
fn miss_stores_the_fetched_directory_with_the_configured_ttl() {
    let cache = DirectoryCache::new(120);
    let fetched = sample_directory();
    let expected_payload = encode_directory(&fetched);
    let step = cache.on_fetch(FetchOutcome::Fetched(fetched));
    match step {
        FetchStep::Store(cmd, out) => {
            assert_eq!(cmd.key, CacheKey::Directory);
            assert_eq!(cmd.ttl_seconds, 120);
            assert_eq!(cmd.payload, expected_payload);
            assert_eq!(out.devices.len(), 2);
            assert_eq!(out.devices[0].device, "AA:BB:CC:DD");
        },
        other => panic!("expected a store command, got {:?}", other),
    }
}

#[test]
fn failed_fetch_propagates_the_upstream_error() {
    let cache = DirectoryCache::new(300);
    let step = cache.on_fetch(FetchOutcome::Failed("429 rate limited".to_string()));
    match step {
        FetchStep::Fail(e) => {
            assert_eq!(e, DeviceRepoError::Upstream("429 rate limited".to_string()));
        },
        other => panic!("expected a failure, got {:?}", other),
    }
}

#[test]
fn write_failure_on_a_miss_still_returns_the_fresh_directory() {
    let cache = DirectoryCache::new(300);
    let fetched = sample_directory();
    let (returned, ignored) = cache.finish_miss(
        fetched,
        WriteOutcome::Failed("backend gone".to_string()),
    );
    assert_eq!(returned.devices.len(), 2);
    assert_eq!(returned.devices[0].device, "AA:BB:CC:DD");
    assert_eq!(ignored, Some(DeviceRepoError::SetKey("backend gone".to_string())));
}

#[test]
fn successful_write_on_a_miss_reports_no_error() {
    let cache = DirectoryCache::new(300);
    let (returned, ignored) = cache.finish_miss(sample_directory(), WriteOutcome::Written);
    assert_eq!(returned.devices.len(), 2);
    assert_eq!(ignored, None);
}

#[test]
fn health_probe_succeeds_iff_the_sentinel_write_succeeds() {
    let cache = DirectoryCache::new(300);
    let (key, value) = cache.health_command();
    assert_eq!(key, CacheKey::Health);
    assert_eq!(value, "hello");
    assert!(cache.health_result(WriteOutcome::Written).is_ok());
    assert_eq!(
        cache.health_result(WriteOutcome::Failed("write refused".to_string())),
        Err(DeviceRepoError::HealthCheck("write refused".to_string()))
    );
    assert_eq!(
        cache.health_result(WriteOutcome::Unreachable("backend down".to_string())),
        Err(DeviceRepoError::Connection("backend down".to_string()))
    );
}

#[test]
fn consecutive_lists_within_the_ttl_window_agree() {
    let cache = DirectoryCache::new(300);
    // First call: miss, fetch, store.
    assert!(matches!(cache.on_read(ReadOutcome::Absent), ListStep::FetchUpstream));
    let step = cache.on_fetch(FetchOutcome::Fetched(sample_directory()));
    let (cmd, first) = match step {
        FetchStep::Store(cmd, out) => (cmd, out),
        other => panic!("expected a store command, got {:?}", other),
    };
    let (first, _) = cache.finish_miss(first, WriteOutcome::Written);
    // Second call: hit on the stored payload.
    let second = match cache.on_read(ReadOutcome::Found(cmd.payload)) {
        ListStep::Serve(d) => d,
        other => panic!("expected a served directory, got {:?}", other),
    };
    assert_eq!(first.devices.len(), second.devices.len());
    for (a, b) in first.devices.iter().zip(second.devices.iter()) {
        assert_eq!(a.device, b.device);
        assert_eq!(a.model, b.model);
        assert_eq!(a.name, b.name);
        assert_eq!(a.controllable, b.controllable);
        assert_eq!(a.retrievable, b.retrievable);
    }
}

#[test]
fn decode_rejects_truncated_and_garbled_payloads() {
    let full = encode_directory(&sample_directory());
    let mut truncated = full.clone();
    truncated.pop();
    assert!(decode_directory(&truncated).is_none());
    let mut garbled = full.clone();
    garbled[0] = ';';
    assert!(decode_directory(&garbled).is_none());
    assert!(decode_directory(&"a,b".chars().collect()).is_none());
}

#[test]
fn codec_round_trips_an_empty_directory() {
    let empty = Devices { devices: vec![] };
    let payload = encode_directory(&empty);
    assert!(payload.is_empty());
    let back = decode_directory(&payload).expect("an empty payload is an empty directory");
    assert!(back.devices.is_empty());
}

#[test]
fn codec_round_trips_separators_and_escapes_in_fields() {
    let tricky = Devices {
        devices: vec![Device {
            device: "a,b;c\\d".to_string(),
            model: "".to_string(),
            name: "\\;,".to_string(),
            controllable: false,
            retrievable: true,
        }],
    };
    let payload = encode_directory(&tricky);
    let back = decode_directory(&payload).expect("an encoded directory decodes");
    assert_eq!(back.devices.len(), 1);
    assert_eq!(back.devices[0].device, "a,b;c\\d");
    assert_eq!(back.devices[0].model, "");
    assert_eq!(back.devices[0].name, "\\;,");
    assert!(!back.devices[0].controllable);
    assert!(back.devices[0].retrievable);
}

#[test]
fn payload_format_concrete_example() {
    let d = Devices {
        devices: vec![Device {
            device: "a,b".to_string(),
            model: "m".to_string(),
            name: "n".to_string(),
            controllable: true,
            retrievable: false,
        }],
    };
    let payload: String = encode_directory(&d).iter().collect();
    assert_eq!(payload, "a\\,b,m,n,10;");
}
