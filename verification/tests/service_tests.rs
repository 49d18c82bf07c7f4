use otaflux::error::FirmwareError;
use otaflux::http::{
    content_type_header, device_params, firmware_reply, health_reply, version_reply, Body,
    ContentType, Reply,
};
use otaflux::manager::{Decision, FirmwareManager};
use otaflux::record::FirmwareInfo;
use otaflux::request::{Action, Blob, Event, Phase, Request};
use otaflux::resolver::Candidate;
use otaflux::version::SemVer;
use otaflux::webhook::{
    announcement, notification_topic, push_target, HarborEventData, HarborRepository,
    HarborResource, HarborWebhookPayload,
};
use std::collections::HashMap;
use std::sync::Arc;

struct Artifact {
    tag: String,
    bytes: Vec<u8>,
    digest: String,
}

#[derive(Default)]
struct Registry {
    repos: HashMap<String, Vec<Artifact>>,
    down: bool,
    blob_fetches: usize,
    digest_fetches: usize,
}

impl Registry {
    fn with_firmware(mut self, device: &str, tag: &str, bytes: &[u8]) -> Self {
        let digest = format!("sha256:{:08x}", crc32fast::hash(bytes));
        self.publish(device, tag, bytes, &digest);
        self
    }

    fn publish(&mut self, device: &str, tag: &str, bytes: &[u8], digest: &str) {
        let repo = self.repos.entry(device.to_string()).or_default();
        repo.retain(|a| a.tag != tag);
        repo.push(Artifact {
            tag: tag.to_string(),
            bytes: bytes.to_vec(),
            digest: digest.to_string(),
        });
    }

    fn find(&self, device: &str, tag: &str) -> Option<&Artifact> {
        self.repos.get(device)?.iter().find(|a| a.tag == tag)
    }

    fn answer(&mut self, device: &str, action: &Action) -> Event {
        match action {
            Action::ListTags => Event::Tags(if self.down {
                None
            } else {
                self.repos.get(device).map(|r| r.iter().map(|a| a.tag.clone()).collect())
            }),
            Action::FetchManifestDigest { tag } => {
                self.digest_fetches += 1;
                Event::Digest(if self.down {
                    None
                } else {
                    self.find(device, tag).map(|a| a.digest.clone())
                })
            }
            Action::FetchBlob { tag } => {
                self.blob_fetches += 1;
                Event::Blob(if self.down {
                    None
                } else {
                    self.find(device, tag).map(|a| Blob {
                        data: a.bytes.clone(),
                        manifest_digest: a.digest.clone(),
                    })
                })
            }
            Action::Wait => Event::Woken,
            Action::Return { .. } => unreachable!("a request that has returned asks nothing"),
        }
    }
}

struct Served {
    outcome: Result<Arc<FirmwareInfo>, FirmwareError>,
    hit: bool,
    released: bool,
}

fn serve(manager: &mut FirmwareManager, registry: &mut Registry, device: &str) -> Served {
    let mut request = Request::new(device.to_string());
    let mut event = Event::Begin;
    loop {
        let (next, action) = manager.step(request, event);
        request = next;
        if let Action::Return { outcome, hit, released } = action {
            assert!(request.is_done());
            return Served { outcome, hit, released };
        }
        assert!(!request.is_done());
        event = registry.answer(device, &action);
    }
}

fn get_firmware(
    manager: &mut FirmwareManager,
    registry: &mut Registry,
    device: &str,
) -> Result<Arc<FirmwareInfo>, FirmwareError> {
    serve(manager, registry, device).outcome
}

fn manager(cache_size: usize) -> FirmwareManager {
    FirmwareManager::new(cache_size).ok().expect("a manager")
}

fn text_of(reply: &Reply) -> String {
    match &reply.body {
        Body::Text(text) => text.clone(),
        Body::Empty => String::new(),
        Body::Payload(_) => panic!("a payload, not a text"),
    }
}

#[test]
fn manager_refuses_zero_capacity() {
    assert!(matches!(FirmwareManager::new(0), Err(FirmwareError::ZeroCapacity)));
    let m = manager(100);
    assert_eq!(m.capacity(), 100);
    assert_eq!(m.size(), 0);
}

#[test]
fn basic_miss_then_hit() {
    let mut registry = Registry::default().with_firmware("d", "1.0.0", b"abc");
    let mut m = manager(4);
    let first = serve(&mut m, &mut registry, "d");
    assert!(!first.hit);
    assert!(first.released);
    let record = first.outcome.expect("firmware");
    assert_eq!(record.version().to_text(), "1.0.0");
    assert_eq!(record.size(), 3);
    assert_eq!(record.crc(), crc32fast::hash(b"abc"));
    assert_eq!(record.binary().as_slice(), b"abc");
    assert_eq!(m.size(), 1);

    let second = serve(&mut m, &mut registry, "d");
    assert!(second.hit);
    assert!(!second.released);
    let again = second.outcome.expect("firmware");
    assert!(Arc::ptr_eq(&record, &again));
    assert_eq!(again.binary(), record.binary());
    assert_eq!(registry.blob_fetches, 1);
    assert_eq!(registry.digest_fetches, 2);
    assert_eq!(m.size(), 1);
}

#[test]
fn test_firmware_cache_hit() {
    let bytes = b"cached firmware";
    let mut registry = Registry::default().with_firmware("device-cache", "1.0.0", bytes);
    let mut m = manager(100);

    let reply1 = firmware_reply("device-cache", get_firmware(&mut m, &mut registry, "device-cache"));
    assert_eq!(reply1.status, 200);
    let body1 = match reply1.body {
        Body::Payload(r) => r.binary().clone(),
        _ => panic!("a payload"),
    };
    assert_eq!(body1, bytes);

    let reply2 = firmware_reply("device-cache", get_firmware(&mut m, &mut registry, "device-cache"));
    assert_eq!(reply2.status, 200);
    let body2 = match reply2.body {
        Body::Payload(r) => r.binary().clone(),
        _ => panic!("a payload"),
    };
    assert_eq!(body2, bytes);
    assert_eq!(body1, body2, "Cached response should match the first");
    assert_eq!(registry.blob_fetches, 1);
}

#[test]
fn test_selects_highest_semver_tag() {
    let mut registry = Registry::default()
        .with_firmware("device-multi", "1.0.0", b"old firmware v1.0.0")
        .with_firmware("device-multi", "1.5.0", b"firmware v1.5.0")
        .with_firmware("device-multi", "2.1.0", b"latest firmware v2.1.0")
        .with_firmware("device-multi", "2.0.0", b"firmware v2.0.0");
    let mut m = manager(100);
    let outcome = get_firmware(&mut m, &mut registry, "device-multi");
    let reply = version_reply("device-multi", &outcome);
    assert_eq!(reply.status, 200);
    let body = text_of(&reply);
    let version = body.lines().next().expect("first line is version");
    assert_eq!(version, "2.1.0", "Should select highest semver version");
    assert_eq!(outcome.expect("firmware").binary().as_slice(), b"latest firmware v2.1.0");
}

#[test]
fn test_ignores_non_semver_tags() {
    let mut registry = Registry::default()
        .with_firmware("device-mixed", "1.0.0", b"valid semver firmware")
        .with_firmware("device-mixed", "latest", b"latest tag firmware");
    let mut m = manager(100);
    let outcome = get_firmware(&mut m, &mut registry, "device-mixed");
    let reply = version_reply("device-mixed", &outcome);
    assert_eq!(reply.status, 200);
    let body = text_of(&reply);
    let version = body.lines().next().expect("first line is version");
    assert_eq!(version, "1.0.0", "Should select only valid semver tag");
}

#[test]
fn test_thundering_herd_protection() {
    let bytes = b"thundering herd firmware";
    let mut registry = Registry::default().with_firmware("device-herd", "1.0.0", bytes);
    let mut m = manager(100);
    let num_concurrent_requests = 10;

    // Every request gets as far as it can before the one blob arrives.
    let mut waiting = Vec::new();
    let mut owner = None;
    for _ in 0..num_concurrent_requests {
        let mut request = Request::new("device-herd".to_string());
        let mut event = Event::Begin;
        loop {
            let (next, action) = m.step(request, event);
            request = next;
            match action {
                Action::FetchBlob { tag } => {
                    assert!(request.is_owner());
                    assert!(owner.is_none(), "one request fetches");
                    owner = Some((request, tag));
                    break;
                }
                Action::Wait => {
                    assert!(!request.is_owner());
                    waiting.push(request);
                    break;
                }
                Action::Return { .. } => panic!("nothing is cached yet"),
                other => event = registry.answer("device-herd", &other),
            }
        }
    }
    assert_eq!(waiting.len(), num_concurrent_requests - 1);
    assert!(m.is_in_flight("device-herd"));

    let (request, tag) = owner.expect("an owner");
    let blob = registry.answer("device-herd", &Action::FetchBlob { tag });
    let (request, action) = m.step(request, blob);
    assert!(request.is_done());
    let mut results = Vec::new();
    match action {
        Action::Return { outcome, hit, released } => {
            assert!(released && !hit);
            results.push(outcome);
        }
        _ => panic!("the owner returns"),
    }
    assert!(!m.is_in_flight("device-herd"));

    for request in waiting {
        let (request, action) = m.step(request, Event::Woken);
        assert!(request.is_done());
        match action {
            Action::Return { outcome, hit, released } => {
                assert!(!released && !hit);
                results.push(outcome);
            }
            _ => panic!("a woken request returns"),
        }
    }

    assert_eq!(results.len(), num_concurrent_requests);
    for (i, result) in results.iter().enumerate() {
        let fw = result.as_ref().ok().expect("request should succeed");
        assert_eq!(fw.binary().as_slice(), bytes, "Request {i} should get correct firmware");
    }
    assert_eq!(registry.blob_fetches, 1, "Blob endpoint should be called exactly once");
}

#[test]
fn rebuild_under_the_same_tag_is_fetched_again() {
    let mut registry = Registry::default();
    registry.publish("d", "1.0.0", b"X", "sha256:A");
    let mut m = manager(4);
    let seeded = get_firmware(&mut m, &mut registry, "d").expect("firmware");
    assert_eq!(seeded.manifest_digest(), "sha256:A");
    assert_eq!(seeded.binary().as_slice(), b"X");

    registry.publish("d", "1.0.0", b"Y", "sha256:B");
    let served = serve(&mut m, &mut registry, "d");
    assert!(!served.hit);
    let record = served.outcome.expect("firmware");
    assert_eq!(record.manifest_digest(), "sha256:B");
    assert_eq!(record.binary().as_slice(), b"Y");
    assert_eq!(record.version().to_text(), "1.0.0");
    assert_eq!(registry.blob_fetches, 2);
    assert_eq!(m.size(), 1);
    assert_eq!(m.peek("d").expect("cached").manifest_digest(), "sha256:B");
    assert_eq!(seeded.binary().as_slice(), b"X");
}

#[test]
fn newer_version_is_fetched_and_older_is_not() {
    let mut registry = Registry::default();
    registry.publish("d", "1.0.0", b"one", "sha256:1");
    let mut m = manager(4);
    get_firmware(&mut m, &mut registry, "d").expect("firmware");
    registry.publish("d", "1.1.0", b"two", "sha256:2");
    let served = serve(&mut m, &mut registry, "d");
    assert!(!served.hit);
    assert_eq!(served.outcome.expect("firmware").version().to_text(), "1.1.0");
    assert_eq!(registry.blob_fetches, 2);

    // The registry falls back to a lower version with the cached digest:
    // the cached record is at least as new, and is served.
    let mut registry = Registry::default();
    registry.publish("d", "1.0.0", b"one", "sha256:2");
    let served = serve(&mut m, &mut registry, "d");
    assert!(served.hit);
    assert_eq!(served.outcome.expect("firmware").version().to_text(), "1.1.0");
    assert_eq!(registry.blob_fetches, 0);
}

#[test]
fn the_digest_that_came_with_the_blob_is_kept() {
    let mut m = manager(2);
    let request = Request {
        device: "d".to_string(),
        phase: Phase::FetchingDigest(Candidate {
            tag: "1.0.0".to_string(),
            version: SemVer::new(1, 0, 0),
        }),
    };
    let (request, action) = m.step(request, Event::Digest(Some("sha256:resolved".to_string())));
    assert!(matches!(action, Action::FetchBlob { ref tag } if tag == "1.0.0"));
    let blob = Blob { data: b"bytes".to_vec(), manifest_digest: "sha256:fetched".to_string() };
    let (_, action) = m.step(request, Event::Blob(Some(blob)));
    match action {
        Action::Return { outcome: Ok(record), .. } => {
            assert_eq!(record.manifest_digest(), "sha256:fetched");
        }
        _ => panic!("a record"),
    }
}

#[test]
fn errors_of_the_registry_are_reported() {
    let mut m = manager(2);
    let mut registry = Registry::default().with_firmware("d", "1.0.0", b"abc");
    registry.down = true;
    let served = serve(&mut m, &mut registry, "d");
    assert_eq!(served.outcome.err(), Some(FirmwareError::Upstream));
    assert!(!served.released);

    let mut registry = Registry::default().with_firmware("d", "latest", b"abc");
    let served = serve(&mut m, &mut registry, "d");
    assert_eq!(served.outcome.err(), Some(FirmwareError::NotFound));
    assert_eq!(m.size(), 0);

    // No repository at all: listing the tags fails.
    let mut registry = Registry::default();
    assert_eq!(get_firmware(&mut m, &mut registry, "nobody").err(), Some(FirmwareError::Upstream));
}

#[test]
fn a_failed_fetch_releases_and_leaves_the_cache_alone() {
    let mut registry = Registry::default();
    registry.publish("d", "1.0.0", b"X", "sha256:A");
    let mut m = manager(2);
    get_firmware(&mut m, &mut registry, "d").expect("firmware");

    registry.publish("d", "1.0.0", b"Y", "sha256:B");
    let mut request = Request::new("d".to_string());
    let mut event = Event::Begin;
    loop {
        let (next, action) = m.step(request, event);
        request = next;
        if let Action::FetchBlob { .. } = action {
            break;
        }
        event = registry.answer("d", &action);
    }
    assert!(m.is_in_flight("d"));
    let (request, action) = m.step(request, Event::Blob(None));
    assert!(request.is_done());
    assert!(matches!(
        action,
        Action::Return { outcome: Err(FirmwareError::Upstream), hit: false, released: true }
    ));
    assert!(!m.is_in_flight("d"));
    assert_eq!(m.peek("d").expect("cached").manifest_digest(), "sha256:A");

    // The stale record is not served in place of the failed fetch either.
    registry.down = true;
    assert!(get_firmware(&mut m, &mut registry, "d").is_err());
}

#[test]
fn a_cancelled_owner_releases() {
    let mut m = manager(2);
    let request = Request {
        device: "d".to_string(),
        phase: Phase::Fetching(Candidate { tag: "1.0.0".to_string(), version: SemVer::new(1, 0, 0) }),
    };
    assert!(matches!(m.decide("d", &SemVer::new(1, 0, 0), "x"), Decision::Fetch));
    assert!(m.is_in_flight("d"));
    let (request, action) = m.step(request, Event::Cancelled);
    assert!(request.is_done());
    assert!(matches!(
        action,
        Action::Return { outcome: Err(FirmwareError::Interrupted), hit: false, released: true }
    ));
    assert!(!m.is_in_flight("d"));
    assert_eq!(m.size(), 0);
}

#[test]
fn a_waiter_finds_nothing_after_a_failed_fetch() {
    let mut m = manager(2);
    let v = SemVer::new(1, 0, 0);
    assert!(matches!(m.decide("d", &v, "x"), Decision::Fetch));
    assert!(matches!(m.decide("d", &v, "x"), Decision::Wait));
    assert!(m.abandon("d"));
    assert!(!m.abandon("d"));
    assert_eq!(m.recheck("d").err(), Some(FirmwareError::Unavailable));
    let waiter = Request { device: "d".to_string(), phase: Phase::Waiting };
    let (_, action) = m.step(waiter, Event::Woken);
    assert!(matches!(
        action,
        Action::Return { outcome: Err(FirmwareError::Unavailable), hit: false, released: false }
    ));
}

#[test]
fn an_answer_that_was_not_asked_for_ends_the_request() {
    let mut m = manager(2);
    let (request, action) = m.step(Request::new("d".to_string()), Event::Woken);
    assert!(request.is_done());
    assert!(matches!(action, Action::Return { outcome: Err(FirmwareError::Interrupted), .. }));
    let (request, action) = m.step(request, Event::Begin);
    assert!(request.is_done());
    assert!(matches!(
        action,
        Action::Return { outcome: Err(FirmwareError::Interrupted), hit: false, released: false }
    ));
    let listing = Request { device: "d".to_string(), phase: Phase::ListingTags };
    let (_, action) = m.step(listing, Event::Digest(Some("x".to_string())));
    assert!(matches!(action, Action::Return { outcome: Err(FirmwareError::Interrupted), .. }));
    let waiting = Request { device: "d".to_string(), phase: Phase::Waiting };
    let (_, action) = m.step(waiting, Event::Cancelled);
    assert!(matches!(action, Action::Return { outcome: Err(FirmwareError::Interrupted), .. }));
    assert!(!m.is_in_flight("d"));
}

#[test]
fn devices_are_independent() {
    let mut m = manager(2);
    let v = SemVer::new(1, 0, 0);
    assert!(matches!(m.decide("a", &v, "x"), Decision::Fetch));
    assert!(matches!(m.decide("b", &v, "x"), Decision::Fetch));
    assert!(matches!(m.decide("a", &v, "x"), Decision::Wait));
    let record = m.install("a", SemVer::new(1, 0, 0), b"aa".to_vec(), "x".to_string());
    assert_eq!(record.size(), 2);
    assert!(!m.is_in_flight("a"));
    assert!(m.is_in_flight("b"));
    match m.decide("a", &v, "x") {
        Decision::Hit(hit) => assert!(Arc::ptr_eq(&hit, &record)),
        _ => panic!("a hit"),
    }
    assert!(matches!(m.decide("a", &v, "y"), Decision::Fetch));
}

#[test]
fn the_cache_stays_bounded_while_serving() {
    let mut registry = Registry::default();
    for i in 0..10 {
        registry.publish(&format!("device-{i}"), "1.0.0", &[i as u8; 8], &format!("sha256:{i}"));
    }
    let mut m = manager(3);
    for round in 0..40usize {
        let device = format!("device-{}", (round * 7) % 10);
        let record = get_firmware(&mut m, &mut registry, &device).expect("firmware");
        assert_eq!(record.size(), record.binary().len());
        assert_eq!(record.crc(), crc32fast::hash(record.binary()));
        assert!(m.size() <= 3);
        assert!(!m.is_in_flight(&device));
    }
    assert_eq!(m.size(), 3);
}

#[test]
fn least_recently_served_device_is_forgotten() {
    let mut registry = Registry::default()
        .with_firmware("a", "1.0.0", b"a")
        .with_firmware("b", "1.0.0", b"b")
        .with_firmware("c", "1.0.0", b"c");
    let mut m = manager(2);
    get_firmware(&mut m, &mut registry, "a").expect("firmware");
    get_firmware(&mut m, &mut registry, "b").expect("firmware");
    assert!(serve(&mut m, &mut registry, "a").hit);
    get_firmware(&mut m, &mut registry, "c").expect("firmware");
    assert!(m.peek("a").is_some());
    assert!(m.peek("b").is_none());
    assert!(m.peek("c").is_some());
}

#[test]
fn test_version_endpoint_returns_firmware_info() {
    let bytes = b"firmware binary content";
    let mut registry = Registry::default().with_firmware("device-001", "1.2.3", bytes);
    let mut m = manager(100);
    let outcome = get_firmware(&mut m, &mut registry, "device-001");
    let reply = version_reply("device-001", &outcome);
    assert_eq!(reply.status, 200);
    assert_eq!(content_type_header(reply.content_type), Some("text/plain; charset=utf-8"));
    let body = text_of(&reply);
    let lines: Vec<&str> = body.lines().collect();
    assert_eq!(lines.len(), 3, "Expected 3 lines: version, crc, size");
    assert_eq!(lines[0], "1.2.3", "Version should match");
    assert_eq!(lines[2], bytes.len().to_string(), "Size should match");
    let crc: u32 = lines[1].parse().expect("CRC should be a number");
    assert_eq!(crc, crc32fast::hash(bytes), "CRC should match");
    assert_eq!(body, format!("1.2.3\n{}\n{}", crc32fast::hash(bytes), bytes.len()));
}

#[test]
fn test_version_endpoint_device_not_found() {
    let mut registry = Registry::default();
    let mut m = manager(100);
    let outcome = get_firmware(&mut m, &mut registry, "nonexistent-device");
    let reply = version_reply("nonexistent-device", &outcome);
    assert_eq!(reply.status, 404);
    let body = text_of(&reply);
    assert!(body.contains("nonexistent-device"), "Error should mention device name");
    assert_eq!(body, "No firmware for device 'nonexistent-device'");
}

#[test]
fn test_version_endpoint_missing_device_param() {
    let reply = device_params(None).err().expect("a refusal");
    assert_eq!(reply.status, 400);
    assert!(text_of(&reply).contains("device"), "Error should mention missing device parameter");
    let reply = device_params(Some(String::new())).err().expect("a refusal");
    assert_eq!(reply.status, 400);
    assert_eq!(reply.content_type, ContentType::Text);
    let params = device_params(Some("device-001".to_string())).ok().expect("a device");
    assert_eq!(params.device, "device-001");
}

#[test]
fn unknown_device_is_not_found() {
    let mut registry = Registry::default();
    registry.repos.insert("unknown".to_string(), Vec::new());
    let mut m = manager(100);
    let outcome = get_firmware(&mut m, &mut registry, "unknown");
    assert_eq!(outcome.as_ref().err(), Some(&FirmwareError::NotFound));
    assert_eq!(version_reply("unknown", &outcome).status, 404);
    assert_eq!(firmware_reply("unknown", outcome).status, 404);
}

#[test]
fn test_firmware_endpoint_returns_binary() {
    let firmware_content = b"actual firmware binary data here";
    let mut registry = Registry::default().with_firmware("device-002", "2.0.0", firmware_content);
    let mut m = manager(100);
    let reply = firmware_reply("device-002", get_firmware(&mut m, &mut registry, "device-002"));
    assert_eq!(reply.status, 200);
    assert_eq!(
        content_type_header(reply.content_type),
        Some("application/octet-stream"),
        "Content-Type should be octet-stream"
    );
    match reply.body {
        Body::Payload(record) => {
            assert_eq!(record.binary().as_slice(), firmware_content, "Firmware binary should match")
        }
        _ => panic!("a payload"),
    }
}

#[test]
fn test_firmware_endpoint_device_not_found() {
    let mut registry = Registry::default();
    let mut m = manager(100);
    let reply = firmware_reply(
        "nonexistent-device",
        get_firmware(&mut m, &mut registry, "nonexistent-device"),
    );
    assert_eq!(reply.status, 404);
    assert_eq!(content_type_header(reply.content_type), Some("text/plain; charset=utf-8"));
    assert_eq!(text_of(&reply), "No firmware for device 'nonexistent-device'");
}

#[test]
fn test_health_endpoint_returns_ok() {
    let reply = health_reply();
    assert_eq!(reply.status, 200);
    assert_eq!(content_type_header(reply.content_type), None);
    assert!(matches!(reply.body, Body::Empty));
}

fn push(event_type: &str, device: &str, resources: usize) -> HarborWebhookPayload {
    HarborWebhookPayload {
        event_type: event_type.to_string(),
        occur_at: 123_456_789,
        operator: "admin".to_string(),
        event_data: HarborEventData {
            resources: (0..resources)
                .map(|_| HarborResource {
                    digest: "sha256:abc123".to_string(),
                    tag: "1.0.0".to_string(),
                    resource_url: format!("registry/repo/{device}:1.0.0"),
                })
                .collect(),
            repository: HarborRepository {
                date_created: 123_456_789,
                name: device.to_string(),
                namespace: "repo".to_string(),
                repo_full_name: format!("repo/{device}"),
                repo_type: "private".to_string(),
            },
        },
    }
}

#[test]
fn test_harbor_webhook_triggers_mqtt_notification() {
    let firmware_bytes = b"fake firmware binary data for testing";
    let mut registry = Registry::default().with_firmware("repo/device-123", "1.0.0", firmware_bytes);
    let mut m = manager(100);

    let payload = push("PUSH_ARTIFACT", "repo/device-123", 1);
    let (device, rounds) = push_target(&payload).expect("a push");
    assert_eq!(device, "repo/device-123");
    assert_eq!(rounds, 1);

    let outcome = get_firmware(&mut m, &mut registry, device);
    let told = announcement(&outcome).expect("an announcement");
    assert_eq!(notification_topic("otaflux", device), "otaflux/repo/device-123");
    assert_eq!(told.version, "1.0.0");
    assert_eq!(told.size, firmware_bytes.len());
    assert_eq!(registry.blob_fetches, 1);
    assert_eq!(otaflux::webhook::WEBHOOK_STATUS, 200);
    assert_eq!(otaflux::webhook::NOTIFY_QOS, 1);
    assert!(otaflux::webhook::NOTIFY_RETAIN);
}

#[test]
fn other_events_and_failures_announce_nothing() {
    assert!(push_target(&push("DELETE_ARTIFACT", "device-123", 1)).is_none());
    assert!(push_target(&push("push_artifact", "device-123", 1)).is_none());
    assert_eq!(push_target(&push("PUSH_ARTIFACT", "device-123", 3)), Some(("device-123", 3)));
    assert_eq!(push_target(&push("PUSH_ARTIFACT", "device-123", 0)), Some(("device-123", 0)));
    assert!(announcement(&Err(FirmwareError::NotFound)).is_none());
    assert!(announcement(&Err(FirmwareError::Upstream)).is_none());
}
