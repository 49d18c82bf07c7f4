use otaflux::cache::FirmwareCache;
use otaflux::error::FirmwareError;
use otaflux::flight::InFlight;
use otaflux::record::FirmwareInfo;
use otaflux::resolver::{highest, parse_tags, select_latest, Candidate};
use otaflux::version::SemVer;
use std::sync::Arc;

fn version(text: &str) -> SemVer {
    SemVer::parse(text).expect("a semantic version")
}

fn record(version_text: &str, bytes: &[u8], digest: &str) -> Arc<FirmwareInfo> {
    Arc::new(FirmwareInfo::new(version(version_text), bytes.to_vec(), digest.to_string()))
}

fn tags(list: &[&str]) -> Vec<String> {
    list.iter().map(|t| t.to_string()).collect()
}

fn checksum(data: &[u8]) -> u32 {
    FirmwareInfo::new(SemVer::new(0, 0, 0), data.to_vec(), String::new()).crc()
}

#[test]
fn checksum_of_known_inputs() {
    assert_eq!(checksum(b"abc"), 0x3524_41C2);
    assert_eq!(checksum(b"123456789"), 0xCBF4_3926);
    assert_eq!(checksum(b""), 0);
}

#[test]
fn checksum_agrees_with_crc32fast() {
    let data = b"firmware binary content";
    assert_eq!(checksum(data), crc32fast::hash(data));
}

#[test]
fn parse_reads_numbers_and_labels() {
    let v = version("1.2.3-alpha.1+build.5");
    assert_eq!(v.major(), 1);
    assert_eq!(v.minor(), 2);
    assert_eq!(v.patch(), 3);
    assert_eq!(v.pre(), "alpha.1");
    assert_eq!(v.build(), "build.5");
    let plain = version("10.20.30");
    assert_eq!((plain.major(), plain.minor(), plain.patch()), (10, 20, 30));
    assert_eq!(plain.pre(), "");
    assert_eq!(plain.build(), "");
}

#[test]
fn parse_refuses_what_is_no_version() {
    for text in ["latest", "", "1", "1.0", "1.0.0.0", "v1.0.0", "01.0.0", "1.0.0-", "1.0.0 ", "a.b.c"] {
        assert!(SemVer::parse(text).is_none(), "{text:?} is no version");
    }
}

#[test]
fn new_makes_a_release_without_labels() {
    let v = SemVer::new(4, 5, 6);
    assert_eq!((v.major(), v.minor(), v.patch()), (4, 5, 6));
    assert_eq!(v.pre(), "");
    assert_eq!(v.build(), "");
    assert_eq!(v.to_text(), "4.5.6");
}

#[test]
fn precedence_follows_the_numbers() {
    let chain = ["1.0.0-alpha", "1.0.0", "1.0.1", "1.1.0", "2.0.0"];
    for i in 0..chain.len() {
        for j in 0..chain.len() {
            let a = version(chain[i]);
            let b = version(chain[j]);
            assert_eq!(a.at_most(&b), i <= j, "{} <= {}", chain[i], chain[j]);
        }
    }
    assert!(version("1.5.0").at_most(&version("1.19.0")));
    assert!(!version("1.19.0").at_most(&version("1.5.0")));
}

#[test]
fn precedence_of_pre_releases() {
    let chain = [
        "1.0.0-alpha",
        "1.0.0-alpha.1",
        "1.0.0-alpha.beta",
        "1.0.0-beta",
        "1.0.0-beta.2",
        "1.0.0-beta.11",
        "1.0.0-rc.1",
        "1.0.0",
    ];
    for i in 0..chain.len() {
        for j in 0..chain.len() {
            assert_eq!(
                version(chain[i]).at_most(&version(chain[j])),
                i <= j,
                "{} <= {}",
                chain[i],
                chain[j]
            );
        }
    }
}

#[test]
fn precedence_agrees_with_semver() {
    let texts = ["0.0.1", "1.0.0-rc.1", "1.0.0", "1.0.0+b1", "1.0.0+b2", "1.2.3-a.b", "1.2.3-a.1", "3.0.0"];
    for a in texts {
        for b in texts {
            let expected = semver::Version::parse(a).unwrap() <= semver::Version::parse(b).unwrap();
            assert_eq!(version(a).at_most(&version(b)), expected, "{a} <= {b}");
        }
    }
}

#[test]
fn version_text_is_the_tag() {
    for text in ["1.0.0", "0.0.0", "1.2.3-alpha.1", "1.2.3+build", "10.20.30-rc.1+sha.5114f85"] {
        assert_eq!(version(text).to_text(), text);
    }
    assert_eq!(version("18446744073709551615.0.0").to_text(), "18446744073709551615.0.0");
}

#[test]
fn duplicate_is_the_same_version() {
    let v = version("1.2.3-rc.1+x");
    let copy = v.duplicate();
    assert_eq!(copy.to_text(), "1.2.3-rc.1+x");
    assert!(v.at_most(&copy) && copy.at_most(&v));
}

#[test]
fn record_describes_its_payload() {
    let r = FirmwareInfo::new(version("1.0.0"), b"abc".to_vec(), "sha256:A".to_string());
    assert_eq!(r.size(), 3);
    assert_eq!(r.crc(), 0x3524_41C2);
    assert_eq!(r.binary().as_slice(), b"abc");
    assert_eq!(r.manifest_digest(), "sha256:A");
    assert_eq!(r.version().to_text(), "1.0.0");
    let empty = FirmwareInfo::new(version("1.0.0"), Vec::new(), String::new());
    assert_eq!(empty.size(), 0);
    assert_eq!(empty.crc(), 0);
}

#[test]
fn cache_refuses_zero_capacity() {
    assert!(matches!(FirmwareCache::new(0), Err(FirmwareError::ZeroCapacity)));
    let cache = FirmwareCache::new(3).ok().expect("a cache");
    assert_eq!(cache.capacity(), 3);
    assert_eq!(cache.size(), 0);
}

#[test]
fn cache_returns_what_was_put() {
    let mut cache = FirmwareCache::new(2).ok().expect("a cache");
    assert!(cache.peek("a").is_none());
    assert!(cache.get("a").is_none());
    cache.put("a".to_string(), record("1.0.0", b"one", "d1"));
    assert_eq!(cache.size(), 1);
    assert_eq!(cache.peek("a").expect("cached").binary().as_slice(), b"one");
    assert_eq!(cache.get("a").expect("cached").binary().as_slice(), b"one");
    assert!(cache.peek("b").is_none());
}

#[test]
fn cache_replaces_the_record_of_a_device() {
    let mut cache = FirmwareCache::new(2).ok().expect("a cache");
    cache.put("a".to_string(), record("1.0.0", b"one", "d1"));
    cache.put("a".to_string(), record("1.0.1", b"two!", "d2"));
    assert_eq!(cache.size(), 1);
    let r = cache.peek("a").expect("cached");
    assert_eq!(r.binary().as_slice(), b"two!");
    assert_eq!(r.manifest_digest(), "d2");
    assert_eq!(r.size(), 4);
}

#[test]
fn cache_evicts_the_least_recently_used() {
    let mut cache = FirmwareCache::new(2).ok().expect("a cache");
    cache.put("a".to_string(), record("1.0.0", b"a", "da"));
    cache.put("b".to_string(), record("1.0.0", b"b", "db"));
    cache.put("c".to_string(), record("1.0.0", b"c", "dc"));
    assert_eq!(cache.size(), 2);
    assert!(cache.peek("a").is_none());
    assert!(cache.peek("b").is_some());
    assert!(cache.peek("c").is_some());
}

#[test]
fn cache_get_renews_and_peek_does_not() {
    let mut cache = FirmwareCache::new(2).ok().expect("a cache");
    cache.put("a".to_string(), record("1.0.0", b"a", "da"));
    cache.put("b".to_string(), record("1.0.0", b"b", "db"));
    assert!(cache.get("a").is_some());
    cache.put("c".to_string(), record("1.0.0", b"c", "dc"));
    assert!(cache.peek("a").is_some());
    assert!(cache.peek("b").is_none());

    let mut cache = FirmwareCache::new(2).ok().expect("a cache");
    cache.put("a".to_string(), record("1.0.0", b"a", "da"));
    cache.put("b".to_string(), record("1.0.0", b"b", "db"));
    assert!(cache.peek("a").is_some());
    cache.put("c".to_string(), record("1.0.0", b"c", "dc"));
    assert!(cache.peek("a").is_none());
    assert!(cache.peek("b").is_some());
}

#[test]
fn cache_of_one_keeps_the_last() {
    let mut cache = FirmwareCache::new(1).ok().expect("a cache");
    for (i, device) in ["a", "b", "c", "d"].iter().enumerate() {
        cache.put(device.to_string(), record("1.0.0", &[i as u8], "d"));
        assert_eq!(cache.size(), 1);
        assert!(cache.peek(device).is_some());
    }
    assert!(cache.peek("a").is_none());
}

#[test]
fn cache_never_exceeds_its_capacity() {
    let mut cache = FirmwareCache::new(3).ok().expect("a cache");
    for i in 0..20u8 {
        let device = format!("device-{}", i % 7);
        if i % 3 == 0 {
            let _ = cache.get(&device);
        }
        cache.put(device, record("1.0.0", &[i], "d"));
        assert!(cache.size() <= cache.capacity());
    }
    assert_eq!(cache.size(), 3);
}

#[test]
fn claim_and_release() {
    let mut flights = InFlight::new();
    assert_eq!(flights.len(), 0);
    assert!(!flights.contains("d"));
    assert!(flights.claim("d"));
    assert!(flights.contains("d"));
    assert!(!flights.claim("d"));
    assert!(flights.claim("e"));
    assert_eq!(flights.len(), 2);
    assert!(flights.release("d"));
    assert!(!flights.contains("d"));
    assert!(flights.contains("e"));
    assert!(!flights.release("d"));
    assert_eq!(flights.len(), 1);
    assert!(flights.claim("d"));
}

#[test]
fn parse_tags_keeps_versions_in_order() {
    let found = parse_tags(&tags(&["latest", "1.0.0", "nightly", "2.0.0-rc.1", "x.y.z"]));
    let kept: Vec<&str> = found.iter().map(|c| c.tag.as_str()).collect();
    assert_eq!(kept, ["1.0.0", "2.0.0-rc.1"]);
    assert_eq!(found[1].version.pre(), "rc.1");
    assert!(parse_tags(&tags(&["latest"])).is_empty());
    assert!(parse_tags(&Vec::new()).is_empty());
}

#[test]
fn highest_picks_the_last_of_the_highest() {
    let candidates: Vec<Candidate> = ["1.0.0", "2.1.0", "1.5.0", "2.1.0", "2.0.0"]
        .iter()
        .map(|t| Candidate { tag: t.to_string(), version: version(t) })
        .collect();
    assert_eq!(highest(&candidates), Some(3));
    assert_eq!(highest(&Vec::new()), None);
    let one = vec![Candidate { tag: "0.0.1".to_string(), version: version("0.0.1") }];
    assert_eq!(highest(&one), Some(0));
}

#[test]
fn select_latest_takes_the_highest_version() {
    let c = select_latest(&tags(&["1.0.0", "1.5.0", "2.1.0", "2.0.0"])).expect("a release");
    assert_eq!(c.tag, "2.1.0");
    assert_eq!(c.version.to_text(), "2.1.0");
    let c = select_latest(&tags(&["1.0.0", "1.0.1-rc.1", "1.0.0-beta"])).expect("a release");
    assert_eq!(c.tag, "1.0.1-rc.1");
    let c = select_latest(&tags(&["1.9.0", "1.10.0"])).expect("a release");
    assert_eq!(c.tag, "1.10.0");
}

#[test]
fn select_latest_passes_over_other_tags() {
    let c = select_latest(&tags(&["latest", "1.0.0"])).expect("a release");
    assert_eq!(c.tag, "1.0.0");
    assert!(select_latest(&tags(&["latest", "stable"])).is_none());
    assert!(select_latest(&Vec::new()).is_none());
}

#[test]
fn select_latest_dominates_every_tag() {
    let all = tags(&["0.1.0", "3.0.0-alpha", "junk", "2.9.9", "3.0.0-alpha.1", "1.0.0+b"]);
    let best = select_latest(&all).expect("a release");
    assert_eq!(best.tag, "3.0.0-alpha.1");
    for t in &all {
        if let Some(v) = SemVer::parse(t) {
            assert!(v.at_most(&best.version), "{t} <= {}", best.tag);
        }
    }
}

#[test]
fn error_messages() {
    assert_eq!(FirmwareError::NotFound.message(), "no semver tag found");
    assert_eq!(FirmwareError::Upstream.message(), "registry request failed");
    assert_eq!(FirmwareError::Unavailable.message(), "firmware unavailable after waiting");
    assert_eq!(FirmwareError::Interrupted.message(), "request interrupted");
    assert_eq!(FirmwareError::ZeroCapacity.message(), "cache size must be greater than zero");
}
