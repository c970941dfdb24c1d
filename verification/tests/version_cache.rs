use plugin_core::cache::{
    cache_file, judge, CacheEntry, Lookup, Progress, Request, Resume, Slot, VersionCache,
};
use plugin_core::error::Error;

#[test]
fn key_is_substituted_in_the_template() {
    assert_eq!(
        cache_file("/c/node/remote_versions-{KEY}.msgpack.z", "abc"),
        "/c/node/remote_versions-abc.msgpack.z"
    );
    assert_eq!(cache_file("{KEY}/{KEY}", "k"), "k/k");
    assert_eq!(cache_file("{KEY", "k"), "{KEY");
    assert_eq!(cache_file("{{KEY}}", "k"), "{k}");
    assert_eq!(cache_file("", "k"), "");
    assert_eq!(cache_file("é{KEY}ü", ""), "éü");
    assert_eq!(cache_file("{KEY}", "{KEY}"), "{KEY}");
}

#[test]
fn ten_callers_compute_once() {
    let mut cache: VersionCache<Vec<String>> = VersionCache::new("/c/{KEY}.z", "k");
    let mut loads = 0;
    let mut waits = 0;
    for _ in 0..10 {
        match cache.request() {
            Request::Load => loads += 1,
            Request::Wait => waits += 1,
            other => panic!("unexpected: {:?}", other),
        }
    }
    assert_eq!(loads, 1);
    assert_eq!(waits, 9);
    assert!(matches!(cache.loaded(Lookup::Absent), Progress::Compute));
    match cache.computed(Ok(vec!["2.0".to_string(), "1.0".to_string()])) {
        Progress::Persist { path } => assert_eq!(path, "/c/k.z"),
        other => panic!("unexpected: {:?}", other),
    }
    for _ in 0..9 {
        assert!(matches!(cache.resume(), Resume::Hit));
        assert_eq!(cache.value(), Some(&vec!["2.0".to_string(), "1.0".to_string()]));
    }
    for _ in 0..10 {
        assert_eq!(cache.request(), Request::Hit);
        assert_eq!(cache.value(), Some(&vec!["2.0".to_string(), "1.0".to_string()]));
    }
}

#[test]
fn valid_entry_is_returned_without_computing() {
    let mut cache: VersionCache<u32> = VersionCache::new("/c/{KEY}", "k");
    assert_eq!(cache.value(), None);
    assert_eq!(cache.request(), Request::Load);
    assert!(matches!(cache.loaded(Lookup::Valid(5)), Progress::Return));
    assert_eq!(cache.value(), Some(&5));
    assert_eq!(cache.request(), Request::Hit);
}

#[test]
fn failed_computation_is_retried() {
    let mut cache: VersionCache<u32> = VersionCache::new("/c/{KEY}", "k");
    assert_eq!(cache.request(), Request::Load);
    assert!(matches!(cache.loaded(Lookup::Absent), Progress::Compute));
    match cache.computed(Err("offline".to_string())) {
        Progress::Fail(Error::CacheComputeError { reason }) => assert_eq!(reason, "offline"),
        other => panic!("unexpected: {:?}", other),
    }
    assert!(matches!(cache.slot, Slot::Empty));
    assert_eq!(cache.value(), None);
    assert_eq!(cache.request(), Request::Load);
}

#[test]
fn unreadable_entry_fails_the_call() {
    let mut cache: VersionCache<u32> = VersionCache::new("/c/{KEY}", "k");
    assert_eq!(cache.request(), Request::Load);
    match cache.loaded(Lookup::Unreadable("denied".to_string())) {
        Progress::Fail(e) => {
            assert!(matches!(e, Error::CacheIOError { .. }));
            assert_eq!(e.message(), "Failed to read cache file /c/k: denied");
        }
        other => panic!("unexpected: {:?}", other),
    }
    assert!(matches!(cache.slot, Slot::Empty));
}

#[test]
fn reports_out_of_turn_change_nothing() {
    let mut cache: VersionCache<u32> = VersionCache::new("/c/{KEY}", "k");
    assert!(matches!(cache.loaded(Lookup::Valid(1)), Progress::OutOfTurn));
    assert!(matches!(cache.computed(Ok(1)), Progress::OutOfTurn));
    assert_eq!(cache.value(), None);
    assert!(matches!(cache.slot, Slot::Empty));
}

#[test]
fn failure_to_store_is_a_warning() {
    let cache: VersionCache<u32> = VersionCache::new("/c/{KEY}", "k");
    assert_eq!(cache.persisted(Ok(())), None);
    assert_eq!(
        cache.persisted(Err("disk full".to_string())),
        Some("failed to write cache file: /c/k disk full".to_string())
    );
    assert_eq!(
        Error::CacheComputeError { reason: "x".to_string() }.message(),
        "Failed to compute cache entry: x"
    );
}

fn entry(key: &str, written_at: u64) -> CacheEntry<u32> {
    CacheEntry { key: key.to_string(), value: 9, written_at }
}

#[test]
fn stored_entry_counts_while_fresh() {
    assert!(matches!(judge(Ok(Some(entry("k", 100))), "k", 160, Some(60)), Lookup::Valid(9)));
    assert!(matches!(judge(Ok(Some(entry("k", 100))), "k", 161, Some(60)), Lookup::Absent));
    assert!(matches!(judge(Ok(Some(entry("k", 100))), "k", u64::MAX, None), Lookup::Valid(9)));
    assert!(matches!(judge(Ok(Some(entry("k", 100))), "k", 50, Some(0)), Lookup::Valid(9)));
    assert!(matches!(judge(Ok(Some(entry("k", 100))), "k", 100, Some(0)), Lookup::Valid(9)));
    assert!(matches!(judge(Ok(Some(entry("k", 0))), "k", u64::MAX, Some(u64::MAX)), Lookup::Valid(9)));
}

#[test]
fn stored_entry_of_another_key_is_none() {
    assert!(matches!(judge(Ok(Some(entry("j", 100))), "k", 100, None), Lookup::Absent));
    assert!(matches!(judge::<u32>(Ok(None), "k", 100, None), Lookup::Absent));
    match judge::<u32>(Err("denied".to_string()), "k", 100, None) {
        Lookup::Unreadable(reason) => assert_eq!(reason, "denied"),
        other => panic!("unexpected: {:?}", other),
    }
}

#[test]
fn waiting_callers_share_the_failure() {
    let mut cache: VersionCache<u32> = VersionCache::new("/c/{KEY}", "k");
    assert_eq!(cache.request(), Request::Load);
    assert_eq!(cache.request(), Request::Wait);
    assert_eq!(cache.request(), Request::Wait);
    assert!(matches!(cache.resume(), Resume::Wait));
    assert!(matches!(cache.loaded(Lookup::Absent), Progress::Compute));
    assert!(matches!(cache.slot, Slot::Busy { waiting: 2 }));
    assert!(matches!(
        cache.computed(Err("offline".to_string())),
        Progress::Fail(Error::CacheComputeError { .. })
    ));
    assert_eq!(cache.request(), Request::Retry);
    for left in [1, 0] {
        match cache.resume() {
            Resume::Fail(Error::CacheComputeError { reason }) => assert_eq!(reason, "offline"),
            other => panic!("unexpected: {:?}", other),
        }
        if left > 0 {
            assert!(matches!(cache.slot, Slot::Failed { unserved: 1, .. }));
        }
    }
    assert!(matches!(cache.slot, Slot::Empty));
    assert!(matches!(cache.resume(), Resume::OutOfTurn));
    assert_eq!(cache.request(), Request::Load);
}

#[test]
fn waiting_callers_share_the_read_failure() {
    let mut cache: VersionCache<u32> = VersionCache::new("/c/{KEY}", "k");
    assert_eq!(cache.request(), Request::Load);
    assert_eq!(cache.request(), Request::Wait);
    assert!(matches!(cache.loaded(Lookup::Unreadable("denied".to_string())), Progress::Fail(_)));
    match cache.resume() {
        Resume::Fail(Error::CacheIOError { path, reason }) => {
            assert_eq!(path, "/c/k");
            assert_eq!(reason, "denied");
        }
        other => panic!("unexpected: {:?}", other),
    }
    assert!(matches!(cache.slot, Slot::Empty));
}
