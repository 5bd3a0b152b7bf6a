use gaveloc::error::Error;
use gaveloc::manifest::{
    cache_is_fresh, cache_path, fetch_step, manifest_url, FetchEvent, FetchStep,
    MANIFEST_BASE_URL, MANIFEST_CACHE_SECS, MANIFEST_TIMEOUT_SECS,
};

#[test]
fn test_cache_path() {
    let path = cache_path(Some("/home/u/.cache/gaveloc"), "2024.01.01.0000.0000");
    assert!(path.contains("2024.01.01.0000.0000.json"));
    assert_eq!(path, "/home/u/.cache/gaveloc/manifests/2024.01.01.0000.0000.json");
    assert_eq!(
        cache_path(Some("/c/"), "2024.01.01.0000.0000"),
        "/c/manifests/2024.01.01.0000.0000.json"
    );
    assert_eq!(
        cache_path(None, "2024.01.01.0000.0000"),
        "/tmp/gaveloc_manifest_2024.01.01.0000.0000.json"
    );
}

#[test]
fn test_manifest_url() {
    assert_eq!(MANIFEST_BASE_URL, "https://goatcorp.github.io/integrity");
    assert_eq!(
        manifest_url("2024.07.23.0000.0001"),
        "https://goatcorp.github.io/integrity/2024.07.23.0000.0001.json"
    );
    assert_eq!(MANIFEST_TIMEOUT_SECS, 30);
}

#[test]
fn test_manifest_cache_lasts_a_day() {
    assert_eq!(MANIFEST_CACHE_SECS, 24 * 60 * 60);
    assert!(cache_is_fresh(Some(0)));
    assert!(cache_is_fresh(Some(86399)));
    assert!(!cache_is_fresh(Some(86400)));
    assert!(!cache_is_fresh(Some(u64::MAX)));
    assert!(!cache_is_fresh(None));
}

fn shown(step: FetchStep) -> String {
    match step {
        FetchStep::Read => "read".to_string(),
        FetchStep::Retry { wait_secs } => format!("retry {}", wait_secs),
        FetchStep::Fail(Error::IntegrityManifestNotFound(v)) => format!("missing {}", v),
        FetchStep::Fail(Error::Network(m)) => format!("network {}", m),
        FetchStep::Fail(other) => format!("other {:?}", other),
    }
}

#[test]
fn test_manifest_answers() {
    let v = "2024.07.23.0000.0001";
    for attempt in 0..5 {
        assert_eq!(shown(fetch_step(v, attempt, &FetchEvent::Status(200))), "read");
        assert_eq!(shown(fetch_step(v, attempt, &FetchEvent::Status(204))), "read");
        assert_eq!(
            shown(fetch_step(v, attempt, &FetchEvent::Status(404))),
            "missing 2024.07.23.0000.0001"
        );
        assert_eq!(
            shown(fetch_step(v, attempt, &FetchEvent::Status(403))),
            "network manifest request failed: 403"
        );
        assert_eq!(
            shown(fetch_step(v, attempt, &FetchEvent::Status(302))),
            "network manifest request failed: 302"
        );
    }
}

#[test]
fn test_manifest_retries_three_times_at_most() {
    let v = "2024.07.23.0000.0001";
    let refused = FetchEvent::Transport("connection refused".to_string());
    assert_eq!(shown(fetch_step(v, 0, &FetchEvent::Status(500))), "retry 1");
    assert_eq!(shown(fetch_step(v, 1, &FetchEvent::Status(503))), "retry 2");
    assert_eq!(
        shown(fetch_step(v, 2, &FetchEvent::Status(599))),
        "network manifest request failed: 599"
    );
    assert_eq!(shown(fetch_step(v, 0, &refused)), "retry 1");
    assert_eq!(shown(fetch_step(v, 1, &refused)), "retry 2");
    assert_eq!(
        shown(fetch_step(v, 2, &refused)),
        "network failed to fetch integrity manifest: connection refused"
    );
    assert_eq!(shown(fetch_step(v, 0, &FetchEvent::TimedOut)), "retry 0");
    assert_eq!(shown(fetch_step(v, 1, &FetchEvent::TimedOut)), "retry 0");
    assert_eq!(shown(fetch_step(v, 2, &FetchEvent::TimedOut)), "network manifest fetch timeout");
    assert_eq!(shown(fetch_step(v, u32::MAX, &FetchEvent::TimedOut)), "network manifest fetch timeout");
}
