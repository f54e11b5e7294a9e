use google_workspace::{
    DiscoveryFetch, FetchAction, FetchEvent, FetchFailure, FetchPhase, CACHE_TTL_SECS,
};

fn expect_request(action: FetchAction) -> (String, Option<String>) {
    match action {
        FetchAction::Request { url, version_query } => (url, version_query),
        other => panic!("expected a request, got {other:?}"),
    }
}

fn expect_fail(action: FetchAction) -> FetchFailure {
    match action {
        FetchAction::Fail(f) => f,
        other => panic!("expected a failure, got {other:?}"),
    }
}

#[test]
fn invalid_service_fails_first() {
    let (fetch, action) = DiscoveryFetch::start("../drive", "v3", true, None);
    assert_eq!(expect_fail(action), FetchFailure::InvalidService);
    assert_eq!(fetch.phase(), FetchPhase::Finished);
}

#[test]
fn invalid_version_fails() {
    let (_, action) = DiscoveryFetch::start("drive", "v3/..", false, None);
    assert_eq!(expect_fail(action), FetchFailure::InvalidVersion);
}

#[test]
fn without_cache_requests_primary_then_parses() {
    let (mut fetch, action) = DiscoveryFetch::start("drive", "v3", false, None);
    let (url, query) = expect_request(action);
    assert_eq!(url, "https://www.googleapis.com/discovery/v1/apis/drive/v3/rest");
    assert_eq!(query, None);
    assert!(matches!(fetch.step(FetchEvent::Response { status: 200 }), FetchAction::ReadBody));
    assert!(matches!(fetch.step(FetchEvent::Completed), FetchAction::ParseBody));
    assert_eq!(fetch.phase(), FetchPhase::Finished);
}

#[test]
fn primary_failure_falls_back_with_version_query() {
    let (mut fetch, _) = DiscoveryFetch::start("forms", "v1", false, None);
    let (url, query) = expect_request(fetch.step(FetchEvent::Response { status: 404 }));
    assert_eq!(url, "https://forms.googleapis.com/$discovery/rest");
    assert_eq!(query.as_deref(), Some("v1"));
    assert!(matches!(fetch.step(FetchEvent::Response { status: 204 }), FetchAction::ReadBody));
}

#[test]
fn both_urls_failing_reports_fallback_status() {
    let (mut fetch, _) = DiscoveryFetch::start("forms", "v1", false, None);
    let _ = fetch.step(FetchEvent::Response { status: 500 });
    assert_eq!(
        expect_fail(fetch.step(FetchEvent::Response { status: 404 })),
        FetchFailure::FallbackStatus { status: 404 }
    );
}

#[test]
fn override_never_falls_back() {
    let (mut fetch, action) =
        DiscoveryFetch::start("drive", "v3", false, Some("https://proxy.example.com/"));
    let (url, _) = expect_request(action);
    assert_eq!(url, "https://proxy.example.com/discovery/v1/apis/drive/v3/rest");
    assert_eq!(
        expect_fail(fetch.step(FetchEvent::Response { status: 503 })),
        FetchFailure::PrimaryStatus { status: 503 }
    );
}

#[test]
fn status_boundaries() {
    for (status, ok) in [(199u16, false), (200, true), (299, true), (300, false)] {
        let (mut fetch, _) = DiscoveryFetch::start("drive", "v3", false, Some("http://p"));
        let action = fetch.step(FetchEvent::Response { status });
        assert_eq!(matches!(action, FetchAction::ReadBody), ok, "status {status}");
    }
}

#[test]
fn transport_error_fails() {
    let (mut fetch, _) = DiscoveryFetch::start("drive", "v3", false, None);
    assert_eq!(expect_fail(fetch.step(FetchEvent::Failed)), FetchFailure::Io);
}

#[test]
fn fresh_cache_is_used() {
    let (mut fetch, action) = DiscoveryFetch::start("drive", "v3", true, None);
    assert!(matches!(action, FetchAction::CreateCacheDir));
    match fetch.step(FetchEvent::Completed) {
        FetchAction::InspectCache { file_name } => assert_eq!(file_name, "drive_v3.json"),
        other => panic!("unexpected {other:?}"),
    }
    match fetch.step(FetchEvent::CacheAge { seconds: CACHE_TTL_SECS - 1 }) {
        FetchAction::UseCache { file_name } => assert_eq!(file_name, "drive_v3.json"),
        other => panic!("unexpected {other:?}"),
    }
}

#[test]
fn stale_cache_is_refetched_and_rewritten() {
    let (mut fetch, _) = DiscoveryFetch::start("drive", "v3", true, Some("https://proxy.example.com"));
    let _ = fetch.step(FetchEvent::Completed);
    let (url, _) = expect_request(fetch.step(FetchEvent::CacheAge { seconds: 86400 }));
    assert_eq!(url, "https://proxy.example.com/discovery/v1/apis/drive/v3/rest");
    assert!(matches!(fetch.step(FetchEvent::Response { status: 200 }), FetchAction::ReadBody));
    match fetch.step(FetchEvent::Completed) {
        FetchAction::WriteCache { file_name } => {
            assert!(file_name.starts_with("drive_v3_") && file_name.ends_with(".json"))
        }
        other => panic!("unexpected {other:?}"),
    }
    // A failed cache write does not fail the fetch.
    assert!(matches!(fetch.step(FetchEvent::Failed), FetchAction::ParseBody));
}

#[test]
fn missing_cache_requests_primary() {
    let (mut fetch, _) = DiscoveryFetch::start("drive", "v3", true, None);
    let _ = fetch.step(FetchEvent::Completed);
    let (url, _) = expect_request(fetch.step(FetchEvent::CacheMissing));
    assert_eq!(url, "https://www.googleapis.com/discovery/v1/apis/drive/v3/rest");
}

#[test]
fn cache_dir_creation_failure_fails() {
    let (mut fetch, _) = DiscoveryFetch::start("drive", "v3", true, None);
    assert_eq!(expect_fail(fetch.step(FetchEvent::Failed)), FetchFailure::Io);
}
