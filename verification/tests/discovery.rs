use google_workspace::{
    discovery_cache_filename, discovery_fallback_url, primary_discovery_url, short_hash,
};

#[test]
fn test_primary_discovery_url_default() {
    assert_eq!(
        primary_discovery_url("drive", "v3", None),
        "https://www.googleapis.com/discovery/v1/apis/drive/v3/rest"
    );
}

#[test]
fn test_primary_discovery_url_override() {
    assert_eq!(
        primary_discovery_url("drive", "v3", Some("https://proxy.example.com")),
        "https://proxy.example.com/discovery/v1/apis/drive/v3/rest"
    );
}

#[test]
fn test_primary_discovery_url_override_trims_trailing_slash() {
    // A single or multiple trailing slashes on the base are stripped.
    assert_eq!(
        primary_discovery_url("drive", "v3", Some("https://proxy.example.com/")),
        "https://proxy.example.com/discovery/v1/apis/drive/v3/rest"
    );
    assert_eq!(
        primary_discovery_url("drive", "v3", Some("https://proxy.example.com/base///")),
        "https://proxy.example.com/base/discovery/v1/apis/drive/v3/rest"
    );
}

#[test]
fn test_fallback_url_used_without_override() {
    assert_eq!(
        discovery_fallback_url("forms", None).as_deref(),
        Some("https://forms.googleapis.com/$discovery/rest")
    );
}

#[test]
fn test_fallback_skipped_with_override() {
    // Override set => no per-service Google fallback (proxy serves all).
    assert_eq!(
        discovery_fallback_url("forms", Some("https://proxy.example.com")),
        None
    );
}

#[test]
fn test_cache_filename_default_unchanged() {
    // Backward compatible: no override => exact legacy filename.
    assert_eq!(
        discovery_cache_filename("drive", "v3", None),
        "drive_v3.json"
    );
}

#[test]
fn test_cache_filename_override_is_namespaced() {
    let name = discovery_cache_filename("drive", "v3", Some("https://proxy.example.com"));
    // {service}_{version}_{hash8}.json
    assert!(name.starts_with("drive_v3_"));
    assert!(name.ends_with(".json"));
    let hash = name
        .strip_prefix("drive_v3_")
        .and_then(|s| s.strip_suffix(".json"))
        .unwrap();
    assert_eq!(hash.len(), 8);
    assert!(hash.chars().all(|c| c.is_ascii_hexdigit()));
    // Differs from the un-namespaced default so proxied/direct never collide.
    assert_ne!(name, "drive_v3.json");
}

#[test]
fn test_cache_filename_trailing_slash_matches_bare() {
    // Trailing slashes are trimmed before hashing, so these resolve to the
    // same cache entry.
    assert_eq!(
        discovery_cache_filename("drive", "v3", Some("https://proxy.example.com")),
        discovery_cache_filename("drive", "v3", Some("https://proxy.example.com/"))
    );
}

#[test]
fn test_cache_filename_distinct_bases_distinct_files() {
    assert_ne!(
        discovery_cache_filename("drive", "v3", Some("https://proxy-a.example.com")),
        discovery_cache_filename("drive", "v3", Some("https://proxy-b.example.com"))
    );
}

#[test]
fn test_short_hash_is_stable_and_short() {
    // Deterministic across runs (FNV-1a), fixed known value.
    assert_eq!(short_hash("https://proxy.example.com"), "b7266c31");
    assert_eq!(short_hash("https://proxy.example.com").len(), 8);
}
