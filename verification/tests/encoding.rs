use google_workspace::{
    discovery_cache_filename, encode_path_segment, primary_discovery_url, short_hash,
    trim_end_slashes, validate_api_identifier,
};

#[test]
fn short_hash_of_empty_input_is_the_offset_basis_prefix() {
    // FNV-1a offset basis is 0xcbf29ce484222325.
    assert_eq!(short_hash(""), "cbf29ce4");
}

#[test]
fn short_hash_of_one_byte() {
    // (0xcbf29ce484222325 ^ 0x61) * 0x100000001b3 mod 2^64 = 0xaf63dc4c8601ec8c
    assert_eq!(short_hash("a"), "af63dc4c");
}

#[test]
fn short_hash_hashes_utf8_bytes() {
    // "é" is the two bytes c3 a9.
    let expected = {
        let mut h: u64 = 0xcbf2_9ce4_8422_2325;
        for b in [0xc3u8, 0xa9u8] {
            h ^= u64::from(b);
            h = h.wrapping_mul(0x0000_0100_0000_01b3);
        }
        format!("{h:016x}")[..8].to_string()
    };
    assert_eq!(short_hash("é"), expected);
}

#[test]
fn encode_path_segment_keeps_unreserved_characters() {
    assert_eq!(encode_path_segment("AZaz09-._~"), "AZaz09-._~");
    assert_eq!(encode_path_segment("directory_v1"), "directory_v1");
}

#[test]
fn encode_path_segment_escapes_reserved_and_non_ascii() {
    assert_eq!(encode_path_segment("a b/c"), "a%20b%2Fc");
    assert_eq!(encode_path_segment("é"), "%C3%A9");
    assert_eq!(encode_path_segment("?#%"), "%3F%23%25");
    assert_eq!(encode_path_segment(""), "");
}

#[test]
fn primary_url_encodes_service_and_version() {
    assert_eq!(
        primary_discovery_url("a b", "v/1", None),
        "https://www.googleapis.com/discovery/v1/apis/a%20b/v%2F1/rest"
    );
}

#[test]
fn primary_url_with_base_of_only_slashes() {
    assert_eq!(
        primary_discovery_url("drive", "v3", Some("///")),
        "/discovery/v1/apis/drive/v3/rest"
    );
}

#[test]
fn trim_end_slashes_cases() {
    assert_eq!(trim_end_slashes("a///"), "a");
    assert_eq!(trim_end_slashes("///"), "");
    assert_eq!(trim_end_slashes("a/b"), "a/b");
    assert_eq!(trim_end_slashes(""), "");
    assert_eq!(trim_end_slashes("x/é//"), "x/é");
}

#[test]
fn api_identifiers() {
    assert!(validate_api_identifier("drive"));
    assert!(validate_api_identifier("directory_v1"));
    assert!(validate_api_identifier("v1.beta-2"));
    assert!(!validate_api_identifier(""));
    assert!(!validate_api_identifier("../etc"));
    assert!(!validate_api_identifier("drive v3"));
    assert!(!validate_api_identifier("é"));
}

#[test]
fn cache_filename_many_trailing_slashes_match_bare() {
    assert_eq!(
        discovery_cache_filename("drive", "v3", Some("https://proxy.example.com///")),
        discovery_cache_filename("drive", "v3", Some("https://proxy.example.com"))
    );
    assert_eq!(
        discovery_cache_filename("drive", "v3", Some("https://proxy.example.com")),
        format!("drive_v3_{}.json", short_hash("https://proxy.example.com"))
    );
}

#[test]
fn cache_filename_keeps_service_as_given() {
    assert_eq!(
        discovery_cache_filename("admin", "directory_v1", None),
        "admin_directory_v1.json"
    );
}

#[test]
fn cache_filename_of_valid_identifiers_has_no_slash() {
    for base in [None, Some("https://proxy.example.com/a/b//"), Some("/")] {
        let name = discovery_cache_filename("drive", "directory_v1", base);
        assert!(!name.contains('/'), "{name}");
    }
}
