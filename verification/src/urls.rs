//! Where a discovery document is fetched from and where it is cached.
use vstd::prelude::*;
use vstd::utf8::encode_utf8;
use crate::encoding::{encode_path_segment, fnv1a, is_api_identifier, is_identifier_char, lemma_identifier_needs_no_escaping, encoded_path_segment, short_hash, spec_short_hash, trim_end_slashes, trim_trailing_slashes};

verus! {

/// The view of an optional string argument.
pub open spec fn opt_str_view(o: Option<&str>) -> Option<Seq<char>> {
    match o {
        Some(s) => Some(s@),
        None => None,
    }
}

/// The view of an optional owned string.
pub open spec fn opt_string_view(o: Option<String>) -> Option<Seq<char>> {
    match o {
        Some(s) => Some(s@),
        None => None,
    }
}

/// The primary discovery URL. With a base URL (a proxy) it is
/// `{base}/discovery/v1/apis/{service}/{version}/rest`, the base taken without
/// its trailing slashes; without one it is the standard Google endpoint.
/// Service and version are percent-encoded path segments.
pub open spec fn spec_primary_discovery_url(
    service: Seq<char>,
    version: Seq<char>,
    base: Option<Seq<char>>,
) -> Seq<char> {
    let tail = encoded_path_segment(service) + "/"@ + encoded_path_segment(version) + "/rest"@;
    match base {
        Some(b) => trim_trailing_slashes(b) + "/discovery/v1/apis/"@ + tail,
        None => "https://www.googleapis.com/discovery/v1/apis/"@ + tail,
    }
}

/// The per-service `$discovery/rest` fallback URL: none when a base URL
/// override is set, else `https://{service}.googleapis.com/$discovery/rest`.
pub open spec fn spec_discovery_fallback_url(
    service: Seq<char>,
    base: Option<Seq<char>>,
) -> Option<Seq<char>> {
    match base {
        Some(_) => None,
        None => Some("https://"@ + service + ".googleapis.com/$discovery/rest"@),
    }
}

/// The cache file name: `{service}_{version}.json` without a base URL, and
/// `{service}_{version}_{hash}.json` with one, where `hash` is the short hash
/// of the base URL without its trailing slashes.
pub open spec fn spec_discovery_cache_filename(
    service: Seq<char>,
    version: Seq<char>,
    base: Option<Seq<char>>,
) -> Seq<char> {
    match base {
        Some(b) => service + "_"@ + version + "_"@ + spec_short_hash(trim_trailing_slashes(b))
            + ".json"@,
        None => service + "_"@ + version + ".json"@,
    }
}

/// Builds the primary discovery-document URL.
///
/// When `base_url` is `Some`, the document is fetched from a proxy at
/// `{base}/discovery/v1/apis/{service}/{version}/rest` (trailing slashes on the
/// base are trimmed). When `None`, the standard Google endpoint is used.
pub fn primary_discovery_url(service: &str, version: &str, base_url: Option<&str>) -> (url:
    String)
    ensures
        url@ == spec_primary_discovery_url(service@, version@, opt_str_view(base_url)),
{
    let service = encode_path_segment(service);
    let version = encode_path_segment(version);
    let mut url = String::new();
    match base_url {
        Some(base) => {
            url.append(trim_end_slashes(base));
            url.append("/discovery/v1/apis/");
        },
        None => {
            url.append("https://www.googleapis.com/discovery/v1/apis/");
        },
    }
    url.append(service.as_str());
    url.append("/");
    url.append(version.as_str());
    url.append("/rest");
    url
}

/// Returns the per-service `$discovery/rest` fallback URL to try when the
/// primary discovery fetch fails.
///
/// Returns `None` when a `base_url` override is set: the proxy is expected to
/// serve every document (or return a meaningful error), so there is no fall
/// back to per-service Google hosts, which would bypass the proxy.
pub fn discovery_fallback_url(service: &str, base_url: Option<&str>) -> (url: Option<String>)
    ensures
        opt_string_view(url) == spec_discovery_fallback_url(service@, opt_str_view(base_url)),
{
    match base_url {
        Some(_) => None,
        None => {
            let mut url = String::new();
            url.append("https://");
            url.append(service);
            url.append(".googleapis.com/$discovery/rest");
            Some(url)
        },
    }
}

/// Builds the on-disk cache filename for a discovery document.
///
/// Without an override the filename is `{service}_{version}.json`. With a
/// `base_url` override it is namespaced with the short hash of the
/// (trailing-slash-trimmed) base URL, `{service}_{version}_{hash}.json`, so
/// proxied and direct documents never share a cache entry.
pub fn discovery_cache_filename(service: &str, version: &str, base_url: Option<&str>) -> (name:
    String)
    ensures
        name@ == spec_discovery_cache_filename(service@, version@, opt_str_view(base_url)),
{
    let mut name = String::new();
    name.append(service);
    name.append("_");
    name.append(version);
    match base_url {
        Some(base) => {
            let hash = short_hash(trim_end_slashes(base));
            name.append("_");
            name.append(hash.as_str());
        },
        None => {},
    }
    name.append(".json");
    name
}

/// `/` characters appended to a string disappear again when trailing slashes
/// are trimmed.
pub proof fn lemma_trim_ignores_added_slashes(b: Seq<char>, slashes: Seq<char>)
    requires
        forall|i: int| 0 <= i < slashes.len() ==> slashes[i] == '/',
    ensures
        trim_trailing_slashes(b + slashes) == trim_trailing_slashes(b),
    decreases slashes.len(),
{
    if slashes.len() > 0 {
        let shorter = slashes.drop_last();
        assert((b + slashes).drop_last() =~= b + shorter);
        assert((b + slashes).last() == '/');
        lemma_trim_ignores_added_slashes(b, shorter);
    } else {
        assert(b + slashes =~= b);
    }
}

/// Trailing slashes on the base URL are trimmed before use: a base with any
/// number of extra `/` at its end gives the same primary URL and the same
/// cache file name as the bare base.
pub proof fn law_trailing_slashes_on_base_are_ignored(
    service: Seq<char>,
    version: Seq<char>,
    base: Seq<char>,
    slashes: Seq<char>,
)
    requires
        forall|i: int| 0 <= i < slashes.len() ==> slashes[i] == '/',
    ensures
        spec_primary_discovery_url(service, version, Some(base + slashes))
            == spec_primary_discovery_url(service, version, Some(base)),
        spec_discovery_cache_filename(service, version, Some(base + slashes))
            == spec_discovery_cache_filename(service, version, Some(base)),
{
    lemma_trim_ignores_added_slashes(base, slashes);
}

/// Proxied and direct documents never share a cache entry: for the same
/// service and version, the file name under a base URL override always
/// differs from the one without it.
pub proof fn law_override_namespaces_cache_file(
    service: Seq<char>,
    version: Seq<char>,
    base: Seq<char>,
)
    ensures
        spec_discovery_cache_filename(service, version, Some(base))
            != spec_discovery_cache_filename(service, version, None),
{
    reveal_strlit("_");
    let with = spec_discovery_cache_filename(service, version, Some(base));
    let without = spec_discovery_cache_filename(service, version, None);
    assert(with.len() == without.len() + 9);
}

/// With a base URL override there is never a fallback URL, whatever the
/// service; without one there always is.
pub proof fn law_fallback_only_without_override(service: Seq<char>, base: Option<Seq<char>>)
    ensures
        spec_discovery_fallback_url(service, base) is Some <==> base is None,
{
}

/// A validated service name and version stand in the standard discovery URL
/// exactly as given: path encoding leaves them unchanged.
pub proof fn law_identifiers_stand_unescaped_in_url(service: Seq<char>, version: Seq<char>)
    requires
        is_api_identifier(service),
        is_api_identifier(version),
    ensures
        spec_primary_discovery_url(service, version, None)
            == "https://www.googleapis.com/discovery/v1/apis/"@ + service + "/"@ + version
            + "/rest"@,
{
    lemma_identifier_needs_no_escaping(service);
    lemma_identifier_needs_no_escaping(version);
}

/// A cache file name never holds a `/`, so it cannot leave the cache
/// directory: for valid service and version identifiers, with or without a
/// base URL, the name is made of the identifiers, `_`, lower-case hex digits
/// and `.json`.
pub proof fn law_cache_filename_has_no_slash(
    service: Seq<char>,
    version: Seq<char>,
    base: Option<Seq<char>>,
)
    requires
        is_api_identifier(service),
        is_api_identifier(version),
    ensures
        !spec_discovery_cache_filename(service, version, base).contains('/'),
{
    reveal_strlit("_");
    reveal_strlit(".json");
    let name = spec_discovery_cache_filename(service, version, base);
    let middle = match base {
        Some(b) => "_"@ + spec_short_hash(trim_trailing_slashes(b)),
        None => Seq::<char>::empty(),
    };
    assert(name =~= service + "_"@ + version + middle + ".json"@);
    assert forall|k: int| 0 <= k < middle.len() implies #[trigger] middle[k] != '/' by {
        if let Some(b) = base {
            if k > 0 {
                let h = fnv1a(encode_utf8(trim_trailing_slashes(b)));
                let sh = (60 - 4 * (k - 1)) as u64;
                assert((h >> sh) & 15 < 16) by (bit_vector);
            }
        }
    }
    assert forall|k: int| 0 <= k < name.len() implies #[trigger] name[k] != '/' by {
        let a = service.len() as int;
        let b = a + 1 + version.len();
        if k < a {
            assert(is_identifier_char(service[k]));
        } else if k == a {
        } else if k < b {
            assert(name[k] == version[k - a - 1]);
            assert(is_identifier_char(version[k - a - 1]));
        } else if k < b + middle.len() {
            assert(name[k] == middle[k - b]);
        }
    }
}

/// Trimming removes exactly the run of `/` at the end: the result is a prefix
/// of the input, everything cut off is `/`, and the result does not itself
/// end in `/`.
pub proof fn law_trim_removes_only_trailing_slashes(b: Seq<char>)
    ensures
        trim_trailing_slashes(b).len() <= b.len(),
        b.take(trim_trailing_slashes(b).len() as int) == trim_trailing_slashes(b),
        forall|i: int| trim_trailing_slashes(b).len() <= i < b.len() ==> b[i] == '/',
        trim_trailing_slashes(b).len() == 0 || trim_trailing_slashes(b).last() != '/',
    decreases b.len(),
{
    if b.len() > 0 && b.last() == '/' {
        law_trim_removes_only_trailing_slashes(b.drop_last());
        let t = trim_trailing_slashes(b.drop_last());
        assert(b.take(t.len() as int) =~= b.drop_last().take(t.len() as int));
        assert forall|i: int| t.len() <= i < b.len() implies b[i] == '/' by {
            if i < b.len() - 1 {
                assert(b[i] == b.drop_last()[i]);
            }
        }
    } else {
        assert(b.take(b.len() as int) =~= b);
    }
}

/// Under a base URL the primary URL is the trimmed base, exactly as given
/// (scheme, host, port and path kept), followed by the same path that the
/// standard endpoint `https://www.googleapis.com` uses.
pub proof fn law_proxy_url_is_base_then_standard_path(
    service: Seq<char>,
    version: Seq<char>,
    base: Seq<char>,
)
    ensures
        spec_primary_discovery_url(service, version, Some(base)) == trim_trailing_slashes(base)
            + spec_primary_discovery_url(service, version, None).skip(26),
        spec_primary_discovery_url(service, version, Some(base)).take(
            trim_trailing_slashes(base).len() as int,
        ) == trim_trailing_slashes(base),
{
    reveal_strlit("https://www.googleapis.com/discovery/v1/apis/");
    reveal_strlit("/discovery/v1/apis/");
    let tail = encoded_path_segment(service) + "/"@ + encoded_path_segment(version) + "/rest"@;
    assert("https://www.googleapis.com/discovery/v1/apis/"@.skip(26) =~= "/discovery/v1/apis/"@);
    assert(("https://www.googleapis.com/discovery/v1/apis/"@ + tail).skip(26)
        =~= "https://www.googleapis.com/discovery/v1/apis/"@.skip(26) + tail);
    let t = trim_trailing_slashes(base);
    assert((t + "/discovery/v1/apis/"@ + tail).take(t.len() as int) =~= t);
}

/// The cache file name under a base URL hashes the whole trimmed base: two
/// base URLs share a cache file exactly when the short hashes of their
/// trimmed forms agree, and the name carries that hash between `_` and
/// `.json`.
pub proof fn law_cache_name_hashes_whole_base(
    service: Seq<char>,
    version: Seq<char>,
    b1: Seq<char>,
    b2: Seq<char>,
)
    ensures
        spec_discovery_cache_filename(service, version, Some(b1)).subrange(
            service.len() + version.len() + 2int,
            service.len() + version.len() + 10int,
        ) == spec_short_hash(trim_trailing_slashes(b1)),
        (spec_discovery_cache_filename(service, version, Some(b1))
            == spec_discovery_cache_filename(service, version, Some(b2))) <==> (spec_short_hash(
            trim_trailing_slashes(b1),
        ) == spec_short_hash(trim_trailing_slashes(b2))),
{
    reveal_strlit("_");
    let a: int = service.len() + version.len() + 2int;
    let n1 = spec_discovery_cache_filename(service, version, Some(b1));
    let n2 = spec_discovery_cache_filename(service, version, Some(b2));
    let h1 = spec_short_hash(trim_trailing_slashes(b1));
    let h2 = spec_short_hash(trim_trailing_slashes(b2));
    assert(n1 =~= (service + "_"@ + version + "_"@) + h1 + ".json"@);
    assert(n2 =~= (service + "_"@ + version + "_"@) + h2 + ".json"@);
    assert(n1.subrange(a, a + 8) =~= h1);
    assert(n2.subrange(a, a + 8) =~= h2);
}

/// The cache file name without a base URL is the legacy
/// `{service}_{version}.json`; with a base URL it is the same name with `_`
/// and the short hash of the trimmed base inserted before `.json`.
pub proof fn law_cache_name_extends_legacy_name(
    service: Seq<char>,
    version: Seq<char>,
    base: Seq<char>,
)
    ensures
        spec_discovery_cache_filename(service, version, None) == service + "_"@ + version
            + ".json"@,
        spec_discovery_cache_filename(service, version, Some(base)) == spec_discovery_cache_filename(
            service,
            version,
            None,
        ).take(service.len() + version.len() + 1int) + "_"@ + spec_short_hash(
            trim_trailing_slashes(base),
        ) + ".json"@,
{
    reveal_strlit("_");
    let legacy = spec_discovery_cache_filename(service, version, None);
    assert(legacy.take(service.len() + version.len() + 1int) =~= service + "_"@ + version);
}

} // verus!
