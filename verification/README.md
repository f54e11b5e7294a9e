# google_workspace (discovery)

Verified core of the Google Workspace CLI's Discovery Document handling.

- `src/encoding.rs`: API identifier validation, path-segment percent-encoding,
  trailing-slash trimming, and the short FNV-1a hash that namespaces cache files.
- `src/urls.rs`: the primary discovery URL, the `$discovery/rest` fallback URL
  and the cache file name, with the laws that tie them together.
- `src/fetch.rs`: the decisions of a fetch (cache TTL, fallback policy, cache
  write-back) as a state machine, with laws over whole runs.
- `src/model.rs`: the Discovery Document types.
- `app/`: the file system, HTTP and JSON side, driving the state machine.

`JsonSchema` and `JsonSchemaProperty` are not `Clone` in `src/`: the property
type refers to itself through `HashMap` and `Box`, and Verus refuses a `Clone`
impl on it, derived or written by hand ("found a cyclic self-reference in a
definition"). The serde copies in `app/model.rs` derive `Clone`.
