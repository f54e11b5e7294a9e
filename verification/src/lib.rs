//! Discovery document addressing for the Google Workspace CLI: where a
//! discovery document is fetched from, where it is cached, and the decisions
//! of a fetch.
pub mod encoding;
pub mod urls;
pub mod fetch;
pub mod model;

pub use encoding::{encode_path_segment, short_hash, trim_end_slashes, validate_api_identifier};
pub use urls::{discovery_cache_filename, discovery_fallback_url, primary_discovery_url};
pub use fetch::{DiscoveryFetch, FetchAction, FetchEvent, FetchFailure, FetchPhase, CACHE_TTL_SECS};
pub use model::{
    AuthDescription, JsonSchema, JsonSchemaProperty, MediaUpload, MediaUploadProtocol,
    MediaUploadProtocols, MethodParameter, OAuth2Description, RestDescription, RestMethod,
    RestResource, SchemaRef, ScopeDescription,
};
