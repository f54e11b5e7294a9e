//! The shapes of a Google API Discovery Document (REST description): its
//! resources and methods, their parameters, the JSON schemas of request and
//! response bodies, and the OAuth2 scopes.
use std::collections::HashMap;
use vstd::prelude::*;

verus! {

/// Top-level Discovery REST Description document.
#[derive(Debug, Default)]
pub struct RestDescription {
    pub name: String,
    pub version: String,
    pub title: Option<String>,
    pub description: Option<String>,
    pub root_url: String,
    pub service_path: String,
    pub base_url: Option<String>,
    pub schemas: HashMap<String, JsonSchema>,
    pub resources: HashMap<String, RestResource>,
    pub parameters: HashMap<String, MethodParameter>,
    pub auth: Option<AuthDescription>,
}

/// The authorization section of a discovery document.
#[derive(Debug, Default)]
pub struct AuthDescription {
    pub oauth2: Option<OAuth2Description>,
}

/// The OAuth2 scopes an API offers.
#[derive(Debug, Default)]
pub struct OAuth2Description {
    pub scopes: Option<HashMap<String, ScopeDescription>>,
}

/// One OAuth2 scope.
#[derive(Debug, Default)]
pub struct ScopeDescription {
    pub description: Option<String>,
}

/// A resource in the Discovery Document, which can contain methods and nested sub-resources.
#[derive(Debug, Default)]
pub struct RestResource {
    pub methods: HashMap<String, RestMethod>,
    pub resources: HashMap<String, RestResource>,
}

/// A single API method.
#[derive(Debug, Default)]
pub struct RestMethod {
    pub id: Option<String>,
    pub description: Option<String>,
    pub http_method: String,
    pub path: String,
    pub parameters: HashMap<String, MethodParameter>,
    pub parameter_order: Vec<String>,
    pub request: Option<SchemaRef>,
    pub response: Option<SchemaRef>,
    pub scopes: Vec<String>,
    pub flat_path: Option<String>,
    pub supports_media_download: bool,
    pub supports_media_upload: bool,
    pub media_upload: Option<MediaUpload>,
}

/// Media upload metadata from the Discovery Document.
#[derive(Debug, Default)]
pub struct MediaUpload {
    pub protocols: Option<MediaUploadProtocols>,
    pub accept: Option<Vec<String>>,
}

/// Upload protocol details.
#[derive(Debug, Default)]
pub struct MediaUploadProtocols {
    pub simple: Option<MediaUploadProtocol>,
}

/// A single upload protocol entry.
#[derive(Debug, Default)]
pub struct MediaUploadProtocol {
    pub path: String,
    pub multipart: Option<bool>,
}

/// A reference to a schema (e.g., `{ "$ref": "File" }`).
#[derive(Debug, Default)]
pub struct SchemaRef {
    pub schema_ref: Option<String>,
    pub parameter_name: Option<String>,
}

/// A parameter definition for a method.
#[derive(Debug, Clone, Default)]
pub struct MethodParameter {
    pub param_type: Option<String>,
    pub description: Option<String>,
    pub location: Option<String>,
    pub required: bool,
    pub format: Option<String>,
    pub default: Option<String>,
    pub enum_values: Option<Vec<String>>,
    pub enum_descriptions: Option<Vec<String>>,
    pub repeated: bool,
    pub minimum: Option<String>,
    pub maximum: Option<String>,
    pub deprecated: bool,
}

/// JSON Schema definition for request/response bodies.
///
/// Not `Clone`: it holds [`JsonSchemaProperty`], which cannot have a `Clone` impl here.
#[derive(Debug, Default)]
pub struct JsonSchema {
    pub id: Option<String>,
    pub schema_type: Option<String>,
    pub description: Option<String>,
    pub properties: HashMap<String, JsonSchemaProperty>,
    pub schema_ref: Option<String>,
    pub items: Option<Box<JsonSchemaProperty>>,
    pub required: Vec<String>,
    pub additional_properties: Option<Box<JsonSchemaProperty>>,
}

/// A property within a JSON Schema.
///
/// Not `Clone`: the type refers to itself through `HashMap` and `Box`, and Verus
/// refuses a `Clone` impl on it, derived or written by hand, as a cyclic
/// self-reference (the impl depends on itself through `HashMap`'s `Clone` bound).
#[derive(Debug, Default)]
pub struct JsonSchemaProperty {
    pub prop_type: Option<String>,
    pub description: Option<String>,
    pub schema_ref: Option<String>,
    pub format: Option<String>,
    pub items: Option<Box<JsonSchemaProperty>>,
    pub properties: HashMap<String, JsonSchemaProperty>,
    pub read_only: bool,
    pub default: Option<String>,
    pub enum_values: Option<Vec<String>>,
    pub additional_properties: Option<Box<JsonSchemaProperty>>,
}

} // verus!
