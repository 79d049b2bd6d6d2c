//! A client library for a cloud DevOps REST API: request paths, credentials,
//! rate-limit headers, conditional caching and pagination links.
//!
//! The library decides; the caller sends. A resource (projects, repositories,
//! pull requests) turns a call into an [`ApiCall`]; [`AzureClient::request`]
//! makes it an [`HttpRequest`] with version, credentials and validator; and
//! [`handle_response`] tells what the response means: the JSON text to
//! decode, the cache entry to store, or the error.

pub mod auth;
pub mod config;
pub mod error;
pub mod exchange;
pub mod headers;
pub mod links;
pub mod projects;
pub mod pull_requests;
pub mod query;
pub mod repository;
pub mod text;
pub mod work_items;

pub use crate::auth::{resolve_credentials, Authorization};
pub use crate::config::{
    ApiVersion, AuthenticationConstraint, AzureClient, Credentials, MediaType, SortDirection, DEFAULT_HOST,
};
pub use crate::error::ErrorKind;
pub use crate::exchange::{
    handle_response, rate_limit_wait, ApiCall, CacheUpdate, CachedResponse, HttpRequest, Method, Reply,
};
pub use crate::headers::{get_header_values, HeaderValues};
pub use crate::links::{next_link, next_link_header};
