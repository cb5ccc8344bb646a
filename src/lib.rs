//! Typed client for the networks registry: resolution of registry URLs,
//! the decisions of a primary-then-fallback fetch, loading a registry
//! document from JSON text, and lookups of networks by id or alias.
//!
//! The network requests themselves are made by the caller: a
//! [`RegistryFetch`] says which URL to ask next and takes the answer back.

mod agree;
mod client;
mod encode;
mod error;
mod fetch;
mod json;
mod schema;
mod types;
mod version;

pub use client::{first_with_alias, first_with_id, has_alias, lemma_round_trip, loads};
pub use error::{Error, FetchError, ParseError};
pub use fetch::{
    actions_after, attempt, is_digit, lemma_fallback_serves,
    lemma_primary_failure_wins, next_action, next_state, registry_from_response, split_dots,
    started, valid_segment, valid_version, validate_version, FetchAction, FetchState,
    RegistryFetch, Response, VERSION_FORMAT_MESSAGE,
};
pub use json::{absent, field_of, first_with_key, get_field, json_text, lemma_member_at, Json};
pub use agree::{lemma_registry_unique, same_registry};
pub use schema::registry_dec;
pub use types::{
    ApiUrl, ApiUrlKind, BytesEncoding, Feature, Firehose, FirstStreamableBlock, GraphNode, Icon,
    IndexerDocsUrl, Network, NetworkType, NetworksRegistry, Protocol, Relation, RelationKind,
    Services, TokenApi, Web3Icons,
};
pub use version::{
    get_fallback_base_url, get_registry_base_url, registry_url, resolve_url, set_base_urls,
    underscored, BaseUrls, RegistryVersion, FALLBACK_BASE_URL, REGISTRY_BASE_URL, SCHEMA_VERSION,
};
