//! Sync server for an endpoint-security agent protocol.
//!
//! Clients periodically call four endpoints (preflight, eventupload,
//! ruledownload, postflight), identified by a machine identifier, to fetch
//! policy configuration and rule lists and to upload execution-decision
//! events. This library holds the logic beneath the HTTP surface: a
//! content-encoding-aware body decoder, a per-machine configuration store
//! with a mandatory `"global"` fallback entry, and an event-log projector
//! that flattens uploaded events into line-delimited JSON records.

use vstd::prelude::*;

pub mod body;
pub mod client_config;
pub mod config_fields;
pub mod event_upload;
pub mod handlers;
pub mod postflight;
pub mod preflight;
pub mod project;
pub mod rule_download;
pub mod server_config;
pub mod store;
pub mod text;
pub mod toml_values;

verus! {

/// The empty response body returned by the eventupload and postflight
/// endpoints.
#[derive(Clone, Copy, Debug, PartialEq, Eq, Structural)]
pub struct Empty {}

} // verus!
