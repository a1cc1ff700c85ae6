//! Browser-driven controller for a contract deployment UI.
//!
//! The library decides; a driver performs. `plans` lays out the steps of the
//! upload, query and transaction flows, `locator` builds the page queries they
//! use (with text substituted safely into XPath), and `flow` is the state
//! machine that takes each report of the browser side and decides the next
//! step or the failure. `session` decides when a session is torn down, `wait`
//! when a waiting lookup gives up, and `config` and `bundle` read the settings
//! and contract bundles the runs need.
mod address;
mod bundle;
mod config;
mod flow;
mod locator;
mod plans;
mod session;
mod text;
mod upload_input;
mod wait;

pub use bundle::{hash_from_bundle_text, unquote, BundleError};
pub use config::{node_running, parse_close_flag, ui_url, ConfigError};
pub use flow::{
    lemma_address_extraction, lemma_optional_lookup_never_not_found, lemma_performed_flow_finishes,
    lemma_unconfirmed_transaction_stops, ErrorKind, Event, Flow, FlowError, FlowState, Lookup,
    Status, Step,
};
pub use locator::{
    button, css, field_input, lemma_literal_denotes_text, message_option, unit_option,
    with_text, xpath, xpath_literal, Locator, LocatorView,
};
pub use plans::{
    execute_url, fills_fields, lookup_before_actions, query_plan, transaction_plan, upload_plan,
};
pub use session::{lemma_teardown_exactly_once, SessionGuard};
pub use text::{contains_text, same_text};
pub use upload_input::{UploadInput, UploadRequest};
pub use wait::{probe_outcome, Probe};
