//! Configuration and connectivity-verification library for a desktop shell
//! that talks to an OpenAI-compatible inference endpoint.
//!
//! The crate has three parts: a persisted key-value configuration store with
//! defaulting and validation semantics (`config`), a single-slot
//! publish/subscribe channel used to ask a UI surface for missing values
//! (`broker`), and a connectivity prober that classifies the outcome of a
//! single authenticated HTTP probe (`probe`). `diag` assembles the
//! self-check response that shares the command surface.

pub mod broker;
pub mod config;
pub mod diag;
pub mod probe;
pub mod strutil;

pub use broker::ConfigDialogRequest;
pub use broker::ConfigRequestBroker;
pub use broker::Subscriber;
pub use broker::route_menu_action;
pub use config::AppConfig;
pub use config::ConfigError;
pub use config::ConfigStore;
pub use diag::TestEnv;
pub use diag::TestResponse;
pub use diag::build_test_response;
pub use probe::ConnectionTestRequest;
pub use probe::ConnectionTestResponse;
pub use probe::ProbeFailure;
pub use probe::ProbeOutcome;
pub use probe::bearer_header;
pub use probe::classify_http_response;
pub use probe::flatten_outcome;
pub use probe::models_endpoint;
pub use probe::probe;
pub use probe::test_api_connection;
pub use strutil::str_eq;
pub use strutil::u64_to_decimal;
