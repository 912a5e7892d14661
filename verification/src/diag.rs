//! The liveness self-check that shares the command surface: it reports a
//! fixed message, a timestamp, and environment-derived diagnostics. The
//! shell reads the clock and the process environment and hands the plain
//! values here; this module assembles the response.

use vstd::prelude::*;
use crate::strutil::{dec_rep, u64_to_decimal};

verus! {

/// Environment-derived diagnostics, reported verbatim: presence of a
/// base-URL override, presence of an API key, and a runtime-mode
/// indicator. No validation or defaulting is applied.
pub struct TestEnv {
    pub api_base_url: Option<String>,
    pub has_api_key: bool,
    pub node_env: Option<String>,
}

/// The self-check response.
pub struct TestResponse {
    pub message: String,
    pub timestamp: String,
    pub env: TestEnv,
}

/// Assemble the self-check response from the values the shell read: the
/// message is fixed, the timestamp is `timestamp_secs` in decimal, and
/// the diagnostics are passed through unchanged.
pub fn build_test_response(
    timestamp_secs: u64,
    api_base_url: Option<String>,
    has_api_key: bool,
    node_env: Option<String>,
) -> (r: TestResponse)
    ensures
        r.message@ == "API route is working via Tauri 2.0"@,
        r.timestamp@ == dec_rep(timestamp_secs as nat),
        r.env.api_base_url == api_base_url,
        r.env.has_api_key == has_api_key,
        r.env.node_env == node_env,
{
    TestResponse {
        message: "API route is working via Tauri 2.0".to_owned(),
        timestamp: u64_to_decimal(timestamp_secs),
        env: TestEnv { api_base_url, has_api_key, node_env },
    }
}

} // verus!
