//! The connectivity prober: a single authenticated HTTP GET against
//! `<base_url>/models`, bounded by a fixed 10-second timeout, whose
//! outcome is classified into a small taxonomy. Inputs are validated
//! before any network access; each call is independent and stateless.

use vstd::prelude::*;
use vstd::string::StringExecFns;
use crate::strutil::{dec_rep, u64_to_decimal};

verus! {

/// `serde_json::Value` carried opaquely: a successful probe hands the
/// parsed response document back verbatim.
#[verifier::external_type_specification]
#[verifier::external_body]
pub struct ExValue(serde_json::Value);

/// The request a probe validates and then sends: the base endpoint (no
/// trailing `/models`) and the bearer credential.
pub struct ConnectionTestRequest {
    pub url: String,
    pub api_key: String,
}

/// Why a probe did not succeed.
pub enum ProbeFailure {
    /// The request's `url` was empty; no network access was attempted.
    EmptyUrl,
    /// The request's `api_key` was empty; no network access was attempted.
    EmptyKey,
    /// A transport-level failure (DNS, TCP, TLS, timeout), with a
    /// human-readable description.
    ConnectionError(String),
    /// The endpoint responded with a status outside the success range.
    NonSuccessStatus(u16),
    /// The endpoint responded successfully but the body is not a
    /// well-formed JSON document.
    UnparsableBody(String),
}

/// The classified outcome of one probe.
pub enum ProbeOutcome {
    /// The endpoint answered with a success status and a well-formed JSON
    /// body, returned verbatim.
    Success(serde_json::Value),
    Failure(ProbeFailure),
}

/// The HTTP success range.
pub open spec fn status_success(code: u16) -> bool {
    200 <= code < 300
}

/// What parsing a text as JSON yields: `None` when the text is a
/// well-formed document, `Some(detail)` with the parser's error text
/// otherwise; a function of the text alone.
pub uninterp spec fn json_parse_error(text: Seq<char>) -> Option<Seq<char>>;

/// Relies on `serde_json::from_str::<serde_json::Value>`: whether the text
/// parses, and the error description when it does not, depend on the text
/// alone.
#[verifier::external_body]
fn parse_json(body: &str) -> (r: Result<serde_json::Value, String>)
    ensures
        r is Ok <==> json_parse_error(body@) is None,
        (r matches Err(e) ==> json_parse_error(body@) matches Some(d) && e@ == d),
{
    serde_json::from_str::<serde_json::Value>(body).map_err(|e| e.to_string())
}

/// Relies on `reqwest::blocking`: one GET of `endpoint` with headers
/// `Authorization: <authorization>` and `Content-Type: application/json`,
/// bounded by a 10-second timeout. A transport-level failure comes back as
/// `Err(detail)`; otherwise the response's status code (always a valid
/// HTTP code, 100 to 999) and its body text.
#[verifier::external_body]
fn http_get(endpoint: &str, authorization: &str) -> (r: Result<(u16, String), String>)
    ensures
        (r matches Ok(p) ==> 100 <= p.0 <= 999),
{
    let client = reqwest::blocking::Client::builder().build().map_err(|e| e.to_string())?;
    let resp = client
        .get(endpoint)
        .header("Authorization", authorization)
        .header("Content-Type", "application/json")
        .timeout(std::time::Duration::from_secs(10))
        .send()
        .map_err(|e| e.to_string())?;
    let status = resp.status().as_u16();
    let body = resp.text().map_err(|e| e.to_string())?;
    Ok((status, body))
}

/// The value the probe sends in the `Authorization` header: the bearer
/// scheme with the credential appended verbatim.
pub fn bearer_header(api_key: &str) -> (r: String)
    ensures
        r@ == "Bearer "@ + api_key@,
{
    "Bearer ".to_owned().concat(api_key)
}

/// The target of a probe: the base URL with `/models` appended by plain
/// concatenation (the caller is responsible for a well-formed base).
pub fn models_endpoint(url: &str) -> (r: String)
    ensures
        r@ == url@ + "/models"@,
{
    url.to_owned().concat("/models")
}

/// Classify an HTTP response that did arrive: a status outside the
/// success range is reported as such with the body uninspected; a success
/// status has its body parsed as JSON, yielding the document verbatim or
/// the parse failure's detail.
pub fn classify_http_response(status: u16, body: String) -> (r: ProbeOutcome)
    ensures
        !status_success(status) ==> r == ProbeOutcome::Failure(
            ProbeFailure::NonSuccessStatus(status),
        ),
        status_success(status) ==> (match json_parse_error(body@) {
            None => r matches ProbeOutcome::Success(_),
            Some(d) => r matches ProbeOutcome::Failure(f) && f matches
                ProbeFailure::UnparsableBody(det) && det@ == "Failed to parse response: "@ + d,
        }),
{
    if !(status >= 200 && status < 300) {
        ProbeOutcome::Failure(ProbeFailure::NonSuccessStatus(status))
    } else {
        match parse_json(body.as_str()) {
            Ok(v) => ProbeOutcome::Success(v),
            Err(e) => ProbeOutcome::Failure(
                ProbeFailure::UnparsableBody(
                    "Failed to parse response: ".to_owned().concat(e.as_str()),
                ),
            ),
        }
    }
}

/// What holds of a probe's outcome once both inputs were validated: the
/// validation failures cannot occur, a non-success status is reported with
/// its (valid, non-success) code, and a transport failure's detail names
/// the underlying error.
pub open spec fn outcome_classified(r: ProbeOutcome) -> bool {
    match r {
        ProbeOutcome::Success(_) => true,
        ProbeOutcome::Failure(f) => match f {
            ProbeFailure::EmptyUrl => false,
            ProbeFailure::EmptyKey => false,
            ProbeFailure::ConnectionError(d) => exists|t: Seq<char>|
                d@ == "Connection failed: "@ + t,
            ProbeFailure::NonSuccessStatus(c) => !status_success(c) && 100 <= c <= 999,
            ProbeFailure::UnparsableBody(d) => exists|t: Seq<char>|
                d@ == "Failed to parse response: "@ + t,
        },
    }
}

/// The displayable forms a classified failure's message can take: a
/// transport detail, a non-success status code in decimal, or a parse
/// detail.
pub open spec fn failure_message_classified(msg: Seq<char>) -> bool {
    ||| exists|t: Seq<char>| msg == "Connection failed: "@ + t
    ||| exists|c: u16|
        !status_success(c) && 100 <= c <= 999 && msg == "API returned status "@ + dec_rep(
            c as nat,
        )
    ||| exists|t: Seq<char>| msg == "Failed to parse response: "@ + t
}

/// One bounded, best-effort probe. An empty URL or an empty key is
/// rejected before any network access; otherwise a single GET of
/// `url + "/models"` is issued and its outcome classified. No retry is
/// attempted and no state is kept across calls.
pub fn probe(request: &ConnectionTestRequest) -> (r: ProbeOutcome)
    ensures
        request.url@.len() == 0 ==> r == ProbeOutcome::Failure(ProbeFailure::EmptyUrl),
        request.url@.len() > 0 && request.api_key@.len() == 0 ==> r == ProbeOutcome::Failure(
            ProbeFailure::EmptyKey,
        ),
        request.url@.len() > 0 && request.api_key@.len() > 0 ==> outcome_classified(r),
{
    if request.url.as_str().is_empty() {
        return ProbeOutcome::Failure(ProbeFailure::EmptyUrl);
    }
    if request.api_key.as_str().is_empty() {
        return ProbeOutcome::Failure(ProbeFailure::EmptyKey);
    }
    let endpoint = models_endpoint(request.url.as_str());
    let authorization = bearer_header(request.api_key.as_str());
    match http_get(endpoint.as_str(), authorization.as_str()) {
        Ok((status, body)) => {
            let ghost body_text = body@;
            let r = classify_http_response(status, body);
            proof {
                if status_success(status) {
                    match json_parse_error(body_text) {
                        Some(d) => {
                            assert(r matches ProbeOutcome::Failure(f) && f matches
                                ProbeFailure::UnparsableBody(det) && det@
                                == "Failed to parse response: "@ + d);
                        },
                        None => {},
                    }
                }
                assert(outcome_classified(r));
            }
            r
        },
        Err(e) => {
            let detail = "Connection failed: ".to_owned().concat(e.as_str());
            proof {
                assert(detail@ == "Connection failed: "@ + e@);
            }
            ProbeOutcome::Failure(ProbeFailure::ConnectionError(detail))
        },
    }
}

/// The flattened, displayable form of a probe outcome, as the command
/// surface reports it.
pub struct ConnectionTestResponse {
    pub success: bool,
    pub message: String,
    pub models: Option<serde_json::Value>,
}

/// Flatten a classified outcome into a success flag, a message, and the
/// optional payload. Every variant maps to a definite response; the two
/// validation failures carry the messages the command surface reports
/// for them.
pub fn flatten_outcome(outcome: ProbeOutcome) -> (r: ConnectionTestResponse)
    ensures
        (outcome matches ProbeOutcome::Success(v) ==> r.success && r.message@
            == "Connection successful"@ && r.models == Some(v)),
        (outcome matches ProbeOutcome::Failure(f) ==> !r.success && r.models is None && {
            match f {
                ProbeFailure::EmptyUrl => r.message@ == "URL is required"@,
                ProbeFailure::EmptyKey => r.message@ == "API key is required"@,
                ProbeFailure::ConnectionError(d) => r.message@ == d@,
                ProbeFailure::NonSuccessStatus(c) => r.message@ == "API returned status "@
                    + dec_rep(c as nat),
                ProbeFailure::UnparsableBody(d) => r.message@ == d@,
            }
        }),
{
    match outcome {
        ProbeOutcome::Success(v) => ConnectionTestResponse {
            success: true,
            message: "Connection successful".to_owned(),
            models: Some(v),
        },
        ProbeOutcome::Failure(f) => {
            let message = match f {
                ProbeFailure::EmptyUrl => "URL is required".to_owned(),
                ProbeFailure::EmptyKey => "API key is required".to_owned(),
                ProbeFailure::ConnectionError(d) => d,
                ProbeFailure::NonSuccessStatus(c) => "API returned status ".to_owned().concat(
                    u64_to_decimal(c as u64).as_str(),
                ),
                ProbeFailure::UnparsableBody(d) => d,
            };
            ConnectionTestResponse { success: false, message, models: None }
        },
    }
}

/// The connection-test command: validate, probe, flatten. An error return
/// happens only for the two input-validation failures; a transport,
/// status, or parse failure is a non-error response with `success`
/// false and a descriptive message.
pub fn test_api_connection(request: &ConnectionTestRequest) -> (r: Result<
    ConnectionTestResponse,
    String,
>)
    ensures
        request.url@.len() == 0 ==> (r matches Err(e) && e@ == "URL is required"@),
        request.url@.len() > 0 && request.api_key@.len() == 0 ==> (r matches Err(e) && e@
            == "API key is required"@),
        request.url@.len() > 0 && request.api_key@.len() > 0 ==> (r matches Ok(resp) && {
            &&& resp.success ==> resp.message@ == "Connection successful"@ && resp.models is Some
            &&& !resp.success ==> resp.models is None && failure_message_classified(
                resp.message@,
            )
        }),
{
    if request.url.as_str().is_empty() {
        return Err("URL is required".to_owned());
    }
    if request.api_key.as_str().is_empty() {
        return Err("API key is required".to_owned());
    }
    let outcome = probe(request);
    let ghost o = outcome;
    let resp = flatten_outcome(outcome);
    proof {
        match o {
            ProbeOutcome::Failure(f) => match f {
                ProbeFailure::ConnectionError(d) => {
                    let t = choose|t: Seq<char>| d@ == "Connection failed: "@ + t;
                    assert(resp.message@ == "Connection failed: "@ + t);
                },
                ProbeFailure::NonSuccessStatus(c) => {
                    assert(resp.message@ == "API returned status "@ + dec_rep(c as nat));
                },
                ProbeFailure::UnparsableBody(d) => {
                    let t = choose|t: Seq<char>| d@ == "Failed to parse response: "@ + t;
                    assert(resp.message@ == "Failed to parse response: "@ + t);
                },
                ProbeFailure::EmptyUrl => {},
                ProbeFailure::EmptyKey => {},
            },
            ProbeOutcome::Success(_) => {},
        }
    }
    Ok(resp)
}

} // verus!
