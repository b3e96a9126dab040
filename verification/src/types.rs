//! Request, response and event types of the TinyFish API.
//!
//! Free-form JSON documents the library only carries are `serde_json`
//! values; the reply that the library reads is a [`JsonValue`], a plain tree
//! of the values that a JSON document can hold.

use vstd::prelude::*;

verus! {

/// `serde_json::Value`: carried through opaque; the library only prints it.
#[verifier::external_type_specification]
#[verifier::external_body]
pub struct ExJsonValue(serde_json::Value);

/// The text that `serde_json::to_string_pretty` gives for a document, or
/// the message of its error.
pub uninterp spec fn pretty_json(doc: serde_json::Value) -> Result<Seq<char>, Seq<char>>;

/// `serde_json::to_string_pretty`: the document printed with two-space
/// indentation, or the message of the printer's error; the same document
/// always prints the same way.
#[verifier::external_body]
pub(crate) fn render_result(doc: &serde_json::Value) -> (r: Result<String, String>)
    ensures
        pretty_json(*doc) == (match r {
            Ok(s) => Ok(s@),
            Err(e) => Err(e@),
        }),
{
    serde_json::to_string_pretty(doc).map_err(|e| e.to_string())
}

/// A JSON document: null, a boolean, a number (kept as its decimal text), a
/// string, an array, or an object (its members in order).
#[derive(Debug)]
pub enum JsonValue {
    Null,
    Bool(bool),
    Number(String),
    String(String),
    Array(Vec<JsonValue>),
    Object(Vec<(String, JsonValue)>),
}

// ── Request types ──────────────────────────────────────────────────────

/// Browser profile for execution.
#[derive(Debug, Clone, Copy, PartialEq, Eq)]
pub enum BrowserProfile {
    Lite,
    Stealth,
}

/// Proxy configuration for an automation run.
#[derive(Debug, Clone)]
pub struct ProxyConfig {
    pub enabled: bool,
    pub country_code: Option<String>,
}

/// Feature flags to enable for a run, by name.
#[derive(Debug)]
pub struct FeatureFlags {
    pub flags: std::collections::HashMap<String, serde_json::Value>,
}

/// Request body shared by all automation endpoints.
#[derive(Debug)]
pub struct AutomationRequest {
    pub url: String,
    pub goal: String,
    pub browser_profile: Option<BrowserProfile>,
    pub proxy_config: Option<ProxyConfig>,
    pub api_integration: Option<String>,
    pub feature_flags: Option<FeatureFlags>,
}

/// Batch request containing up to 100 automation runs.
#[derive(Debug)]
pub struct BatchAutomationRequest {
    pub runs: Vec<AutomationRequest>,
}

// ── SSE event types ────────────────────────────────────────────────────

/// The events of `/v1/automation/run-sse`.
#[derive(Debug)]
pub enum SseEvent {
    Started { run_id: String, timestamp: String },
    StreamingUrl { streaming_url: String, timestamp: String },
    Progress { purpose: Option<String>, message: Option<String>, timestamp: String },
    Complete { status: RunStatus, result_json: Option<serde_json::Value>, timestamp: String },
    Heartbeat { timestamp: Option<String> },
}

// ── Response types ─────────────────────────────────────────────────────

/// Final status of an automation run.
#[derive(Debug, Clone, Copy, PartialEq, Eq)]
pub enum RunStatus {
    Completed,
    Failed,
    Running,
    Queued,
    Cancelled,
}

/// Error details returned by the TinyFish API.
#[derive(Debug, Clone)]
pub struct ApiError {
    pub message: String,
    pub help_url: Option<String>,
    pub help_message: Option<String>,
}

/// Browser configuration recorded on a run.
#[derive(Debug, Clone)]
pub struct BrowserConfig {
    pub proxy_enabled: Option<bool>,
    pub proxy_country_code: Option<String>,
}

/// Response from synchronous `/v1/automation/run`.
#[derive(Debug)]
pub struct SyncRunResponse {
    pub run_id: Option<String>,
    pub status: RunStatus,
    pub started_at: Option<String>,
    pub finished_at: Option<String>,
    pub num_of_steps: Option<u32>,
    pub result: Option<serde_json::Value>,
    pub error: Option<ApiError>,
}

/// Response from async `/v1/automation/run-async`.
#[derive(Debug, Clone)]
pub struct AsyncRunResponse {
    pub run_id: Option<String>,
    pub error: Option<ApiError>,
}

/// Response from batch `/v1/automation/run-batch`.
#[derive(Debug, Clone)]
pub struct BatchRunResponse {
    pub run_ids: Option<Vec<String>>,
    pub error: Option<ApiError>,
}

/// A single run record from the list/get endpoints.
#[derive(Debug)]
pub struct RunRecord {
    pub run_id: String,
    pub status: RunStatus,
    pub goal: Option<String>,
    pub created_at: Option<String>,
    pub started_at: Option<String>,
    pub finished_at: Option<String>,
    pub result: Option<serde_json::Value>,
    pub error: Option<ApiError>,
    pub streaming_url: Option<String>,
    pub browser_config: Option<BrowserConfig>,
}

/// Pagination info for list endpoints.
#[derive(Debug, Clone)]
pub struct Pagination {
    pub total: u64,
    pub next_cursor: Option<String>,
    pub has_more: bool,
}

/// Response from `GET /v1/runs`.
#[derive(Debug)]
pub struct ListRunsResponse {
    pub data: Vec<RunRecord>,
    pub pagination: Pagination,
}

// ── Query parameter types ──────────────────────────────────────────────

/// Query parameters for listing/searching runs.
#[derive(Debug, Clone, Default)]
pub struct ListRunsParams {
    pub status: Option<RunStatus>,
    pub goal: Option<String>,
    pub cursor: Option<String>,
    pub limit: Option<u32>,
}

/// A request for one automation run with the default browser, proxy,
/// integration and feature settings, as the CLI sends it.
pub fn automation_request(url: String, goal: String) -> (r: AutomationRequest)
    ensures
        r.url == url,
        r.goal == goal,
        r.browser_profile is None,
        r.proxy_config is None,
        r.api_integration is None,
        r.feature_flags is None,
{
    AutomationRequest {
        url,
        goal,
        browser_profile: None,
        proxy_config: None,
        api_integration: None,
        feature_flags: None,
    }
}

} // verus!
