//! Tests of the client libraries: how a client is configured and started, what its control plane
//! says, and the scenarios that every client has to pass.

use vstd::prelude::*;

use crate::json::{text_of_json, Json, JsonObject, JsonView};
use crate::text::{cat2, cat4, decimal, num, opt_view};

pub mod config;
pub mod outcomes;
pub mod process_tester;
pub mod python_tester;
pub mod scenarios;
pub mod starts;

verus! {

/// What a client says of itself.
#[derive(Debug)]
pub struct ClientStatus {
    /// "sleeping", "waking" or "awake".
    pub state: String,
    pub name: String,
    pub control_host: String,
    pub control_port: u16,
    /// 0 if the debug adapter was not started.
    pub debug_port: u16,
    pub debug_port_active: bool,
    pub daemon_url: String,
    /// What the daemon registered the client as, if it did.
    pub connection_id: Option<String>,
}

/// The mathematical counterpart of [`ClientStatus`].
pub struct ClientStatusView {
    pub state: Seq<char>,
    pub name: Seq<char>,
    pub control_host: Seq<char>,
    pub control_port: u16,
    pub debug_port: u16,
    pub debug_port_active: bool,
    pub daemon_url: Seq<char>,
    pub connection_id: Option<Seq<char>>,
}

impl View for ClientStatus {
    type V = ClientStatusView;

    open spec fn view(&self) -> ClientStatusView {
        ClientStatusView {
            state: self.state@,
            name: self.name@,
            control_host: self.control_host@,
            control_port: self.control_port,
            debug_port: self.debug_port,
            debug_port_active: self.debug_port_active,
            daemon_url: self.daemon_url@,
            connection_id: opt_view(self.connection_id),
        }
    }
}

/// The answer of a client that was to wake.
#[derive(Debug)]
pub struct WakeResponse {
    /// "awake" or "already_awake".
    pub status: String,
    pub debug_port: u16,
    pub connection_id: String,
}

/// The mathematical counterpart of [`WakeResponse`].
pub struct WakeView {
    pub status: Seq<char>,
    pub debug_port: u16,
    pub connection_id: Seq<char>,
}

impl View for WakeResponse {
    type V = WakeView;

    open spec fn view(&self) -> WakeView {
        WakeView {
            status: self.status@,
            debug_port: self.debug_port,
            connection_id: self.connection_id@,
        }
    }
}

/// The answer of a client that was to sleep.
#[derive(Debug)]
pub struct SleepResponse {
    /// "sleeping" or "already_sleeping".
    pub status: String,
}

/// The answer of a client that was asked for its health.
#[derive(Debug)]
pub struct HealthResponse {
    /// "ok".
    pub status: String,
    /// "detrix-client".
    pub service: String,
}

// ---------------------------------------------------------------------------
// The control plane
// ---------------------------------------------------------------------------

/// Where a path of the control plane is.
pub fn control_url(port: u16, path: &str) -> (r: String)
    ensures
        r@ == "http://127.0.0.1:"@ + decimal(port as nat) + path@,
{
    crate::text::cat3("http://127.0.0.1:", num(port as u64).as_str(), path)
}

/// The body that names a daemon to wake for.
pub fn wake_body(daemon_url: &str) -> (r: String)
    ensures
        r@ == text_of_json(
            JsonView::Object(seq![("daemon_url"@, JsonView::Str(daemon_url@))]),
        ),
{
    let mut o = JsonObject::new();
    o.put_str("daemon_url", daemon_url);
    assert(o@ =~= seq![("daemon_url"@, JsonView::Str(daemon_url@))]);
    let body: Json = o.finish();
    crate::json::json_text(&body)
}

/// What came of a request.
#[derive(Debug)]
pub enum HttpOutcome {
    /// It could not be sent.
    NotSent(String),
    /// It was answered; `body` is the text of the answer, or why it could not be read.
    Answered { status: String, success: bool, body: Result<String, String> },
}

/// The text of an answer, or why there is none.
pub open spec fn body_of(outcome: HttpOutcome, error_body: bool) -> Result<Seq<char>, Seq<char>> {
    match outcome {
        HttpOutcome::NotSent(e) => Err("HTTP request failed: "@ + e@),
        HttpOutcome::Answered { status, success, body } => if success {
            match body {
                Ok(t) => Ok(t@),
                Err(e) => Err("Failed to read response: "@ + e@),
            }
        } else if error_body {
            Err(
                "HTTP error "@ + status@ + ": "@ + (match body {
                    Ok(t) => t@,
                    Err(_) => ""@,
                }),
            )
        } else {
            Err("HTTP error: "@ + status@)
        },
    }
}

/// A text or an error.
pub open spec fn text_view(r: Result<String, String>) -> Result<Seq<char>, Seq<char>> {
    match r {
        Ok(t) => Ok(t@),
        Err(e) => Err(e@),
    }
}

/// The text of the answer to a GET request, or why there is none.
pub fn http_get(outcome: HttpOutcome) -> (r: Result<String, String>)
    ensures
        text_view(r) == body_of(outcome, false),
{
    match outcome {
        HttpOutcome::NotSent(e) => Err(cat2("HTTP request failed: ", e.as_str())),
        HttpOutcome::Answered { status, success, body } => {
            if success {
                match body {
                    Ok(t) => Ok(t),
                    Err(e) => Err(cat2("Failed to read response: ", e.as_str())),
                }
            } else {
                Err(cat2("HTTP error: ", status.as_str()))
            }
        },
    }
}

/// The text of the answer to a POST request, or why there is none; the error says what the
/// answer said.
pub fn http_post(outcome: HttpOutcome) -> (r: Result<String, String>)
    ensures
        text_view(r) == body_of(outcome, true),
{
    match outcome {
        HttpOutcome::NotSent(e) => Err(cat2("HTTP request failed: ", e.as_str())),
        HttpOutcome::Answered { status, success, body } => {
            if success {
                match body {
                    Ok(t) => Ok(t),
                    Err(e) => Err(cat2("Failed to read response: ", e.as_str())),
                }
            } else {
                let text: String = match body {
                    Ok(t) => t,
                    Err(_) => "".to_owned(),
                };
                Err(cat4("HTTP error ", status.as_str(), ": ", text.as_str()))
            }
        },
    }
}

/// What a client can be asked for.
#[derive(Debug, Clone, Copy, PartialEq, Eq, Structural)]
pub enum Endpoint {
    Status,
    Wake,
    Sleep,
    Health,
}

impl Endpoint {
    /// The path of the control plane.
    pub fn path(&self) -> (r: &'static str)
        ensures
            r@ == (match self {
                Endpoint::Status => "/detrix/status"@,
                Endpoint::Wake => "/detrix/wake"@,
                Endpoint::Sleep => "/detrix/sleep"@,
                Endpoint::Health => "/detrix/health"@,
            }),
    {
        match self {
            Endpoint::Status => "/detrix/status",
            Endpoint::Wake => "/detrix/wake",
            Endpoint::Sleep => "/detrix/sleep",
            Endpoint::Health => "/detrix/health",
        }
    }

    /// The error where an answer is not what was expected.
    pub fn parse_error(&self, error: &str) -> (r: String)
        ensures
            r@ == (match self {
                Endpoint::Status => "Failed to parse status: "@,
                Endpoint::Wake => "Failed to parse wake response: "@,
                Endpoint::Sleep => "Failed to parse sleep response: "@,
                Endpoint::Health => "Failed to parse health: "@,
            }) + error@,
    {
        match self {
            Endpoint::Status => cat2("Failed to parse status: ", error),
            Endpoint::Wake => cat2("Failed to parse wake response: ", error),
            Endpoint::Sleep => cat2("Failed to parse sleep response: ", error),
            Endpoint::Health => cat2("Failed to parse health: ", error),
        }
    }
}

} // verus!
