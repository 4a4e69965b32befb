//! Delivering a report: one HTTP POST, and what the caller is told of it.
//!
//! Delivery is best effort. This module decides what is sent and where
//! ([`prepare`]), and what each way the exchange can end means for the caller
//! ([`conclude`]). The exchange itself is the caller's: it sends the
//! [`Request`] once, within the request's timeout, and reports the
//! [`Outcome`]. Whatever the outcome, the caller gets an acknowledgment and
//! never an error.

use crate::json::{json_of, Json};
use crate::payload::{FeedbackPayload, Report};
use crate::wire::{wire_body, wire_of};
use serde_json::Value;
use vstd::prelude::*;

verus! {

/// The environment variable that holds the collector's base URL.
pub const ENDPOINT_VARIABLE: &'static str = "FEEDBACK_SIDECAR_URL";

/// The environment variable that holds the API key.
pub const API_KEY_VARIABLE: &'static str = "FEEDBACK_API_KEY";

/// The collector's base URL where none is configured.
pub const DEFAULT_ENDPOINT: &'static str = "http://localhost:8099";

/// The path under the base URL to which reports are posted.
pub const FEEDBACK_PATH: &'static str = "/api/feedback";

/// The name of the header that carries the API key.
pub const AUTHORIZATION_HEADER: &'static str = "Authorization";

/// What precedes the API key in the header's value.
pub const BEARER_PREFIX: &'static str = "Bearer ";

/// The seconds after which an exchange is given up.
pub const REQUEST_TIMEOUT_SECS: u64 = 5;

/// The one status code by which the collector accepts a report.
pub const ACCEPTED_STATUS: u16 = 201;

/// The acknowledgment of a report that the collector accepted.
pub const MESSAGE_ACCEPTED: &'static str =
    "Thank you. Your feedback has been recorded and will be used to improve this server's capabilities.";

/// The acknowledgment of a report that the collector answered with another
/// status code.
pub const MESSAGE_REJECTED: &'static str = "Feedback noted (delivery issue, but recorded locally).";

/// The acknowledgment of a report that got no response.
pub const MESSAGE_UNREACHABLE: &'static str =
    "Feedback noted (sidecar unavailable, but your input is appreciated).";

/// The acknowledgment of a report for which no HTTP client could be made.
pub const MESSAGE_CLIENT_ERROR: &'static str = "Feedback noted (HTTP client error).";

/// What begins the trace of a response with another status code.
pub const TRACE_REJECTED: &'static str = "PatchworkMCP sidecar returned ";

/// What begins the trace of an exchange that got no response.
pub const TRACE_UNREACHABLE: &'static str = "PatchworkMCP: could not reach sidecar: ";

/// Where reports go and how they are authorized.
#[derive(Debug, Clone, PartialEq, Eq)]
pub struct SubmitConfig {
    /// The collector's base URL.
    pub endpoint_base: String,
    /// The API key; an empty key counts as none.
    pub api_key: Option<String>,
}

/// A [`SubmitConfig`] as a mathematical record.
pub struct SubmitConfigView {
    pub endpoint_base: Seq<char>,
    pub api_key: Option<Seq<char>>,
}

impl View for SubmitConfig {
    type V = SubmitConfigView;

    open spec fn view(&self) -> SubmitConfigView {
        SubmitConfigView {
            endpoint_base: self.endpoint_base@,
            api_key: self.api_key.deep_view(),
        }
    }
}

/// The key that authorizes requests: the one given, unless it is empty.
pub open spec fn usable_key(key: Option<Seq<char>>) -> Option<Seq<char>> {
    match key {
        Some(k) if k.len() > 0 => Some(k),
        _ => None,
    }
}

/// The configuration that two settings give, each `None` where it is unset.
pub open spec fn config_of(
    endpoint: Option<Seq<char>>,
    api_key: Option<Seq<char>>,
) -> SubmitConfigView {
    SubmitConfigView {
        endpoint_base: match endpoint {
            Some(base) => base,
            None => DEFAULT_ENDPOINT@,
        },
        api_key: usable_key(api_key),
    }
}

impl SubmitConfig {
    /// The configuration that two settings give, each `None` where it is
    /// unset: an unset endpoint is [`DEFAULT_ENDPOINT`], and an unset or empty
    /// key is no key. The settings are those of [`ENDPOINT_VARIABLE`] and
    /// [`API_KEY_VARIABLE`], which the caller reads afresh for each report.
    pub fn from_settings(
        endpoint: Option<String>,
        api_key: Option<String>,
    ) -> (config: SubmitConfig)
        ensures
            config@ == config_of(endpoint.deep_view(), api_key.deep_view()),
    {
        let endpoint_base = match endpoint {
            Some(base) => base,
            None => DEFAULT_ENDPOINT.to_owned(),
        };
        let api_key = match api_key {
            Some(key) => if key.as_str().is_empty() {
                None
            } else {
                Some(key)
            },
            None => None,
        };
        SubmitConfig { endpoint_base, api_key }
    }
}

/// The one request that delivers a report.
#[derive(Debug)]
pub struct Request {
    /// The URL to post to.
    pub url: String,
    /// The value of the [`AUTHORIZATION_HEADER`], where one is sent.
    pub authorization: Option<String>,
    /// The seconds after which the exchange is given up.
    pub timeout_secs: u64,
    /// The JSON body.
    pub body: Value,
}

/// A [`Request`] as a mathematical record.
pub struct RequestView {
    pub url: Seq<char>,
    pub authorization: Option<Seq<char>>,
    pub timeout_secs: nat,
    pub body: Json,
}

impl View for Request {
    type V = RequestView;

    open spec fn view(&self) -> RequestView {
        RequestView {
            url: self.url@,
            authorization: self.authorization.deep_view(),
            timeout_secs: self.timeout_secs as nat,
            body: json_of(self.body),
        }
    }
}

/// The value of the authorization header for `key`: none without a usable
/// key, else the key behind [`BEARER_PREFIX`].
pub open spec fn bearer(key: Option<Seq<char>>) -> Option<Seq<char>> {
    match usable_key(key) {
        Some(k) => Some(BEARER_PREFIX@ + k),
        None => None,
    }
}

/// The request that delivers `report` under `config`.
pub open spec fn request_of(report: Report, config: SubmitConfigView) -> RequestView {
    RequestView {
        url: config.endpoint_base + FEEDBACK_PATH@,
        authorization: bearer(config.api_key),
        timeout_secs: REQUEST_TIMEOUT_SECS as nat,
        body: wire_of(report),
    }
}

/// The value of the authorization header for `key`.
fn bearer_value(key: &Option<String>) -> (value: Option<String>)
    ensures
        value.deep_view() == bearer(key.deep_view()),
{
    match key {
        Some(k) => if k.as_str().is_empty() {
            None
        } else {
            Some(BEARER_PREFIX.to_owned().concat(k.as_str()))
        },
        None => None,
    }
}

/// Decides the request that delivers `payload` under `config`.
///
/// The URL is the base URL followed by [`FEEDBACK_PATH`]. The authorization
/// header is sent exactly when the configured key is not empty, and then
/// holds `Bearer ` followed by the key. The body is the payload's wire form,
/// and the timeout is [`REQUEST_TIMEOUT_SECS`].
pub fn prepare(payload: &FeedbackPayload, config: &SubmitConfig) -> (request: Request)
    ensures
        request@ == request_of(payload@, config@),
        request.url@ == config.endpoint_base@ + "/api/feedback"@,
        request.timeout_secs == 5,
        match config.api_key {
            Some(key) if key@.len() > 0 => request.authorization.deep_view() == Some(
                "Bearer "@ + key@,
            ),
            _ => request.authorization is None,
        },
{
    Request {
        url: config.endpoint_base.clone().concat(FEEDBACK_PATH),
        authorization: bearer_value(&config.api_key),
        timeout_secs: REQUEST_TIMEOUT_SECS,
        body: wire_body(payload),
    }
}

/// How the one exchange ended.
#[derive(Debug, Clone, PartialEq, Eq)]
pub enum Outcome {
    /// No HTTP client could be made, so nothing was sent.
    ClientError,
    /// The collector answered, with this status code.
    Responded(u16),
    /// No response was obtained: a timeout, a refused connection, a name that
    /// did not resolve. The string holds the transport's account of it.
    Unreachable(String),
}

/// What the caller is told, and what the operator is.
#[derive(Debug, Clone, PartialEq, Eq)]
pub struct Receipt {
    /// The acknowledgment for the caller: one of the four fixed messages.
    pub message: String,
    /// The diagnostic trace for the operator, where the outcome calls for
    /// one.
    pub trace: Option<String>,
}

/// Whether a text is one of the four fixed acknowledgments.
pub open spec fn is_acknowledgment(message: Seq<char>) -> bool {
    message == MESSAGE_ACCEPTED@ || message == MESSAGE_REJECTED@ || message == MESSAGE_UNREACHABLE@
        || message == MESSAGE_CLIENT_ERROR@
}

/// The acknowledgment that an outcome gives.
pub open spec fn message_of(outcome: Outcome) -> Seq<char> {
    match outcome {
        Outcome::ClientError => MESSAGE_CLIENT_ERROR@,
        Outcome::Responded(status) => if status == ACCEPTED_STATUS {
            MESSAGE_ACCEPTED@
        } else {
            MESSAGE_REJECTED@
        },
        Outcome::Unreachable(_) => MESSAGE_UNREACHABLE@,
    }
}

/// The character that stands for a digit below ten.
pub open spec fn digit(d: nat) -> char
    recommends
        d < 10,
{
    ('0' as u8 + d) as char
}

/// A number in decimal notation, without leading zeros.
pub open spec fn decimal(n: nat) -> Seq<char>
    decreases n,
{
    if n < 10 {
        seq![digit(n)]
    } else {
        decimal(n / 10).push(digit(n % 10))
    }
}

/// The diagnostic trace that an outcome gives: the status code of a response
/// that did not accept, or the transport's account of a response that never
/// came.
pub open spec fn trace_of(outcome: Outcome) -> Option<Seq<char>> {
    match outcome {
        Outcome::Responded(status) if status != ACCEPTED_STATUS => Some(
            TRACE_REJECTED@ + decimal(status as nat),
        ),
        Outcome::Unreachable(detail) => Some(TRACE_UNREACHABLE@ + detail@),
        _ => None,
    }
}

/// A digit as a string.
fn digit_text(d: u16) -> (text: &'static str)
    requires
        d < 10,
    ensures
        text@ == seq![digit(d as nat)],
{
    proof {
        reveal_strlit("0");
        reveal_strlit("1");
        reveal_strlit("2");
        reveal_strlit("3");
        reveal_strlit("4");
        reveal_strlit("5");
        reveal_strlit("6");
        reveal_strlit("7");
        reveal_strlit("8");
        reveal_strlit("9");
    }
    match d {
        0 => "0",
        1 => "1",
        2 => "2",
        3 => "3",
        4 => "4",
        5 => "5",
        6 => "6",
        7 => "7",
        8 => "8",
        _ => "9",
    }
}

/// A status code in decimal notation.
fn decimal_text(n: u16) -> (text: String)
    ensures
        text@ == decimal(n as nat),
    decreases n,
{
    if n < 10 {
        digit_text(n).to_owned()
    } else {
        let mut text = decimal_text(n / 10);
        text.append(digit_text(n % 10));
        text
    }
}

/// Decides what is said of an exchange that ended in `outcome`.
///
/// The message is the thanks exactly when the collector answered with
/// [`ACCEPTED_STATUS`]; every other outcome is acknowledged too, by the
/// message of its kind. A trace is given for a response with another status
/// code and for a response that never came, and for nothing else.
pub fn conclude(outcome: &Outcome) -> (receipt: Receipt)
    ensures
        receipt.message@ == message_of(*outcome),
        receipt.trace.deep_view() == trace_of(*outcome),
        is_acknowledgment(receipt.message@),
        receipt.message@ == MESSAGE_ACCEPTED@ <==> *outcome == Outcome::Responded(201),
        receipt.trace is Some <==> receipt.message@ == MESSAGE_REJECTED@ || receipt.message@
            == MESSAGE_UNREACHABLE@,
{
    proof {
        law_messages_tell_outcomes_apart(*outcome);
    }
    match outcome {
        Outcome::ClientError => Receipt { message: MESSAGE_CLIENT_ERROR.to_owned(), trace: None },
        Outcome::Responded(status) => {
            if *status == ACCEPTED_STATUS {
                Receipt { message: MESSAGE_ACCEPTED.to_owned(), trace: None }
            } else {
                Receipt {
                    message: MESSAGE_REJECTED.to_owned(),
                    trace: Some(
                        TRACE_REJECTED.to_owned().concat(decimal_text(*status).as_str()),
                    ),
                }
            }
        },
        Outcome::Unreachable(detail) => Receipt {
            message: MESSAGE_UNREACHABLE.to_owned(),
            trace: Some(TRACE_UNREACHABLE.to_owned().concat(detail.as_str())),
        },
    }
}

/// Every outcome is acknowledged by one of the four fixed messages. The four
/// differ from one another, so a message tells which kind of outcome it
/// acknowledges: the thanks stand for status 201 and nothing else, and each
/// other message for its own kind. A trace goes with a rejection and with a
/// response that never came, and with nothing else.
pub proof fn law_messages_tell_outcomes_apart(outcome: Outcome)
    ensures
        is_acknowledgment(message_of(outcome)),
        message_of(outcome) == MESSAGE_ACCEPTED@ <==> outcome == Outcome::Responded(201),
        message_of(outcome) == MESSAGE_REJECTED@ <==> outcome is Responded
            && outcome->Responded_0 != 201,
        message_of(outcome) == MESSAGE_UNREACHABLE@ <==> outcome is Unreachable,
        message_of(outcome) == MESSAGE_CLIENT_ERROR@ <==> outcome is ClientError,
        trace_of(outcome) is Some <==> message_of(outcome) == MESSAGE_REJECTED@ || message_of(
            outcome,
        ) == MESSAGE_UNREACHABLE@,
{
    reveal_strlit(
        "Thank you. Your feedback has been recorded and will be used to improve this server's capabilities.",
    );
    reveal_strlit("Feedback noted (delivery issue, but recorded locally).");
    reveal_strlit("Feedback noted (sidecar unavailable, but your input is appreciated).");
    reveal_strlit("Feedback noted (HTTP client error).");
    assert(MESSAGE_ACCEPTED@.len() == 98);
    assert(MESSAGE_REJECTED@.len() == 54);
    assert(MESSAGE_UNREACHABLE@.len() == 68);
    assert(MESSAGE_CLIENT_ERROR@.len() == 35);
}

} // verus!
