//! A feedback tool for tool-serving hosts.
//!
//! An agent that was given a set of tools reports what the set lacked: a
//! missing tool, an incomplete result, a missing parameter. This crate turns
//! the loosely typed arguments of such a report into a fully populated
//! [`FeedbackPayload`], states the wire form of that payload, decides the one
//! HTTP POST that delivers it, and maps whatever comes of the delivery to one
//! of four fixed acknowledgments.
//!
//! The crate performs no I/O. The caller sends the [`Request`] that
//! [`prepare`] decides, and hands the [`Outcome`] to [`conclude`].
//!
//! JSON values are `serde_json`'s. What the crate assumes of `serde_json` is
//! gathered in [`json`]; everything else is verified against those
//! assumptions.

pub mod json;
pub mod payload;
pub mod schema;
pub mod submit;
pub mod wire;

pub use json::{json_of, Json};
pub use payload::{
    build_payload, payload_from_args, read_input, FeedbackPayload, RawInput, Report,
    DEFAULT_GAP_TYPE,
};
pub use schema::{
    gap_types, required_fields, resolutions, tool_input_schema, TOOL_DESCRIPTION, TOOL_NAME,
};
pub use submit::{
    conclude, prepare, Outcome, Receipt, Request, SubmitConfig, ACCEPTED_STATUS,
    API_KEY_VARIABLE, AUTHORIZATION_HEADER, BEARER_PREFIX, DEFAULT_ENDPOINT, ENDPOINT_VARIABLE,
    FEEDBACK_PATH, MESSAGE_ACCEPTED, MESSAGE_CLIENT_ERROR, MESSAGE_REJECTED, MESSAGE_UNREACHABLE,
    REQUEST_TIMEOUT_SECS,
};
pub use wire::wire_body;
