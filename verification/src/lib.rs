//! JSONTP: request and response envelopes, the rules that a request must
//! meet, and the response that each request gets.
//!
//! The library works on decoded envelopes. Reading a connection, decoding
//! its JSON text and looking a resource up in storage are the caller's part;
//! what the caller found is handed to `respond`, or to `dispatch` and
//! `JsontpResponse::resolved` in turn.

pub mod text;
pub mod value;
pub mod envelope;
pub mod validate;
pub mod respond;
pub mod laws;

pub use envelope::{Body, JsontpRequest, JsontpResponse, Status};
pub use respond::{dispatch, resolution, respond, Dispatch};
pub use value::{Field, Fields, JsonValue};
