//! Shared message, event, and status types for an SMS gateway's server and
//! client: delivery-status classification, multipart-message header decoding,
//! and the event-kind bitmask model used for subscription filtering.

pub mod events;
pub mod gnss;
pub mod http;
pub mod modem;
pub mod sms;
mod text;
pub mod websocket;
