//! The request/response bridge of a desktop assistant client: building the
//! request for a generative-language service, reading its reply, and the
//! state machine that keeps at most one request in flight.

pub mod attachment;
pub mod clipboard;
pub mod controller;
pub mod dispatch;
pub mod history;
pub mod json;
pub mod request;
pub mod response;
pub mod text;
pub mod transport;
