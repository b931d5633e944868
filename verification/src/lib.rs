//! Framing layer of a minimal length-prefixed binary RPC broker: a verified
//! codec for the fixed-layout request and response headers, and the
//! per-connection state machine that drives the request/response cycle.

pub mod codec;
pub mod handler;

pub use codec::FrameError;
pub use codec::RequestHeader;
pub use codec::ResponseHeader;
pub use codec::REQUEST_HEADER_LEN;
pub use codec::RESPONSE_HEADER_LEN;
pub use handler::ConnAction;
pub use handler::ConnEvent;
pub use handler::ConnState;
pub use handler::build_response;
pub use handler::conn_step;
pub use handler::handle_request_bytes;
