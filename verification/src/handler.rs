//! Per-connection request/response cycle.
//!
//! The handler is a state machine: in `AwaitingRequest` it consumes the
//! fixed 12-byte header prefix read from the stream, builds the response
//! (`message_size` 0, `correlation_id` echoed), and loops back for the next
//! request; any read or write failure abandons the connection (`Closed`),
//! with no partial response sent. The surrounding program performs the reads
//! and writes and feeds the outcomes in as events.

use vstd::prelude::*;

use crate::codec::FrameError;
use crate::codec::RequestHeader;
use crate::codec::ResponseHeader;
use crate::codec::REQUEST_HEADER_LEN;
use crate::codec::be_i32;
use crate::codec::decodes_to;
use crate::codec::encoded_response;

verus! {

/// Connection-handler states: reading the next request header, or abandoned.
#[derive(Debug, Clone, Copy, PartialEq, Eq, Structural)]
pub enum ConnState {
    AwaitingRequest,
    Closed,
}

/// Outcome of the surrounding program's last read or write on the stream.
#[derive(Debug)]
pub enum ConnEvent {
    /// The bytes a header read yielded before the stream closed or erred;
    /// fewer than 12 of them means the read failed short.
    HeaderBytes(Vec<u8>),
    /// The stream supplied nothing (closed or faulted before any byte).
    ReadFailed,
    /// The stream rejected the response bytes or the flush.
    WriteFailed,
}

/// What the surrounding program must do next.
#[derive(Debug)]
pub enum ConnAction {
    /// Write these bytes to the stream and flush them.
    Respond(Vec<u8>),
    /// Write nothing further; release the connection.
    Abandon,
}

/// The response owed to a request: `message_size` 0 and the request's
/// `correlation_id`, echoed verbatim.
pub open spec fn response_for(req: RequestHeader) -> ResponseHeader {
    ResponseHeader { message_size: 0, correlation_id: req.correlation_id }
}

/// The request's correlation token as decoded from its fixed offset.
pub open spec fn spec_correlation(bytes: Seq<u8>) -> i32 {
    be_i32(bytes[8], bytes[9], bytes[10], bytes[11]) as i32
}

/// The exact 8 response bytes owed to a decodable 12-byte header prefix.
pub open spec fn response_bytes_for(bytes: Seq<u8>) -> Seq<u8> {
    encoded_response(ResponseHeader { message_size: 0, correlation_id: spec_correlation(bytes) })
}

/// How one step of the connection handler must relate its inputs to the next
/// state and action: a decodable header is answered and the connection stays
/// open for the next request; any failure abandons the connection with
/// nothing written.
pub open spec fn conn_step_spec(
    state: ConnState,
    event: ConnEvent,
    next: ConnState,
    action: ConnAction,
) -> bool {
    match (state, event) {
        (ConnState::AwaitingRequest, ConnEvent::HeaderBytes(b)) => {
            if b@.len() >= REQUEST_HEADER_LEN {
                &&& next is AwaitingRequest
                &&& action matches ConnAction::Respond(out) && out@ == response_bytes_for(b@)
            } else {
                next is Closed && action is Abandon
            }
        },
        (ConnState::AwaitingRequest, _) => next is Closed && action is Abandon,
        (ConnState::Closed, _) => next is Closed && action is Abandon,
    }
}

/// Builds the response owed to a decoded request: `message_size` 0,
/// `correlation_id` copied from the request.
pub fn build_response(req: &RequestHeader) -> (r: ResponseHeader)
    ensures
        r == response_for(*req),
{
    ResponseHeader { message_size: 0, correlation_id: req.correlation_id }
}

/// One full request/response cycle on bytes already read: decode the header
/// prefix, build the echo response, encode it. Exactly the 8 owed bytes come
/// back for any prefix of 12 or more bytes; a shorter read fails with
/// `ReadFailure` and yields no bytes at all.
pub fn handle_request_bytes(bytes: &Vec<u8>) -> (r: Result<Vec<u8>, FrameError>)
    ensures
        bytes@.len() >= REQUEST_HEADER_LEN ==> (r matches Ok(out) && out@
            == response_bytes_for(bytes@)),
        bytes@.len() < REQUEST_HEADER_LEN ==> r == Err::<Vec<u8>, FrameError>(
            FrameError::ReadFailure,
        ),
{
    let req = match RequestHeader::decode(bytes) {
        Ok(req) => req,
        Err(e) => {
            return Err(e);
        },
    };
    let resp = build_response(&req);
    let out = resp.encode();
    proof {
        lemma_correlation_in_range(bytes@, req);
    }
    Ok(out)
}

/// Law: the handler is a pure function of the bytes it is handed — any two
/// decodes of the same bytes yield requests that are answered by the same
/// response, encoded as the same byte sequence.
pub proof fn lemma_codec_deterministic(bytes: Seq<u8>, h1: RequestHeader, h2: RequestHeader)
    requires
        bytes.len() >= REQUEST_HEADER_LEN,
        decodes_to(bytes, h1),
        decodes_to(bytes, h2),
    ensures
        h1.message_size == h2.message_size,
        h1.request_api_key == h2.request_api_key,
        h1.request_api_version == h2.request_api_version,
        h1.correlation_id == h2.correlation_id,
        response_for(h1) == response_for(h2),
        encoded_response(response_for(h1)) == encoded_response(response_for(h2)),
{
}

proof fn lemma_correlation_in_range(bytes: Seq<u8>, req: RequestHeader)
    requires
        bytes.len() >= REQUEST_HEADER_LEN,
        decodes_to(bytes, req),
    ensures
        req.correlation_id == spec_correlation(bytes),
        response_for(req) == (ResponseHeader {
            message_size: 0,
            correlation_id: spec_correlation(bytes),
        }),
{
}

/// One decision step of the connection handler. The surrounding program
/// reads the 12-byte header prefix, hands in what arrived, performs the
/// returned action (write and flush, or release the connection), and feeds
/// the next event into the returned state.
pub fn conn_step(state: ConnState, event: ConnEvent) -> (r: (ConnState, ConnAction))
    ensures
        conn_step_spec(state, event, r.0, r.1),
{
    match state {
        ConnState::Closed => (ConnState::Closed, ConnAction::Abandon),
        ConnState::AwaitingRequest => match event {
            ConnEvent::HeaderBytes(b) => match handle_request_bytes(&b) {
                Ok(out) => (ConnState::AwaitingRequest, ConnAction::Respond(out)),
                Err(_) => (ConnState::Closed, ConnAction::Abandon),
            },
            ConnEvent::ReadFailed => (ConnState::Closed, ConnAction::Abandon),
            ConnEvent::WriteFailed => (ConnState::Closed, ConnAction::Abandon),
        },
    }
}

} // verus!
