//! The message model: control metadata and the tagged unions that cross the
//! wire in each direction.
//!
//! Payloads are opaque byte strings here: turning a structured message into
//! bytes and back is the job of a payload codec outside the verified core.

use vstd::prelude::*;

verus! {

/// Control metadata attached to a request and echoed on its response.
///
/// `mailbox_slot` is the correlation token that routes the response back to
/// the caller that sent the request; `req_resp` says whether a response is
/// expected at all.
#[derive(Clone, Copy, PartialEq, Eq, Structural, Debug)]
pub struct Control {
    pub mailbox_slot: u64,
    pub req_resp: bool,
}

/// An outbound request: an opaque payload plus optional control metadata.
/// `send_and_recv` overwrites the control with a fresh token before sending.
#[derive(Clone, Debug)]
pub struct Request {
    pub payload: Vec<u8>,
    pub control: Option<Control>,
}

/// An inbound response: an opaque payload plus the control metadata the peer
/// echoed. A response without control cannot be routed to a waiter.
#[derive(Clone, Debug)]
pub struct Response {
    pub payload: Vec<u8>,
    pub control: Option<Control>,
}

/// The outbound wire envelope. The one variant this core populates wraps a
/// request; the tag leaves room for other message kinds.
pub enum OutboundEnvelope {
    Request(Request),
}

/// The inbound wire envelope: either a response, or some other message kind
/// this core does not handle and drops without failing.
pub enum InboundEnvelope {
    Response(Response),
    Unrecognized,
}

/// Stamp `req` with the control metadata for correlation token `token`,
/// overwriting any caller-supplied control; the payload is untouched.
pub fn stamp_control(req: &mut Request, token: u64)
    ensures
        final(req).payload == old(req).payload,
        final(req).control == (Some(Control { mailbox_slot: token, req_resp: true })),
{
    req.control = Some(Control { mailbox_slot: token, req_resp: true });
}

/// Wrap a stamped request in the outbound envelope's request variant.
pub fn wrap_request(req: Request) -> (env: OutboundEnvelope)
    ensures
        env == OutboundEnvelope::Request(req),
{
    OutboundEnvelope::Request(req)
}

} // verus!
