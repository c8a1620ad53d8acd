//! A correlation-based RPC transport core.
//!
//! A client sends length-framed envelopes over a duplex byte stream and
//! optionally awaits a matching reply, identified by a correlation token
//! rather than by stream order. The crate verifies the pieces that decide
//! behaviour: the framing codec, the envelope model, the mailbox registry
//! that pairs tokens with waiting callers, the dispatch state machine that
//! drives the background reader, and the connection core that allocates
//! tokens and routes inbound envelopes. The byte stream itself, the
//! background thread and the structured payload codec live outside the
//! verified core and hand it plain values.

pub mod connection;
pub mod dispatch;
pub mod envelope;
pub mod framing;
pub mod mailbox;
pub mod routing;
