//! Dispatch loop state machine: the decisions of the single background
//! reader that owns the stream's read half.
//!
//! The loop around it is unverified plumbing: it reads bytes, runs the
//! external payload codec, sends delivered responses into their channels.
//! Every decision in between — when to keep going, when to stop, where a
//! response goes — is taken here, one verified step per loop stage. The
//! machine has the two states the loop can be in: `Running`, and `Stopped`
//! with the reason. Once stopped it stays stopped, delivers nothing and
//! leaves the connection untouched, whatever is fed to it.

use crate::connection::Connection;
use crate::envelope::InboundEnvelope;
use crate::framing;
use crate::framing::{spec_decode_header, DecodeError};
use crate::routing::{spec_route, RouteAction};
use vstd::prelude::*;

verus! {

/// Why the reader stopped: the peer closed the stream, or the stream is
/// desynchronized (bad magic, truncated frame, payload the codec refuses)
/// and framing cannot safely continue.
#[derive(Clone, Copy, PartialEq, Eq, Structural, Debug)]
pub enum StopReason {
    ConnectionClosed,
    Protocol,
}

/// The reader's state: running, or stopped for good.
#[derive(Clone, Copy, PartialEq, Eq, Structural, Debug)]
pub enum DispatchState {
    Running,
    Stopped(StopReason),
}

/// What the external payload codec made of a frame body: an envelope, or a
/// refusal. A refusal is fatal to the loop, since the stream can no longer
/// be trusted to frame correctly.
pub enum CodecOutcome {
    Envelope(InboundEnvelope),
    Malformed,
}

/// What one envelope step decided: a routing outcome to act on, or the stop
/// of the loop.
pub enum StepAction<T> {
    Routed(RouteAction<T>),
    Halted(StopReason),
}

/// The dispatch loop's verified state.
pub struct Dispatcher {
    state: DispatchState,
}

impl Dispatcher {
    /// The machine's current state.
    pub closed spec fn state(&self) -> DispatchState {
        self.state
    }

    /// A reader about to process its first frame.
    pub fn new() -> (d: Self)
        ensures
            d.state() == DispatchState::Running,
    {
        Dispatcher { state: DispatchState::Running }
    }

    /// The current state, for the loop and for logging.
    pub fn current_state(&self) -> (s: DispatchState)
        ensures
            s == self.state(),
    {
        self.state
    }

    /// Step on a header read: `bytes` is everything a read of up to five
    /// bytes produced. Returns the announced body length when the frame can
    /// proceed. A short read stops the loop as a closed connection; a wrong
    /// magic byte stops it as a protocol failure, without reading a length
    /// out of the bytes that follow. A stopped machine ignores the input.
    pub fn on_header(&mut self, bytes: &Vec<u8>) -> (r: Option<u32>)
        ensures
            old(self).state() == DispatchState::Running ==> match spec_decode_header(bytes@) {
                Ok(len) => r == Some(len) && final(self).state() == DispatchState::Running,
                Err(DecodeError::ConnectionClosed) => r == None::<u32> && final(self).state() == (
                DispatchState::Stopped(StopReason::ConnectionClosed)),
                Err(DecodeError::BadMagic) => r == None::<u32> && final(self).state() == (
                DispatchState::Stopped(StopReason::Protocol)),
            },
            old(self).state() is Stopped ==> r == None::<u32> && final(self).state() == old(
                self,
            ).state(),
    {
        match self.state {
            DispatchState::Running => match framing::decode_header(bytes) {
                Ok(len) => Some(len),
                Err(DecodeError::ConnectionClosed) => {
                    self.state = DispatchState::Stopped(StopReason::ConnectionClosed);
                    None
                },
                Err(DecodeError::BadMagic) => {
                    self.state = DispatchState::Stopped(StopReason::Protocol);
                    None
                },
            },
            DispatchState::Stopped(_) => None,
        }
    }

    /// Step on a body read for a frame that announced `length` bytes:
    /// `bytes` is everything the read produced. Returns whether the body is
    /// complete and the loop may hand it to the payload codec; a short read
    /// stops the loop as a closed connection. A stopped machine ignores the
    /// input.
    pub fn on_body(&mut self, bytes: &Vec<u8>, length: u32) -> (r: bool)
        ensures
            old(self).state() == DispatchState::Running ==> if bytes@.len() < length {
                !r && final(self).state() == (DispatchState::Stopped(StopReason::ConnectionClosed))
            } else {
                r && final(self).state() == DispatchState::Running
            },
            old(self).state() is Stopped ==> !r && final(self).state() == old(self).state(),
    {
        match self.state {
            DispatchState::Running => {
                if bytes.len() < length as usize {
                    self.state = DispatchState::Stopped(StopReason::ConnectionClosed);
                    false
                } else {
                    true
                }
            },
            DispatchState::Stopped(_) => false,
        }
    }

    /// Step on what the payload codec made of a complete body. A decoded
    /// envelope is routed against the connection's registry and the loop
    /// keeps running, whatever the routing outcome: dropped messages are non-fatal.
    /// A codec refusal stops the loop as a protocol failure. A stopped
    /// machine delivers nothing and leaves the connection untouched.
    pub fn on_envelope<T>(&mut self, outcome: CodecOutcome, conn: &mut Connection<T>) -> (v:
        StepAction<T>)
        ensures
            old(self).state() == DispatchState::Running ==> match outcome {
                CodecOutcome::Envelope(env) => {
                    &&& final(self).state() == DispatchState::Running
                    &&& v == StepAction::Routed(spec_route(old(conn).registry(), env).0)
                    &&& final(conn).registry() == spec_route(old(conn).registry(), env).1
                    &&& final(conn).next_token() == old(conn).next_token()
                },
                CodecOutcome::Malformed => {
                    &&& final(self).state() == (DispatchState::Stopped(StopReason::Protocol))
                    &&& v == (StepAction::<T>::Halted(StopReason::Protocol))
                    &&& *final(conn) == *old(conn)
                },
            },
            old(self).state() matches DispatchState::Stopped(reason) ==> {
                &&& final(self).state() == old(self).state()
                &&& v == (StepAction::<T>::Halted(reason))
                &&& *final(conn) == *old(conn)
            },
    {
        match self.state {
            DispatchState::Running => match outcome {
                CodecOutcome::Envelope(env) => StepAction::Routed(conn.route_inbound(env)),
                CodecOutcome::Malformed => {
                    self.state = DispatchState::Stopped(StopReason::Protocol);
                    StepAction::Halted(StopReason::Protocol)
                },
            },
            DispatchState::Stopped(reason) => StepAction::Halted(reason),
        }
    }
}

} // verus!
