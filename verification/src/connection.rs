//! Connection core: the verified heart of the connection façade.
//!
//! It owns the mailbox registry and the token counter, allocates a fresh
//! correlation token per request, stamps and registers the request, and
//! routes inbound envelopes. The byte stream, the background reader thread
//! and the blocking wait on the delivery channel live outside the verified
//! core; they hand it requests, envelopes and slots as plain values.

use crate::envelope::{Control, InboundEnvelope, Request};
use crate::mailbox::MailboxRegistry;
use crate::routing::{route_inbound, spec_route, RouteAction};
use vstd::prelude::*;

verus! {

/// The correlation state of one connection: the registry of waiters and the
/// monotonic counter the next token is drawn from.
///
/// Tokens are allocated by counting up, so every token handed out is fresh
/// among this connection's outstanding requests and registration can never
/// collide.
pub struct Connection<T> {
    registry: MailboxRegistry<T>,
    next_token: u64,
}

impl<T> Connection<T> {
    /// The waiters outstanding on this connection, by token.
    pub closed spec fn registry(&self) -> Map<u64, T> {
        self.registry@
    }

    /// The token the next request will be stamped with.
    pub closed spec fn next_token(&self) -> u64 {
        self.next_token
    }

    /// Every outstanding token was drawn from the counter, so the counter's
    /// next value is fresh: the well-formedness every method preserves.
    pub open spec fn wf(&self) -> bool {
        forall|t: u64| self.registry().contains_key(t) ==> t < self.next_token()
    }

    /// A fresh connection core: no waiter outstanding, tokens start at zero.
    pub fn new() -> (c: Self)
        ensures
            c.registry() == Map::<u64, T>::empty(),
            c.next_token() == 0,
            c.wf(),
    {
        Connection { registry: MailboxRegistry::new(), next_token: 0 }
    }

    /// Start a request/response exchange: allocate a fresh correlation
    /// token, stamp `req`'s control metadata with it (overwriting any
    /// caller-supplied control), and register `slot` as the one waiter for
    /// the response. Returns the token. Freshness rules a duplicate out, so
    /// registration succeeds whenever a token is left to allocate; only a
    /// counter that has run through the whole token space refuses, leaving
    /// request and registry untouched.
    ///
    /// The caller then wraps the stamped request in an outbound envelope,
    /// frames its encoded bytes and writes them to the stream; the delivery
    /// into `slot` is the background reader's job.
    pub fn begin_request(&mut self, req: &mut Request, slot: T) -> (r: Option<u64>)
        requires
            old(self).wf(),
        ensures
            final(self).wf(),
            r is Some <==> old(self).next_token() < u64::MAX,
            match r {
                Some(token) => {
                    &&& token == old(self).next_token()
                    &&& !old(self).registry().contains_key(token)
                    &&& final(self).registry() == old(self).registry().insert(token, slot)
                    &&& final(self).next_token() == old(self).next_token() + 1
                    &&& final(req).payload == old(req).payload
                    &&& final(req).control == (Some(
                        Control { mailbox_slot: token, req_resp: true },
                    ))
                },
                None => {
                    &&& final(self).registry() == old(self).registry()
                    &&& final(self).next_token() == old(self).next_token()
                    &&& *final(req) == *old(req)
                },
            },
    {
        if self.next_token == u64::MAX {
            return None;
        }
        let token = self.next_token;
        self.next_token = self.next_token + 1;
        crate::envelope::stamp_control(req, token);
        let registered = self.registry.register(token, slot);
        proof {
            assert(!old(self).registry().contains_key(token));
            assert(registered is Ok);
            assert forall|t: u64| self.registry().contains_key(t) implies t < self.next_token() by {
                if t != token {
                    assert(old(self).registry().contains_key(t));
                }
            }
        }
        Some(token)
    }

    /// Route one inbound envelope against this connection's registry: the
    /// reader's per-message decision. Delivering consumes the waiter's
    /// entry; every other envelope leaves the registry untouched.
    pub fn route_inbound(&mut self, env: InboundEnvelope) -> (r: RouteAction<T>)
        ensures
            r == spec_route(old(self).registry(), env).0,
            final(self).registry() == spec_route(old(self).registry(), env).1,
            final(self).next_token() == old(self).next_token(),
            old(self).wf() ==> final(self).wf(),
    {
        route_inbound(env, &mut self.registry)
    }

    /// Forget the waiter for `token`, if any: the explicit eviction a caller
    /// uses after giving up on a response, so the registry cannot grow
    /// without bound. Returns the slot exactly when the token was
    /// registered.
    pub fn remove_waiter(&mut self, token: u64) -> (r: Option<T>)
        ensures
            match r {
                Some(slot) => old(self).registry().contains_key(token) && slot == old(
                    self,
                ).registry()[token] && final(self).registry() == old(self).registry().remove(token),
                None => !old(self).registry().contains_key(token) && final(self).registry() == old(
                    self,
                ).registry(),
            },
            final(self).next_token() == old(self).next_token(),
            old(self).wf() ==> final(self).wf(),
    {
        self.registry.remove(token)
    }

    /// Whether a waiter is registered under `token`.
    pub fn has_waiter(&self, token: u64) -> (r: bool)
        ensures
            r == self.registry().contains_key(token),
    {
        self.registry.contains(token)
    }

    /// How many requests are outstanding.
    pub fn pending(&self) -> (n: usize)
        ensures
            n == self.registry().len(),
    {
        self.registry.len()
    }
}

} // verus!
