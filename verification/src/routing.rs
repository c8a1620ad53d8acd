//! Routing: the decision the background reader takes for one decoded inbound
//! envelope, against the mailbox registry.
//!
//! A response whose token has a registered waiter is delivered to exactly
//! that waiter and the entry is consumed; everything else is dropped without
//! failing, so one stray message never stops the reader.

use crate::envelope::{InboundEnvelope, Response};
use crate::mailbox::MailboxRegistry;
use vstd::prelude::*;

verus! {

/// What the reader does with one inbound envelope. Only `Deliver` touches a
/// waiter; the three drop outcomes say why a message was discarded, and none
/// of them is an error for the reader.
pub enum RouteAction<T> {
    /// A waiter was registered under the response's token: hand it the
    /// response. The registry entry is consumed.
    Deliver(T, Response),
    /// A response carried a token nobody is waiting for: drop it.
    DropUnmatched(Response),
    /// A response carried no control metadata, so it cannot be correlated:
    /// drop it.
    DropMalformed(Response),
    /// An envelope kind this core does not handle: drop it.
    DropUnhandled,
}

/// The routing decision and the registry it leaves behind.
pub open spec fn spec_route<T>(reg: Map<u64, T>, env: InboundEnvelope) -> (RouteAction<T>, Map<
    u64,
    T,
>) {
    match env {
        InboundEnvelope::Response(resp) => match resp.control {
            Some(c) => if reg.contains_key(c.mailbox_slot) {
                (RouteAction::Deliver(reg[c.mailbox_slot], resp), reg.remove(c.mailbox_slot))
            } else {
                (RouteAction::DropUnmatched(resp), reg)
            },
            None => (RouteAction::DropMalformed(resp), reg),
        },
        InboundEnvelope::Unrecognized => (RouteAction::DropUnhandled, reg),
    }
}

/// Route one inbound envelope: deliver a response to its registered waiter,
/// consuming the registry entry, or say why it is dropped. Total over every
/// envelope and registry: no input makes routing fail.
pub fn route_inbound<T>(env: InboundEnvelope, reg: &mut MailboxRegistry<T>) -> (r: RouteAction<T>)
    ensures
        r == spec_route(old(reg)@, env).0,
        final(reg)@ == spec_route(old(reg)@, env).1,
{
    match env {
        InboundEnvelope::Response(resp) => match resp.control {
            Some(c) => match reg.remove(c.mailbox_slot) {
                Some(slot) => RouteAction::Deliver(slot, resp),
                None => RouteAction::DropUnmatched(resp),
            },
            None => RouteAction::DropMalformed(resp),
        },
        InboundEnvelope::Unrecognized => RouteAction::DropUnhandled,
    }
}

/// Correlation correctness: with two distinct tokens outstanding, routing
/// the two responses tagged with them — in either order — delivers each
/// response to exactly the waiter registered under its own token, never
/// swapped.
pub proof fn lemma_correlation_correctness<T>(
    reg: Map<u64, T>,
    t1: u64,
    t2: u64,
    r1: Response,
    r2: Response,
)
    requires
        t1 != t2,
        reg.contains_key(t1),
        reg.contains_key(t2),
        r1.control is Some && r1.control->Some_0.mailbox_slot == t1,
        r2.control is Some && r2.control->Some_0.mailbox_slot == t2,
    ensures
        ({
            let (a1, m1) = spec_route(reg, InboundEnvelope::Response(r1));
            let (a2, _) = spec_route(m1, InboundEnvelope::Response(r2));
            a1 == RouteAction::Deliver(reg[t1], r1) && a2 == RouteAction::Deliver(reg[t2], r2)
        }),
        ({
            let (b2, m2) = spec_route(reg, InboundEnvelope::Response(r2));
            let (b1, _) = spec_route(m2, InboundEnvelope::Response(r1));
            b2 == RouteAction::Deliver(reg[t2], r2) && b1 == RouteAction::Deliver(reg[t1], r1)
        }),
{
}

/// Unmatched delivery is non-fatal: routing a response whose token was never
/// registered delivers nothing and leaves the registry exactly as it was, so
/// a later response for a registered token still reaches its waiter.
pub proof fn lemma_unmatched_then_matched<T>(
    reg: Map<u64, T>,
    unmatched: u64,
    t: u64,
    ru: Response,
    rt: Response,
)
    requires
        !reg.contains_key(unmatched),
        reg.contains_key(t),
        ru.control is Some && ru.control->Some_0.mailbox_slot == unmatched,
        rt.control is Some && rt.control->Some_0.mailbox_slot == t,
    ensures
        ({
            let (a1, m1) = spec_route(reg, InboundEnvelope::Response(ru));
            let (a2, _) = spec_route(m1, InboundEnvelope::Response(rt));
            a1 == RouteAction::<T>::DropUnmatched(ru) && m1 == reg && a2 == RouteAction::Deliver(
                reg[t],
                rt,
            )
        }),
{
}

} // verus!
