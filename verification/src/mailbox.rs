//! Mailbox registry: the table pairing a correlation token with the one
//! waiter that expects the response carrying that token.
//!
//! The slot type `T` is whatever hands a response to the blocked caller (a
//! one-shot channel sender in a running system, a plain marker in tests);
//! the registry only stores and returns it.

use std::collections::HashMap;
use vstd::prelude::*;

verus! {

broadcast use vstd::std_specs::hash::group_hash_axioms;

/// Registering a token that already has a waiter is refused.
#[derive(Clone, Copy, PartialEq, Eq, Structural, Debug)]
pub enum RegisterError {
    DuplicateToken,
}

/// The table mapping each outstanding correlation token to the slot that
/// delivers its response. Viewed as the map from tokens to slots.
pub struct MailboxRegistry<T> {
    table: HashMap<u64, T>,
}

impl<T> View for MailboxRegistry<T> {
    type V = Map<u64, T>;

    closed spec fn view(&self) -> Map<u64, T> {
        self.table@
    }
}

impl<T> MailboxRegistry<T> {
    /// An empty registry: no token has a waiter.
    pub fn new() -> (r: Self)
        ensures
            r@ == Map::<u64, T>::empty(),
    {
        MailboxRegistry { table: HashMap::new() }
    }

    /// How many tokens have a waiter.
    pub fn len(&self) -> (n: usize)
        ensures
            n == self@.len(),
    {
        self.table.len()
    }

    /// Whether `token` has a registered waiter.
    pub fn contains(&self, token: u64) -> (r: bool)
        ensures
            r == self@.contains_key(token),
    {
        self.table.contains_key(&token)
    }

    /// Insert a fresh slot under `token`. Succeeds exactly when the token has
    /// no waiter yet; on a duplicate the registry is unchanged.
    pub fn register(&mut self, token: u64, slot: T) -> (r: Result<(), RegisterError>)
        ensures
            match r {
                Ok(()) => !old(self)@.contains_key(token) && final(self)@ == old(self)@.insert(
                    token,
                    slot,
                ),
                Err(e) => e == RegisterError::DuplicateToken && old(self)@.contains_key(token)
                    && final(self)@ == old(self)@,
            },
    {
        if self.table.contains_key(&token) {
            Err(RegisterError::DuplicateToken)
        } else {
            self.table.insert(token, slot);
            Ok(())
        }
    }

    /// Take the waiter for `token` out of the registry, if any: the caller
    /// either delivers into it or forgets it. Returns the slot exactly when
    /// the token was registered, and removes that entry; otherwise the
    /// registry is unchanged.
    pub fn remove(&mut self, token: u64) -> (r: Option<T>)
        ensures
            match r {
                Some(slot) => old(self)@.contains_key(token) && slot == old(self)@[token]
                    && final(self)@ == old(self)@.remove(token),
                None => !old(self)@.contains_key(token) && final(self)@ == old(self)@,
            },
    {
        self.table.remove(&token)
    }
}

} // verus!
