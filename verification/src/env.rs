//! The context of one contract invocation: the ledger time, and the token
//! transfers and events that the invocation asks the ledger to carry out.
//!
//! An invocation either succeeds, and its transfers and events take effect in
//! the order recorded here, or fails, and then nothing it did takes effect:
//! every operation of this library that returns an error leaves its contract
//! states and its `Env` exactly as they were.
use vstd::prelude::*;
use crate::types::Address;
use crate::events::Event;

verus! {

/// A movement of `amount` units of the token `asset` from `from` to `to`.
#[derive(Clone, Copy, PartialEq, Eq, Structural, Debug)]
pub struct Transfer {
    pub asset: Address,
    pub from: Address,
    pub to: Address,
    pub amount: i128,
}

/// The invocation context.
pub struct Env {
    pub timestamp: u64,
    pub transfers: Vec<Transfer>,
    pub events: Vec<Event>,
}

/// The mathematical content of an `Env`.
pub ghost struct EnvState {
    pub timestamp: u64,
    pub transfers: Seq<Transfer>,
    pub events: Seq<Event>,
}

impl EnvState {
    /// This state with one more transfer recorded.
    pub open spec fn pay(self, t: Transfer) -> EnvState {
        EnvState { transfers: self.transfers.push(t), ..self }
    }

    /// This state with one more event recorded.
    pub open spec fn emit(self, e: Event) -> EnvState {
        EnvState { events: self.events.push(e), ..self }
    }
}

impl View for Env {
    type V = EnvState;

    open spec fn view(&self) -> EnvState {
        EnvState { timestamp: self.timestamp, transfers: self.transfers@, events: self.events@ }
    }
}

impl Env {
    /// A fresh context at ledger time `timestamp`.
    pub fn new(timestamp: u64) -> (e: Env)
        ensures
            e@ == (EnvState { timestamp, transfers: Seq::empty(), events: Seq::empty() }),
    {
        Env { timestamp, transfers: Vec::new(), events: Vec::new() }
    }

    /// Records a token transfer.
    pub fn pay(&mut self, asset: Address, from: Address, to: Address, amount: i128)
        ensures
            final(self)@ == old(self)@.pay(Transfer { asset, from, to, amount }),
    {
        self.transfers.push(Transfer { asset, from, to, amount });
    }

    /// Records an event.
    pub fn emit(&mut self, e: Event)
        ensures
            final(self)@ == old(self)@.emit(e),
    {
        self.events.push(e);
    }

    /// A point to which the context can be rolled back.
    pub fn mark(&self) -> (m: (usize, usize))
        ensures
            m.0 == self.transfers@.len(),
            m.1 == self.events@.len(),
    {
        (self.transfers.len(), self.events.len())
    }

    /// Forgets what was recorded since `m`.
    pub fn rollback(&mut self, m: (usize, usize))
        requires
            m.0 <= old(self).transfers@.len(),
            m.1 <= old(self).events@.len(),
        ensures
            final(self)@ == (EnvState {
                timestamp: old(self).timestamp,
                transfers: old(self).transfers@.take(m.0 as int),
                events: old(self).events@.take(m.1 as int),
            }),
    {
        self.transfers.truncate(m.0);
        self.events.truncate(m.1);
    }
}

} // verus!
