//! The engine: what is common to the stores, and what numbers them.

use core::hash::BuildHasher;
use std::hash::RandomState;
use vstd::prelude::*;

verus! {

/// Names a store. No two stores of an engine have one name.
#[derive(Clone, Copy, PartialEq, Eq, Structural, Debug)]
pub struct StoreId {
    pub engine: u64,
    pub number: u64,
}

/// What an engine holds.
pub struct EngineModel {
    /// What the names of the stores of this engine have in common.
    pub key: u64,
    /// Whether the stores support concurrency.
    pub concurrency_support: bool,
    /// The number of the next store.
    pub next: u64,
}

impl EngineModel {
    /// Whether another store can be made.
    pub open spec fn has_room(self) -> bool {
        self.next < u64::MAX
    }

    /// The name that the next store gets.
    pub open spec fn fresh(self) -> StoreId {
        StoreId { engine: self.key, number: self.next }
    }

    /// The engine after that.
    pub open spec fn numbered(self) -> EngineModel {
        EngineModel { next: (self.next + 1) as u64, ..self }
    }

    /// Whether this can be what `before` has become: the same engine, with as many stores or more.
    pub open spec fn later(self, before: EngineModel) -> bool {
        &&& self.key == before.key
        &&& self.concurrency_support == before.concurrency_support
        &&& self.next >= before.next
    }
}

/// An engine.
pub struct Engine {
    key: u64,
    concurrency_support: bool,
    next: u64,
}

impl View for Engine {
    type V = EngineModel;

    closed spec fn view(&self) -> EngineModel {
        EngineModel {
            key: self.key,
            concurrency_support: self.concurrency_support,
            next: self.next,
        }
    }
}

/// A state that is seeded at random: [`std::hash::RandomState::new`]. Nothing is said of it.
pub assume_specification[ RandomState::new ]() -> (r: RandomState)
;

/// A number that `state` gives: [`core::hash::BuildHasher::hash_one`]. As each state is seeded at
/// random, nothing is said of the number.
#[verifier::external_body]
fn drawn(state: &RandomState) -> (r: u64) {
    state.hash_one(0u8)
}

impl Engine {
    /// An engine without stores. Its key is drawn at random, to tell its stores from those of
    /// another engine. Nothing is said of the key, so no two engines are known to be alike.
    pub fn new(concurrency_support: bool) -> (r: Engine)
        ensures
            r@.concurrency_support == concurrency_support,
            r@.next == 0,
    {
        let key = drawn(&RandomState::new());
        Engine { key, concurrency_support, next: 0 }
    }

    /// Whether the stores of this engine support concurrency.
    pub fn concurrency_support(&self) -> (r: bool)
        ensures
            r == self@.concurrency_support,
    {
        self.concurrency_support
    }

    /// Gives out the name of a new store.
    pub fn number(&mut self) -> (r: StoreId)
        requires
            old(self)@.has_room(),
        ensures
            r == old(self)@.fresh(),
            final(self)@ == old(self)@.numbered(),
    {
        let r = StoreId { engine: self.key, number: self.next };
        self.next = self.next + 1;
        r
    }
}

} // verus!
