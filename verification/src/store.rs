//! The document store model: four flat collections of records, each record
//! under a generated identifier, plus the generation counter.
//!
//! Well-formedness says that every stored record carries a valid generated
//! identifier below the counter, distinct within its collection.  Every
//! store operation preserves it.

use vstd::prelude::*;

use crate::record_id::RecordId;
use crate::schema::{Asset, Exchange, MarketPair};
use crate::strategy::ArbitrageStrategy;

verus! {

/// Holds of the identifier of a record that the store has persisted:
/// present, generated (high part zero), non-zero, and below the counter.
pub open spec fn stored_id_ok(id: Option<RecordId>, next: u64) -> bool {
    &&& id is Some
    &&& id->0.hi == 0
    &&& 1 <= id->0.lo < next
}

pub struct Store {
    pub exchanges: Vec<Exchange>,
    pub assets: Vec<Asset>,
    pub market_pairs: Vec<MarketPair>,
    pub strategies: Vec<ArbitrageStrategy>,
    /// The next identifier to generate; shared by all four collections.
    pub next_seq: u64,
}

impl Store {
    pub open spec fn exchanges_wf(self) -> bool {
        &&& forall|i: int|
            0 <= i < self.exchanges@.len() ==> stored_id_ok(
                #[trigger] self.exchanges@[i].id,
                self.next_seq,
            )
        &&& forall|i: int, j: int|
            #![trigger self.exchanges@[i].id, self.exchanges@[j].id]
            0 <= i < j < self.exchanges@.len() ==> self.exchanges@[i].id != self.exchanges@[j].id
    }

    pub open spec fn assets_wf(self) -> bool {
        &&& forall|i: int|
            0 <= i < self.assets@.len() ==> stored_id_ok(
                #[trigger] self.assets@[i].id,
                self.next_seq,
            )
        &&& forall|i: int, j: int|
            #![trigger self.assets@[i].id, self.assets@[j].id]
            0 <= i < j < self.assets@.len() ==> self.assets@[i].id != self.assets@[j].id
    }

    pub open spec fn market_pairs_wf(self) -> bool {
        &&& forall|i: int|
            0 <= i < self.market_pairs@.len() ==> stored_id_ok(
                #[trigger] self.market_pairs@[i].id,
                self.next_seq,
            )
        &&& forall|i: int, j: int|
            #![trigger self.market_pairs@[i].id, self.market_pairs@[j].id]
            0 <= i < j < self.market_pairs@.len() ==> self.market_pairs@[i].id != self.market_pairs@[j].id
    }

    pub open spec fn strategies_wf(self) -> bool {
        &&& forall|i: int|
            0 <= i < self.strategies@.len() ==> stored_id_ok(
                #[trigger] self.strategies@[i].id,
                self.next_seq,
            )
        &&& forall|i: int, j: int|
            #![trigger self.strategies@[i].id, self.strategies@[j].id]
            0 <= i < j < self.strategies@.len() ==> self.strategies@[i].id != self.strategies@[j].id
    }

    /// Well-formedness of the whole store.
    pub open spec fn wf(self) -> bool {
        &&& self.next_seq >= 1
        &&& self.exchanges_wf()
        &&& self.assets_wf()
        &&& self.market_pairs_wf()
        &&& self.strategies_wf()
    }

    /// An empty store.
    pub fn new() -> (r: Store)
        ensures
            r.wf(),
            r.exchanges@.len() == 0,
            r.assets@.len() == 0,
            r.market_pairs@.len() == 0,
            r.strategies@.len() == 0,
            r.next_seq == 1,
    {
        Store {
            exchanges: Vec::new(),
            assets: Vec::new(),
            market_pairs: Vec::new(),
            strategies: Vec::new(),
            next_seq: 1,
        }
    }

    /// Draws the next generated identifier, or fails when the counter is
    /// exhausted.  Nothing but the counter changes.
    pub fn fresh_id(&mut self) -> (r: Option<RecordId>)
        ensures
            final(self).exchanges == old(self).exchanges,
            final(self).assets == old(self).assets,
            final(self).market_pairs == old(self).market_pairs,
            final(self).strategies == old(self).strategies,
            match r {
                Some(id) => {
                    &&& old(self).next_seq < u64::MAX
                    &&& id == (RecordId { hi: 0, lo: old(self).next_seq })
                    &&& final(self).next_seq == old(self).next_seq + 1
                },
                None => {
                    &&& old(self).next_seq == u64::MAX
                    &&& *final(self) == *old(self)
                },
            },
    {
        if self.next_seq == u64::MAX {
            None
        } else {
            let id = RecordId { hi: 0, lo: self.next_seq };
            self.next_seq = self.next_seq + 1;
            Some(id)
        }
    }
}

} // verus!
