//! Record lifecycle operations over the exchange collection.

use vstd::prelude::*;

use crate::errors::StoreError;
use crate::record_id::RecordId;
use crate::schema::Exchange;
use crate::store::Store;

verus! {

/// The index of the first exchange at or after position `i` stored under
/// `id`, or -1 when there is none.
pub open spec fn exchange_idx_from(s: Seq<Exchange>, id: RecordId, i: int) -> int
    decreases s.len() - i,
{
    if i < 0 || i >= s.len() {
        -1
    } else if s[i].id == Some(id) {
        i
    } else {
        exchange_idx_from(s, id, i + 1)
    }
}

/// The index of the exchange stored under `id`, or -1 when there is none.
pub open spec fn exchange_idx(s: Seq<Exchange>, id: RecordId) -> int {
    exchange_idx_from(s, id, 0)
}

/// The exchange stored under `id`, if any.
pub open spec fn spec_find_exchange(s: Seq<Exchange>, id: RecordId) -> Option<Exchange> {
    let k = exchange_idx(s, id);
    if k >= 0 {
        Some(s[k])
    } else {
        None
    }
}

pub struct ExchangeService;

impl ExchangeService {
    /// Stamps both timestamps with `now`, stores the record under a fresh
    /// generated identifier, and returns the stored form.
    pub fn create_exchange(store: &mut Store, exchange: Exchange, now: i64) -> (r: Result<
        Exchange,
        StoreError,
    >)
        requires
            old(store).wf(),
        ensures
            final(store).wf(),
            final(store).assets == old(store).assets,
            final(store).market_pairs == old(store).market_pairs,
            final(store).strategies == old(store).strategies,
            match r {
                Ok(e) => {
                    &&& old(store).next_seq < u64::MAX
                    &&& e == (Exchange {
                        id: Some(RecordId { hi: 0, lo: old(store).next_seq }),
                        name: exchange.name,
                        short_name: exchange.short_name,
                        url: exchange.url,
                        created_at: now,
                        updated_at: now,
                    })
                    &&& final(store).exchanges@ == old(store).exchanges@.push(e)
                    &&& final(store).next_seq == old(store).next_seq + 1
                },
                Err(err) => {
                    &&& err is PersistFailure
                    &&& old(store).next_seq == u64::MAX
                    &&& *final(store) == *old(store)
                },
            },
    {
        let id = match store.fresh_id() {
            Some(id) => id,
            None => {
                return Err(StoreError::PersistFailure);
            },
        };
        let stored = Exchange {
            id: Some(id),
            name: exchange.name,
            short_name: exchange.short_name,
            url: exchange.url,
            created_at: now,
            updated_at: now,
        };
        let copy = stored.clone();
        store.exchanges.push(stored);
        Ok(copy)
    }

    /// Point lookup by identifier.
    pub fn get_exchange(store: &Store, id: RecordId) -> (r: Result<Exchange, StoreError>)
        ensures
            match r {
                Ok(e) => spec_find_exchange(store.exchanges@, id) == Some(e),
                Err(err) => {
                    &&& err is NotFound
                    &&& spec_find_exchange(store.exchanges@, id) is None
                },
            },
    {
        match find_exchange(&store.exchanges, id) {
            Some(e) => Ok(e),
            None => Err(StoreError::NotFound),
        }
    }

    /// Full-record replacement of the editable fields: replaces name,
    /// short name and url, refreshes the update stamp, keeps the creation
    /// stamp, and returns the stored form.
    pub fn update_exchange(store: &mut Store, id: RecordId, updated: Exchange, now: i64) -> (r:
        Result<Exchange, StoreError>)
        requires
            old(store).wf(),
        ensures
            final(store).wf(),
            final(store).assets == old(store).assets,
            final(store).market_pairs == old(store).market_pairs,
            final(store).strategies == old(store).strategies,
            final(store).next_seq == old(store).next_seq,
            match r {
                Ok(e) => {
                    &&& exchange_idx(old(store).exchanges@, id) >= 0
                    &&& e == (Exchange {
                        id: old(store).exchanges@[exchange_idx(old(store).exchanges@, id)].id,
                        name: updated.name,
                        short_name: updated.short_name,
                        url: updated.url,
                        created_at: old(store).exchanges@[exchange_idx(
                            old(store).exchanges@,
                            id,
                        )].created_at,
                        updated_at: now,
                    })
                    &&& final(store).exchanges@ == old(store).exchanges@.update(
                        exchange_idx(old(store).exchanges@, id),
                        e,
                    )
                },
                Err(err) => {
                    &&& err is NotFound
                    &&& exchange_idx(old(store).exchanges@, id) < 0
                    &&& *final(store) == *old(store)
                },
            },
    {
        let ghost s0 = store.exchanges@;
        let n = store.exchanges.len();
        for i in 0..n
            invariant
                old(store).wf(),
                n == store.exchanges@.len(),
                store.exchanges@ == s0,
                *store == *old(store),
                exchange_idx(s0, id) == exchange_idx_from(s0, id, i as int),
        {
            if rid_eq(&store.exchanges[i].id, id) {
                let e = Exchange {
                    id: store.exchanges[i].id,
                    name: updated.name,
                    short_name: updated.short_name,
                    url: updated.url,
                    created_at: store.exchanges[i].created_at,
                    updated_at: now,
                };
                let copy = e.clone();
                store.exchanges.set(i, e);
                proof {
                    let s1 = store.exchanges@;
                    assert forall|p: int|
                        0 <= p < s1.len() implies crate::store::stored_id_ok(
                        #[trigger] s1[p].id,
                        store.next_seq,
                    ) by {
                        assert(s1[p].id == s0[p].id);
                        assert(crate::store::stored_id_ok(s0[p].id, old(store).next_seq));
                    }
                    assert forall|p: int, q: int|
                        #![trigger s1[p].id, s1[q].id]
                        0 <= p < q < s1.len() implies s1[p].id != s1[q].id by {
                        assert(s1[p].id == s0[p].id && s1[q].id == s0[q].id);
                    }
                }
                return Ok(copy);
            }
        }
        Err(StoreError::NotFound)
    }

    /// Removes the record stored under `id`; removing an absent record is
    /// not a failure.
    pub fn delete_exchange(store: &mut Store, id: RecordId) -> (r: Result<(), StoreError>)
        requires
            old(store).wf(),
        ensures
            final(store).wf(),
            final(store).assets == old(store).assets,
            final(store).market_pairs == old(store).market_pairs,
            final(store).strategies == old(store).strategies,
            final(store).next_seq == old(store).next_seq,
            r is Ok,
            exchange_idx(old(store).exchanges@, id) >= 0 ==> final(store).exchanges@ == old(
                store,
            ).exchanges@.remove(exchange_idx(old(store).exchanges@, id)),
            exchange_idx(old(store).exchanges@, id) < 0 ==> *final(store) == *old(store),
    {
        let ghost s0 = store.exchanges@;
        let n = store.exchanges.len();
        for i in 0..n
            invariant
                old(store).wf(),
                n == store.exchanges@.len(),
                store.exchanges@ == s0,
                *store == *old(store),
                exchange_idx(s0, id) == exchange_idx_from(s0, id, i as int),
        {
            if rid_eq(&store.exchanges[i].id, id) {
                store.exchanges.remove(i);
                proof {
                    let s1 = store.exchanges@;
                    s0.remove_ensures(i as int);
                    assert forall|p: int|
                        0 <= p < s1.len() implies crate::store::stored_id_ok(
                        #[trigger] s1[p].id,
                        store.next_seq,
                    ) by {
                        if p < i {
                            assert(s1[p] == s0[p]);
                        } else {
                            assert(s1[p] == s0[p + 1]);
                        }
                    }
                    assert forall|p: int, q: int|
                        #![trigger s1[p].id, s1[q].id]
                        0 <= p < q < s1.len() implies s1[p].id != s1[q].id by {
                        let p0: int = if p < i { p } else { p + 1 };
                        let q0: int = if q < i { q } else { q + 1 };
                        assert(s1[p] == s0[p0] && s1[q] == s0[q0]);
                        assert(s0[p0].id != s0[q0].id);
                    }
                }
                return Ok(());
            }
        }
        Ok(())
    }

    /// Every stored exchange, in insertion order.
    pub fn get_all_exchanges(store: &Store) -> (r: Vec<Exchange>)
        ensures
            r@ == store.exchanges@,
    {
        let n = store.exchanges.len();
        let mut out: Vec<Exchange> = Vec::new();
        for i in 0..n
            invariant
                n == store.exchanges@.len(),
                out@ =~= store.exchanges@.subrange(0, i as int),
        {
            out.push(store.exchanges[i].clone());
        }
        proof {
            assert(out@ =~= store.exchanges@);
        }
        out
    }
}

/// The exchange stored under `id`, if any.
pub fn find_exchange(exchanges: &Vec<Exchange>, id: RecordId) -> (r: Option<Exchange>)
    ensures
        r == spec_find_exchange(exchanges@, id),
{
    let n = exchanges.len();
    for i in 0..n
        invariant
            n == exchanges@.len(),
            exchange_idx(exchanges@, id) == exchange_idx_from(exchanges@, id, i as int),
    {
        if rid_eq(&exchanges[i].id, id) {
            return Some(exchanges[i].clone());
        }
    }
    None
}

/// Whether an optional stored identifier equals the identifier looked up.
pub fn rid_eq(stored: &Option<RecordId>, id: RecordId) -> (r: bool)
    ensures
        r == (*stored == Some(id)),
{
    match stored {
        Some(s) => s.hi == id.hi && s.lo == id.lo,
        None => false,
    }
}

} // verus!
