//! The arbitrage strategy store: validated creation and replacement,
//! point lookup, deletion, and the paginated populated listing.
//!
//! The listing joins every pair reference of a page's strategies by the
//! shape of each payload; a strategy any of whose references cannot be
//! resolved is silently left out of the page, while the returned total
//! still counts it.  The total can therefore exceed the rows returned.

use vstd::prelude::*;

use crate::clock::current_timestamp;
use crate::errors::StoreError;
use crate::market_pair_service::{populate_market_pair, spec_find_pair, spec_populate, find_pair};
use crate::record_id::RecordId;
use crate::schema::PopulatedMarketPair;
use crate::store::Store;
use crate::strategy::{
    ArbitrageDetails, ArbitrageStrategy, ArbitrageType, PopulatedArbitrageDetails,
    PopulatedArbitrageStrategy,
};
use crate::validator::{spec_validate, validate};
use crate::exchange_service::rid_eq;

verus! {

/// The index of the first strategy at or after position `i` stored under
/// `id`, or -1 when there is none.
pub open spec fn strategy_idx_from(s: Seq<ArbitrageStrategy>, id: RecordId, i: int) -> int
    decreases s.len() - i,
{
    if i < 0 || i >= s.len() {
        -1
    } else if s[i].id == Some(id) {
        i
    } else {
        strategy_idx_from(s, id, i + 1)
    }
}

/// The index of the strategy stored under `id`, or -1 when there is none.
pub open spec fn strategy_idx(s: Seq<ArbitrageStrategy>, id: RecordId) -> int {
    strategy_idx_from(s, id, 0)
}

/// The strategy stored under `id`, if any.
pub open spec fn spec_find_strategy(s: Seq<ArbitrageStrategy>, id: RecordId) -> Option<
    ArbitrageStrategy,
> {
    let k = strategy_idx(s, id);
    if k >= 0 {
        Some(s[k])
    } else {
        None
    }
}

/// A found index lies in range and carries the identifier looked up;
/// a negative result means no record carries it.
pub proof fn lemma_strategy_idx(s: Seq<ArbitrageStrategy>, id: RecordId, i: int)
    requires
        0 <= i <= s.len(),
    ensures
        strategy_idx_from(s, id, i) >= 0 ==> {
            &&& i <= strategy_idx_from(s, id, i) < s.len()
            &&& s[strategy_idx_from(s, id, i)].id == Some(id)
        },
        strategy_idx_from(s, id, i) < 0 ==> forall|k: int|
            i <= k < s.len() ==> (#[trigger] s[k].id) != Some(id),
    decreases s.len() - i,
{
    if i < s.len() && s[i].id != Some(id) {
        lemma_strategy_idx(s, id, i + 1);
    }
}

/// The populated view of one pair reference: the stored pair joined
/// against the exchange and asset collections, nothing when the
/// reference or any join target is missing.
pub open spec fn spec_resolve_ref(store: Store, id: RecordId) -> Option<PopulatedMarketPair> {
    match spec_find_pair(store.market_pairs@, id) {
        Some(p) => spec_populate(store, p),
        None => None,
    }
}

/// Resolves one pair reference to its populated view.
pub fn resolve_ref(store: &Store, id: RecordId) -> (r: Option<PopulatedMarketPair>)
    ensures
        r == spec_resolve_ref(*store, id),
{
    match find_pair(&store.market_pairs, id) {
        Some(p) => populate_market_pair(store, &p),
        None => None,
    }
}

/// The populated view of a strategy payload, joining by the shape of the
/// variant; nothing unless every reference of the variant resolves.
pub open spec fn spec_populate_details(store: Store, details: ArbitrageDetails) -> Option<
    PopulatedArbitrageDetails,
> {
    match details {
        ArbitrageDetails::Geographic(g) => match (
            spec_resolve_ref(store, g.pair1),
            spec_resolve_ref(store, g.pair2),
            spec_resolve_ref(store, g.conversion_pair),
        ) {
            (Some(p1), Some(p2), Some(cp)) => Some(
                PopulatedArbitrageDetails::Geographic { pair1: p1, pair2: p2, conversion_pair: cp },
            ),
            _ => None,
        },
        ArbitrageDetails::Exchange(e) => match (
            spec_resolve_ref(store, e.pair1),
            spec_resolve_ref(store, e.pair2),
        ) {
            (Some(p1), Some(p2)) => Some(
                PopulatedArbitrageDetails::Exchange { pair1: p1, pair2: p2 },
            ),
            _ => None,
        },
        ArbitrageDetails::Triangular(t) => match (
            spec_resolve_ref(store, t.pair1),
            spec_resolve_ref(store, t.pair2),
            spec_resolve_ref(store, t.pair3),
        ) {
            (Some(p1), Some(p2), Some(p3)) => Some(
                PopulatedArbitrageDetails::Triangular { pair1: p1, pair2: p2, pair3: p3 },
            ),
            _ => None,
        },
        ArbitrageDetails::TradingPair(t) => match (
            spec_resolve_ref(store, t.pair1),
            spec_resolve_ref(store, t.pair2),
            spec_resolve_ref(store, t.pair3),
        ) {
            (Some(p1), Some(p2), Some(p3)) => Some(
                PopulatedArbitrageDetails::TradingPair { pair1: p1, pair2: p2, pair3: p3 },
            ),
            _ => None,
        },
    }
}

/// Populates a strategy payload by the shape of its variant.
pub fn populate_details(store: &Store, details: &ArbitrageDetails) -> (r: Option<
    PopulatedArbitrageDetails,
>)
    ensures
        r == spec_populate_details(*store, *details),
{
    match details {
        ArbitrageDetails::Geographic(g) => {
            match (
                resolve_ref(store, g.pair1),
                resolve_ref(store, g.pair2),
                resolve_ref(store, g.conversion_pair),
            ) {
                (Some(p1), Some(p2), Some(cp)) => Some(
                    PopulatedArbitrageDetails::Geographic {
                        pair1: p1,
                        pair2: p2,
                        conversion_pair: cp,
                    },
                ),
                _ => None,
            }
        },
        ArbitrageDetails::Exchange(e) => {
            match (resolve_ref(store, e.pair1), resolve_ref(store, e.pair2)) {
                (Some(p1), Some(p2)) => Some(
                    PopulatedArbitrageDetails::Exchange { pair1: p1, pair2: p2 },
                ),
                _ => None,
            }
        },
        ArbitrageDetails::Triangular(t) => {
            match (
                resolve_ref(store, t.pair1),
                resolve_ref(store, t.pair2),
                resolve_ref(store, t.pair3),
            ) {
                (Some(p1), Some(p2), Some(p3)) => Some(
                    PopulatedArbitrageDetails::Triangular { pair1: p1, pair2: p2, pair3: p3 },
                ),
                _ => None,
            }
        },
        ArbitrageDetails::TradingPair(t) => {
            match (
                resolve_ref(store, t.pair1),
                resolve_ref(store, t.pair2),
                resolve_ref(store, t.pair3),
            ) {
                (Some(p1), Some(p2), Some(p3)) => Some(
                    PopulatedArbitrageDetails::TradingPair { pair1: p1, pair2: p2, pair3: p3 },
                ),
                _ => None,
            }
        },
    }
}

/// The populated view of a whole strategy; nothing unless it carries an
/// identifier and its payload populates.
pub open spec fn spec_populate_strategy(store: Store, s: ArbitrageStrategy) -> Option<
    PopulatedArbitrageStrategy,
> {
    match s.id {
        Some(id) => match spec_populate_details(store, s.details) {
            Some(d) => Some(
                PopulatedArbitrageStrategy {
                    id,
                    arbitrage_type: s.arbitrage_type,
                    details: d,
                    created_at: s.created_at,
                    updated_at: s.updated_at,
                    status: s.status,
                },
            ),
            None => None,
        },
        None => None,
    }
}

/// Populates a whole stored strategy.
pub fn populate_strategy(store: &Store, s: &ArbitrageStrategy) -> (r: Option<
    PopulatedArbitrageStrategy,
>)
    ensures
        r == spec_populate_strategy(*store, *s),
{
    let id = match s.id {
        Some(id) => id,
        None => {
            return None;
        },
    };
    match populate_details(store, &s.details) {
        Some(d) => Some(
            PopulatedArbitrageStrategy {
                id,
                arbitrage_type: s.arbitrage_type,
                details: d,
                created_at: s.created_at,
                updated_at: s.updated_at,
                status: s.status,
            },
        ),
        None => None,
    }
}

/// Whether a strategy passes the optional kind filter.
pub open spec fn type_matches(s: ArbitrageStrategy, f: Option<ArbitrageType>) -> bool {
    match f {
        Some(t) => s.arbitrage_type == t,
        None => true,
    }
}

/// The strategies among the first `n` that pass the kind filter, in
/// store order.
pub open spec fn strategies_filtered_upto(
    s: Seq<ArbitrageStrategy>,
    f: Option<ArbitrageType>,
    n: int,
) -> Seq<ArbitrageStrategy>
    decreases n,
{
    if n <= 0 {
        Seq::empty()
    } else {
        strategies_filtered_upto(s, f, n - 1) + if type_matches(s[n - 1], f) {
            seq![s[n - 1]]
        } else {
            Seq::<ArbitrageStrategy>::empty()
        }
    }
}

/// All strategies passing the kind filter, in store order.
pub open spec fn spec_strategies_filtered(
    s: Seq<ArbitrageStrategy>,
    f: Option<ArbitrageType>,
) -> Seq<ArbitrageStrategy> {
    strategies_filtered_upto(s, f, s.len() as int)
}

/// A filtered prefix is no longer than the prefix it was cut from.
pub proof fn lemma_strategies_filtered_len(
    s: Seq<ArbitrageStrategy>,
    f: Option<ArbitrageType>,
    n: int,
)
    requires
        0 <= n,
    ensures
        strategies_filtered_upto(s, f, n).len() <= n,
    decreases n,
{
    if n > 0 {
        lemma_strategies_filtered_len(s, f, n - 1);
    }
}

/// The populated rows of the first `n` strategies of a page, leaving out
/// the strategies that do not populate.
pub open spec fn populated_rows_upto(store: Store, page: Seq<ArbitrageStrategy>, n: int) -> Seq<
    PopulatedArbitrageStrategy,
>
    decreases n,
{
    if n <= 0 {
        Seq::empty()
    } else {
        populated_rows_upto(store, page, n - 1) + match spec_populate_strategy(store, page[n - 1]) {
            Some(row) => seq![row],
            None => Seq::<PopulatedArbitrageStrategy>::empty(),
        }
    }
}

/// The populated rows of a page of strategies.
pub open spec fn spec_populated_rows(store: Store, page: Seq<ArbitrageStrategy>) -> Seq<
    PopulatedArbitrageStrategy,
> {
    populated_rows_upto(store, page, page.len() as int)
}

/// What a stored strategy looks like when created from `strategy` at
/// `now` under the generated identifier `lo`.
pub open spec fn spec_created(strategy: ArbitrageStrategy, now: i64, lo: u64) -> ArbitrageStrategy {
    ArbitrageStrategy {
        id: Some(RecordId { hi: 0, lo }),
        arbitrage_type: strategy.arbitrage_type,
        details: strategy.details,
        created_at: now,
        updated_at: now,
        status: strategy.status,
    }
}

pub struct ArbitrageStrategyService;

impl ArbitrageStrategyService {
    /// Stamps both timestamps with `now`, validates the payload, stores
    /// the record under a fresh generated identifier, and returns the
    /// stored form.
    pub fn create_arbitrage_strategy_at(store: &mut Store, strategy: ArbitrageStrategy, now: i64) -> (r:
        Result<ArbitrageStrategy, StoreError>)
        requires
            old(store).wf(),
        ensures
            final(store).wf(),
            final(store).exchanges == old(store).exchanges,
            final(store).assets == old(store).assets,
            final(store).market_pairs == old(store).market_pairs,
            match r {
                Ok(s) => {
                    &&& spec_validate(strategy.details) is Ok
                    &&& old(store).next_seq < u64::MAX
                    &&& s == spec_created(strategy, now, old(store).next_seq)
                    &&& final(store).strategies@ == old(store).strategies@.push(s)
                    &&& final(store).next_seq == old(store).next_seq + 1
                },
                Err(err) => {
                    &&& *final(store) == *old(store)
                    &&& match spec_validate(strategy.details) {
                        Err(e) => err == e,
                        Ok(()) => err is PersistFailure && old(store).next_seq == u64::MAX,
                    }
                },
            },
    {
        if let Err(e) = validate(&strategy.details) {
            return Err(e);
        }
        let id = match store.fresh_id() {
            Some(id) => id,
            None => {
                return Err(StoreError::PersistFailure);
            },
        };
        let stored = ArbitrageStrategy {
            id: Some(id),
            arbitrage_type: strategy.arbitrage_type,
            details: strategy.details,
            created_at: now,
            updated_at: now,
            status: strategy.status,
        };
        store.strategies.push(stored);
        Ok(stored)
    }

    /// Creation stamped with the current clock reading.  The timestamps
    /// of a stored strategy carry the clock value the call used.
    pub fn create_arbitrage_strategy(store: &mut Store, strategy: ArbitrageStrategy) -> (r: Result<
        ArbitrageStrategy,
        StoreError,
    >)
        requires
            old(store).wf(),
        ensures
            final(store).wf(),
            final(store).exchanges == old(store).exchanges,
            final(store).assets == old(store).assets,
            final(store).market_pairs == old(store).market_pairs,
            match r {
                Ok(s) => {
                    &&& spec_validate(strategy.details) is Ok
                    &&& old(store).next_seq < u64::MAX
                    &&& s.created_at >= 0
                    &&& s == spec_created(strategy, s.created_at, old(store).next_seq)
                    &&& final(store).strategies@ == old(store).strategies@.push(s)
                    &&& final(store).next_seq == old(store).next_seq + 1
                },
                Err(err) => {
                    &&& *final(store) == *old(store)
                    &&& match spec_validate(strategy.details) {
                        Err(e) => err == e,
                        Ok(()) => err is PersistFailure && old(store).next_seq == u64::MAX,
                    }
                },
            },
    {
        let now = current_timestamp();
        Self::create_arbitrage_strategy_at(store, strategy, now)
    }

    /// Point lookup by identifier.
    pub fn get_arbitrage_strategy(store: &Store, id: RecordId) -> (r: Result<
        ArbitrageStrategy,
        StoreError,
    >)
        ensures
            match r {
                Ok(s) => spec_find_strategy(store.strategies@, id) == Some(s),
                Err(err) => {
                    &&& err is NotFound
                    &&& spec_find_strategy(store.strategies@, id) is None
                },
            },
    {
        let n = store.strategies.len();
        for i in 0..n
            invariant
                n == store.strategies@.len(),
                strategy_idx(store.strategies@, id) == strategy_idx_from(
                    store.strategies@,
                    id,
                    i as int,
                ),
        {
            if rid_eq(&store.strategies[i].id, id) {
                return Ok(store.strategies[i]);
            }
        }
        Err(StoreError::NotFound)
    }

    /// Full-document replacement: validates the payload, replaces kind,
    /// payload and status, refreshes the update stamp, keeps the creation
    /// stamp, and returns the stored form.
    pub fn update_arbitrage_strategy_at(
        store: &mut Store,
        id: RecordId,
        updated: ArbitrageStrategy,
        now: i64,
    ) -> (r: Result<ArbitrageStrategy, StoreError>)
        requires
            old(store).wf(),
        ensures
            final(store).wf(),
            final(store).exchanges == old(store).exchanges,
            final(store).assets == old(store).assets,
            final(store).market_pairs == old(store).market_pairs,
            final(store).next_seq == old(store).next_seq,
            match r {
                Ok(s) => {
                    &&& spec_validate(updated.details) is Ok
                    &&& strategy_idx(old(store).strategies@, id) >= 0
                    &&& s == (ArbitrageStrategy {
                        id: old(store).strategies@[strategy_idx(old(store).strategies@, id)].id,
                        arbitrage_type: updated.arbitrage_type,
                        details: updated.details,
                        created_at: old(store).strategies@[strategy_idx(
                            old(store).strategies@,
                            id,
                        )].created_at,
                        updated_at: now,
                        status: updated.status,
                    })
                    &&& final(store).strategies@ == old(store).strategies@.update(
                        strategy_idx(old(store).strategies@, id),
                        s,
                    )
                },
                Err(err) => {
                    &&& *final(store) == *old(store)
                    &&& match spec_validate(updated.details) {
                        Err(e) => err == e,
                        Ok(()) => err is NotFound && strategy_idx(old(store).strategies@, id) < 0,
                    }
                },
            },
    {
        if let Err(e) = validate(&updated.details) {
            return Err(e);
        }
        let ghost s0 = store.strategies@;
        let n = store.strategies.len();
        for i in 0..n
            invariant
                old(store).wf(),
                spec_validate(updated.details) is Ok,
                n == store.strategies@.len(),
                store.strategies@ == s0,
                *store == *old(store),
                strategy_idx(s0, id) == strategy_idx_from(s0, id, i as int),
        {
            if rid_eq(&store.strategies[i].id, id) {
                let s = ArbitrageStrategy {
                    id: store.strategies[i].id,
                    arbitrage_type: updated.arbitrage_type,
                    details: updated.details,
                    created_at: store.strategies[i].created_at,
                    updated_at: now,
                    status: updated.status,
                };
                store.strategies.set(i, s);
                proof {
                    let s1 = store.strategies@;
                    assert forall|p: int|
                        0 <= p < s1.len() implies crate::store::stored_id_ok(
                        #[trigger] s1[p].id,
                        store.next_seq,
                    ) by {
                        assert(s1[p].id == s0[p].id);
                        assert(crate::store::stored_id_ok(s0[p].id, old(store).next_seq));
                    }
                    assert forall|p: int, q: int|
                        #![trigger s1[p].id, s1[q].id]
                        0 <= p < q < s1.len() implies s1[p].id != s1[q].id by {
                        assert(s1[p].id == s0[p].id && s1[q].id == s0[q].id);
                    }
                }
                return Ok(s);
            }
        }
        Err(StoreError::NotFound)
    }

    /// Replacement stamped with the current clock reading.
    pub fn update_arbitrage_strategy(
        store: &mut Store,
        id: RecordId,
        updated: ArbitrageStrategy,
    ) -> (r: Result<ArbitrageStrategy, StoreError>)
        requires
            old(store).wf(),
        ensures
            final(store).wf(),
            final(store).exchanges == old(store).exchanges,
            final(store).assets == old(store).assets,
            final(store).market_pairs == old(store).market_pairs,
            final(store).next_seq == old(store).next_seq,
            match r {
                Ok(s) => {
                    &&& spec_validate(updated.details) is Ok
                    &&& strategy_idx(old(store).strategies@, id) >= 0
                    &&& s.updated_at >= 0
                    &&& s == (ArbitrageStrategy {
                        id: old(store).strategies@[strategy_idx(old(store).strategies@, id)].id,
                        arbitrage_type: updated.arbitrage_type,
                        details: updated.details,
                        created_at: old(store).strategies@[strategy_idx(
                            old(store).strategies@,
                            id,
                        )].created_at,
                        updated_at: s.updated_at,
                        status: updated.status,
                    })
                    &&& final(store).strategies@ == old(store).strategies@.update(
                        strategy_idx(old(store).strategies@, id),
                        s,
                    )
                },
                Err(err) => {
                    &&& *final(store) == *old(store)
                    &&& match spec_validate(updated.details) {
                        Err(e) => err == e,
                        Ok(()) => err is NotFound && strategy_idx(old(store).strategies@, id) < 0,
                    }
                },
            },
    {
        let now = current_timestamp();
        Self::update_arbitrage_strategy_at(store, id, updated, now)
    }

    /// Removes the record stored under `id`; removing an absent record is
    /// not a failure.
    pub fn delete_arbitrage_strategy(store: &mut Store, id: RecordId) -> (r: Result<
        (),
        StoreError,
    >)
        requires
            old(store).wf(),
        ensures
            final(store).wf(),
            final(store).exchanges == old(store).exchanges,
            final(store).assets == old(store).assets,
            final(store).market_pairs == old(store).market_pairs,
            final(store).next_seq == old(store).next_seq,
            r is Ok,
            strategy_idx(old(store).strategies@, id) >= 0 ==> final(store).strategies@ == old(
                store,
            ).strategies@.remove(strategy_idx(old(store).strategies@, id)),
            strategy_idx(old(store).strategies@, id) < 0 ==> *final(store) == *old(store),
    {
        let ghost s0 = store.strategies@;
        let n = store.strategies.len();
        for i in 0..n
            invariant
                old(store).wf(),
                n == store.strategies@.len(),
                store.strategies@ == s0,
                *store == *old(store),
                strategy_idx(s0, id) == strategy_idx_from(s0, id, i as int),
        {
            if rid_eq(&store.strategies[i].id, id) {
                store.strategies.remove(i);
                proof {
                    let s1 = store.strategies@;
                    s0.remove_ensures(i as int);
                    assert forall|p: int|
                        0 <= p < s1.len() implies crate::store::stored_id_ok(
                        #[trigger] s1[p].id,
                        store.next_seq,
                    ) by {
                        if p < i {
                            assert(s1[p] == s0[p]);
                        } else {
                            assert(s1[p] == s0[p + 1]);
                        }
                    }
                    assert forall|p: int, q: int|
                        #![trigger s1[p].id, s1[q].id]
                        0 <= p < q < s1.len() implies s1[p].id != s1[q].id by {
                        let p0: int = if p < i { p } else { p + 1 };
                        let q0: int = if q < i { q } else { q + 1 };
                        assert(s1[p] == s0[p0] && s1[q] == s0[q0]);
                        assert(s0[p0].id != s0[q0].id);
                    }
                }
                return Ok(());
            }
        }
        Ok(())
    }

    /// A page of the populated strategy listing.  The page is cut from
    /// the strategies that pass the kind filter, in store order; each
    /// strategy of the page is joined by the shape of its payload, and
    /// one that does not fully resolve is silently left out of the rows.
    /// The second result counts every strategy passing the kind filter,
    /// resolvable or not.
    pub fn get_all_arbitrage_strategies(
        store: &Store,
        page: u64,
        per_page: u64,
        arbitrage_type: Option<ArbitrageType>,
    ) -> (r: (Vec<PopulatedArbitrageStrategy>, u64))
        requires
            page >= 1,
            (page as int) * (per_page as int) <= u64::MAX,
        ensures
            ({
                let filtered = spec_strategies_filtered(store.strategies@, arbitrage_type);
                let skip = (page - 1) as int * per_page as int;
                let lo = if skip <= filtered.len() { skip } else { filtered.len() as int };
                let hi = if skip + per_page <= filtered.len() {
                    skip + per_page
                } else {
                    filtered.len() as int
                };
                &&& r.1 == filtered.len()
                &&& r.0@ == spec_populated_rows(*store, filtered.subrange(lo, hi))
            }),
    {
        let n = store.strategies.len();
        let mut filtered: Vec<ArbitrageStrategy> = Vec::new();
        for i in 0..n
            invariant
                n == store.strategies@.len(),
                filtered@ =~= strategies_filtered_upto(store.strategies@, arbitrage_type, i as int),
        {
            let keep = match (&arbitrage_type, &store.strategies[i].arbitrage_type) {
                (Some(t), at) => *t == *at,
                (None, _) => true,
            };
            if keep {
                filtered.push(store.strategies[i]);
            }
        }
        proof {
            lemma_strategies_filtered_len(store.strategies@, arbitrage_type, n as int);
        }
        let total = filtered.len() as u64;
        proof {
            assert(((page - 1) as int) * (per_page as int) + (per_page as int) == (page as int) * (
            per_page as int)) by (nonlinear_arith);
        }
        let skip = (page - 1) * per_page;
        let lo: usize = if skip <= total {
            skip as usize
        } else {
            filtered.len()
        };
        let end = skip + per_page;
        let hi: usize = if end <= total {
            end as usize
        } else {
            filtered.len()
        };
        let ghost slice = filtered@.subrange(lo as int, hi as int);
        let mut rows: Vec<PopulatedArbitrageStrategy> = Vec::new();
        for j in lo..hi
            invariant
                lo <= j <= hi <= filtered@.len(),
                slice == filtered@.subrange(lo as int, hi as int),
                rows@ =~= populated_rows_upto(*store, slice, j - lo),
        {
            proof {
                assert(slice[j - lo] == filtered@[j as int]);
            }
            if let Some(row) = populate_strategy(store, &filtered[j]) {
                rows.push(row);
            }
        }
        (rows, total)
    }
}

/// Law: creating a strategy and immediately fetching it by the returned
/// identifier yields the stored record itself: the same kind and payload,
/// with both timestamps stamped to the creation instant, non-zero when
/// the instant is.  The hypotheses are what creation ensures of a
/// well-formed store.
pub proof fn lemma_create_get_round_trip(
    store: Store,
    store2: Store,
    strategy: ArbitrageStrategy,
    created: ArbitrageStrategy,
    now: i64,
)
    requires
        store.wf(),
        now != 0,
        created == spec_created(strategy, now, store.next_seq),
        store2.strategies@ == store.strategies@.push(created),
    ensures
        spec_find_strategy(store2.strategies@, created.id->0) == Some(created),
        created.arbitrage_type == strategy.arbitrage_type,
        created.details == strategy.details,
        created.created_at == now && created.created_at != 0,
        created.updated_at == now && created.updated_at != 0,
{
    let s2 = store2.strategies@;
    let id = created.id->0;
    let last = store.strategies@.len() as int;
    assert(s2[last].id == Some(id));
    lemma_strategy_idx(s2, id, 0);
    let k = strategy_idx(s2, id);
    assert(k >= 0);
    assert(s2[k].id == Some(id));
    if k < last {
        assert(s2[k] == store.strategies@[k]);
        assert(crate::store::stored_id_ok(store.strategies@[k].id, store.next_seq));
        assert(false);
    }
    assert(k == last);
}

/// Every strategy of a filtered prefix comes from the prefix filtered,
/// and when the stored identifiers are pairwise distinct the filtered
/// identifiers are too.
pub proof fn lemma_filtered_distinct_ids(
    s: Seq<ArbitrageStrategy>,
    f: Option<ArbitrageType>,
    n: int,
)
    requires
        0 <= n <= s.len(),
        forall|i: int, j: int|
            #![trigger s[i].id, s[j].id]
            0 <= i < j < s.len() ==> s[i].id != s[j].id,
    ensures
        forall|p: int|
            0 <= p < strategies_filtered_upto(s, f, n).len() ==> exists|k: int|
                0 <= k < n && s[k] == #[trigger] strategies_filtered_upto(s, f, n)[p],
        forall|p: int, q: int|
            #![trigger strategies_filtered_upto(s, f, n)[p].id, strategies_filtered_upto(s, f, n)[q].id]
            0 <= p < q < strategies_filtered_upto(s, f, n).len() ==> strategies_filtered_upto(
                s,
                f,
                n,
            )[p].id != strategies_filtered_upto(s, f, n)[q].id,
    decreases n,
{
    if n > 0 {
        lemma_filtered_distinct_ids(s, f, n - 1);
        let fl0 = strategies_filtered_upto(s, f, n - 1);
        let fl = strategies_filtered_upto(s, f, n);
        assert forall|p: int|
            0 <= p < fl.len() implies exists|k: int| 0 <= k < n && s[k] == #[trigger] fl[p] by {
            if p < fl0.len() {
                assert(fl[p] == fl0[p]);
                let k = choose|k: int| 0 <= k < n - 1 && s[k] == fl0[p];
                assert(0 <= k < n && s[k] == fl[p]);
            } else {
                assert(fl[p] == s[n - 1]);
            }
        }
        assert forall|p: int, q: int|
            #![trigger fl[p].id, fl[q].id]
            0 <= p < q < fl.len() implies fl[p].id != fl[q].id by {
            if q < fl0.len() {
                assert(fl[p] == fl0[p] && fl[q] == fl0[q]);
                assert(fl0[p].id != fl0[q].id);
            } else {
                assert(fl[q] == s[n - 1]);
                assert(fl[p] == fl0[p]);
                let k = choose|k: int| 0 <= k < n - 1 && s[k] == fl0[p];
                assert(s[k].id != s[n - 1].id);
            }
        }
    }
}

/// Every populated row of a page carries the identifier of a strategy of
/// the page, and when the page's identifiers are present and pairwise
/// distinct the rows repeat none.
pub proof fn lemma_rows_distinct_ids(store: Store, page: Seq<ArbitrageStrategy>, n: int)
    requires
        0 <= n <= page.len(),
        forall|i: int, j: int|
            #![trigger page[i].id, page[j].id]
            0 <= i < j < page.len() ==> page[i].id != page[j].id,
    ensures
        forall|p: int|
            0 <= p < populated_rows_upto(store, page, n).len() ==> exists|k: int|
                0 <= k < n && page[k].id == Some(
                    (#[trigger] populated_rows_upto(store, page, n)[p]).id,
                ),
        forall|p: int, q: int|
            #![trigger populated_rows_upto(store, page, n)[p].id, populated_rows_upto(store, page, n)[q].id]
            0 <= p < q < populated_rows_upto(store, page, n).len() ==> populated_rows_upto(
                store,
                page,
                n,
            )[p].id != populated_rows_upto(store, page, n)[q].id,
    decreases n,
{
    if n > 0 {
        lemma_rows_distinct_ids(store, page, n - 1);
        let r0 = populated_rows_upto(store, page, n - 1);
        let r1 = populated_rows_upto(store, page, n);
        assert forall|p: int|
            0 <= p < r1.len() implies exists|k: int|
            0 <= k < n && page[k].id == Some((#[trigger] r1[p]).id) by {
            if p < r0.len() {
                assert(r1[p] == r0[p]);
                let k = choose|k: int| 0 <= k < n - 1 && page[k].id == Some(r0[p].id);
                assert(0 <= k < n && page[k].id == Some(r1[p].id));
            } else {
                assert(spec_populate_strategy(store, page[n - 1]) == Some(r1[p]));
                assert(page[n - 1].id == Some(r1[p].id));
            }
        }
        assert forall|p: int, q: int|
            #![trigger r1[p].id, r1[q].id]
            0 <= p < q < r1.len() implies r1[p].id != r1[q].id by {
            if q < r0.len() {
                assert(r1[p] == r0[p] && r1[q] == r0[q]);
                assert(r0[p].id != r0[q].id);
            } else {
                assert(spec_populate_strategy(store, page[n - 1]) == Some(r1[q]));
                assert(page[n - 1].id == Some(r1[q].id));
                assert(r1[p] == r0[p]);
                let k = choose|k: int| 0 <= k < n - 1 && page[k].id == Some(r0[p].id);
                assert(page[k].id != page[n - 1].id);
            }
        }
    }
}

/// Law: under one kind filter, the filtered listing repeats no strategy
/// identifier, so concatenating pages can never yield more distinct
/// identifiers than the returned total; and two pages at different page
/// numbers cover disjoint ranges of it, so their rows never share an
/// identifier and no page repeats one.
pub proof fn lemma_pagination_no_duplicates(
    store: Store,
    f: Option<ArbitrageType>,
    page_a: u64,
    page_b: u64,
    per_page: u64,
)
    requires
        store.wf(),
        page_a >= 1,
        page_b >= 1,
        page_a != page_b,
        (page_a as int) * (per_page as int) <= u64::MAX,
        (page_b as int) * (per_page as int) <= u64::MAX,
    ensures
        ({
            let filtered = spec_strategies_filtered(store.strategies@, f);
            &&& forall|p: int, q: int|
                #![trigger filtered[p].id, filtered[q].id]
                0 <= p < q < filtered.len() ==> filtered[p].id != filtered[q].id
            &&& forall|p: int, q: int|
                #![trigger spec_page(filtered, page_a, per_page)[p].id, spec_page(filtered, page_b, per_page)[q].id]
                0 <= p < spec_page(filtered, page_a, per_page).len() && 0 <= q < spec_page(
                    filtered,
                    page_b,
                    per_page,
                ).len() ==> spec_page(filtered, page_a, per_page)[p].id != spec_page(
                    filtered,
                    page_b,
                    per_page,
                )[q].id
            &&& forall|p: int, q: int|
                #![trigger spec_populated_rows(store, spec_page(filtered, page_a, per_page))[p].id, spec_populated_rows(store, spec_page(filtered, page_b, per_page))[q].id]
                0 <= p < spec_populated_rows(store, spec_page(filtered, page_a, per_page)).len()
                    && 0 <= q < spec_populated_rows(
                    store,
                    spec_page(filtered, page_b, per_page),
                ).len() ==> spec_populated_rows(store, spec_page(filtered, page_a, per_page))[p].id
                    != spec_populated_rows(store, spec_page(filtered, page_b, per_page))[q].id
            &&& forall|p: int, q: int|
                #![trigger spec_populated_rows(store, spec_page(filtered, page_a, per_page))[p].id, spec_populated_rows(store, spec_page(filtered, page_a, per_page))[q].id]
                0 <= p < q < spec_populated_rows(
                    store,
                    spec_page(filtered, page_a, per_page),
                ).len() ==> spec_populated_rows(store, spec_page(filtered, page_a, per_page))[p].id
                    != spec_populated_rows(store, spec_page(filtered, page_a, per_page))[q].id
        }),
{
    let s = store.strategies@;
    let filtered = spec_strategies_filtered(s, f);
    lemma_filtered_distinct_ids(s, f, s.len() as int);
    let pa = spec_page(filtered, page_a, per_page);
    let pb = spec_page(filtered, page_b, per_page);
    lemma_page_in_filtered(filtered, page_a, per_page);
    lemma_page_in_filtered(filtered, page_b, per_page);
    assert forall|p: int, q: int|
        #![trigger pa[p].id, pb[q].id]
        0 <= p < pa.len() && 0 <= q < pb.len() implies pa[p].id != pb[q].id by {
        let sa = (page_a - 1) as int * per_page as int;
        let sb = (page_b - 1) as int * per_page as int;
        assert(pa[p] == filtered[sa + p] && pb[q] == filtered[sb + q]);
        assert(sa + per_page as int == (page_a as int) * (per_page as int)) by (nonlinear_arith)
            requires
                sa == ((page_a - 1) as int) * (per_page as int),
                page_a >= 1,
        ;
        assert(sb + per_page as int == (page_b as int) * (per_page as int)) by (nonlinear_arith)
            requires
                sb == ((page_b - 1) as int) * (per_page as int),
                page_b >= 1,
        ;
        assert(sa + p < sa + per_page);
        assert(sb + q < sb + per_page);
        if page_a < page_b {
            assert((page_a as int) * (per_page as int) <= ((page_b - 1) as int) * (
            per_page as int)) by (nonlinear_arith)
                requires
                    page_a as int <= (page_b - 1) as int,
                    per_page as int >= 0,
            ;
            assert(sa + p < sb + q);
            assert(filtered[sa + p].id != filtered[sb + q].id);
        } else {
            assert((page_b as int) * (per_page as int) <= ((page_a - 1) as int) * (
            per_page as int)) by (nonlinear_arith)
                requires
                    page_b as int <= (page_a - 1) as int,
                    per_page as int >= 0,
            ;
            assert(sb + q < sa + p);
            assert(filtered[sb + q].id != filtered[sa + p].id);
        }
    }
    lemma_rows_distinct_ids(store, pa, pa.len() as int);
    lemma_rows_distinct_ids(store, pb, pb.len() as int);
    let ra = spec_populated_rows(store, pa);
    let rb = spec_populated_rows(store, pb);
    assert forall|p: int, q: int|
        #![trigger ra[p].id, rb[q].id]
        0 <= p < ra.len() && 0 <= q < rb.len() implies ra[p].id != rb[q].id by {
        let ka = choose|k: int| 0 <= k < pa.len() && pa[k].id == Some(ra[p].id);
        let kb = choose|k: int| 0 <= k < pb.len() && pb[k].id == Some(rb[q].id);
        assert(pa[ka].id != pb[kb].id);
    }
}

/// The slice of the filtered listing a page shows: `(page - 1) *
/// per_page` rows skipped, at most `per_page` kept, clamped to the
/// listing.
pub open spec fn spec_page(
    filtered: Seq<ArbitrageStrategy>,
    page: u64,
    per_page: u64,
) -> Seq<ArbitrageStrategy> {
    let skip = (page - 1) as int * per_page as int;
    let lo = if skip <= filtered.len() {
        skip
    } else {
        filtered.len() as int
    };
    let hi = if skip + per_page <= filtered.len() {
        skip + per_page
    } else {
        filtered.len() as int
    };
    filtered.subrange(lo, hi)
}

/// Each row of a page is the filtered row `skip` places further on.
pub proof fn lemma_page_in_filtered(filtered: Seq<ArbitrageStrategy>, page: u64, per_page: u64)
    requires
        page >= 1,
    ensures
        forall|p: int|
            0 <= p < spec_page(filtered, page, per_page).len() ==> (#[trigger] spec_page(
                filtered,
                page,
                per_page,
            )[p]) == filtered[(page - 1) as int * per_page as int + p],
{
}

} // verus!
