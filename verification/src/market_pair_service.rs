//! The market pair resolver: record lifecycle over the pair collection,
//! join-based population of pairs, the paginated searchable listing, and
//! the conversion-pair lookups.
//!
//! In listing contexts a pair whose exchange or asset references do not
//! resolve is silently left out; in single-item resolution it is a
//! missing-record failure.

use vstd::prelude::*;

use crate::asset_service::{find_asset, spec_find_asset};
use crate::equivalence::{eur_class, usd_class};
use crate::equivalence::{eur_class_members, usd_class_members};
use crate::errors::StoreError;
use crate::exchange_service::{find_exchange, rid_eq, spec_find_exchange};
use crate::record_id::{spec_parse_id, RecordId};
use crate::schema::{MarketPair, PopulatedMarketPair};
use crate::store::Store;
use crate::textmatch::{contains_ci, str_contains_ci, str_eq};

verus! {

/// The index of the first market pair at or after position `i` stored
/// under `id`, or -1 when there is none.
pub open spec fn pair_idx_from(s: Seq<MarketPair>, id: RecordId, i: int) -> int
    decreases s.len() - i,
{
    if i < 0 || i >= s.len() {
        -1
    } else if s[i].id == Some(id) {
        i
    } else {
        pair_idx_from(s, id, i + 1)
    }
}

/// The index of the market pair stored under `id`, or -1 when there is
/// none.
pub open spec fn pair_idx(s: Seq<MarketPair>, id: RecordId) -> int {
    pair_idx_from(s, id, 0)
}

/// The market pair stored under `id`, if any.
pub open spec fn spec_find_pair(s: Seq<MarketPair>, id: RecordId) -> Option<MarketPair> {
    let k = pair_idx(s, id);
    if k >= 0 {
        Some(s[k])
    } else {
        None
    }
}

/// The market pair stored under `id`, if any.
pub fn find_pair(pairs: &Vec<MarketPair>, id: RecordId) -> (r: Option<MarketPair>)
    ensures
        r == spec_find_pair(pairs@, id),
{
    let n = pairs.len();
    for i in 0..n
        invariant
            n == pairs@.len(),
            pair_idx(pairs@, id) == pair_idx_from(pairs@, id, i as int),
    {
        if rid_eq(&pairs[i].id, id) {
            return Some(pairs[i]);
        }
    }
    None
}

/// The populated view of a pair: its exchange and both assets joined in;
/// nothing when any of the three references does not resolve.
pub open spec fn spec_populate(store: Store, p: MarketPair) -> Option<PopulatedMarketPair> {
    match spec_find_exchange(store.exchanges@, p.exchange_id) {
        Some(e) => match spec_find_asset(store.assets@, p.base_asset_id) {
            Some(b) => match spec_find_asset(store.assets@, p.quote_asset_id) {
                Some(q) => Some(
                    PopulatedMarketPair {
                        id: p.id,
                        exchange: e,
                        base_asset: b,
                        quote_asset: q,
                        created_at: p.created_at,
                        updated_at: p.updated_at,
                        status: p.status,
                    },
                ),
                None => None,
            },
            None => None,
        },
        None => None,
    }
}

/// Joins a pair against the exchange and asset collections.
pub fn populate_market_pair(store: &Store, p: &MarketPair) -> (r: Option<PopulatedMarketPair>)
    ensures
        r == spec_populate(*store, *p),
{
    let exchange = match find_exchange(&store.exchanges, p.exchange_id) {
        Some(e) => e,
        None => {
            return None;
        },
    };
    let base_asset = match find_asset(&store.assets, p.base_asset_id) {
        Some(a) => a,
        None => {
            return None;
        },
    };
    let quote_asset = match find_asset(&store.assets, p.quote_asset_id) {
        Some(a) => a,
        None => {
            return None;
        },
    };
    Some(
        PopulatedMarketPair {
            id: p.id,
            exchange,
            base_asset,
            quote_asset,
            created_at: p.created_at,
            updated_at: p.updated_at,
            status: p.status,
        },
    )
}

/// The populated pairs of one exchange among the first `n` stored pairs,
/// in store order, leaving out pairs whose references do not resolve.
pub open spec fn pairs_by_exchange_upto(store: Store, ex: RecordId, n: int) -> Seq<
    PopulatedMarketPair,
>
    decreases n,
{
    if n <= 0 {
        Seq::empty()
    } else {
        pairs_by_exchange_upto(store, ex, n - 1) + ({
            let p = store.market_pairs@[n - 1];
            if p.exchange_id == ex {
                match spec_populate(store, p) {
                    Some(pp) => seq![pp],
                    None => Seq::<PopulatedMarketPair>::empty(),
                }
            } else {
                Seq::<PopulatedMarketPair>::empty()
            }
        })
    }
}

/// All populated pairs of one exchange, in store order.
pub open spec fn spec_pairs_by_exchange(store: Store, ex: RecordId) -> Seq<PopulatedMarketPair> {
    pairs_by_exchange_upto(store, ex, store.market_pairs@.len() as int)
}

/// The normalized exchange filter of the paginated listing: a present,
/// non-empty, parseable identifier filters; anything else does not.
pub open spec fn spec_exchange_filter(exchange_id: Option<String>) -> Option<RecordId> {
    match exchange_id {
        Some(s) => if s@.len() > 0 {
            spec_parse_id(s@)
        } else {
            None
        },
        None => None,
    }
}

/// The normalized search term of the paginated listing: a present,
/// non-empty term filters; anything else does not.
pub open spec fn spec_pair_search(search: Option<String>) -> Option<Seq<char>> {
    match search {
        Some(t) => if t@.len() > 0 {
            Some(t@)
        } else {
            None
        },
        None => None,
    }
}

/// The row the paginated listing keeps for a stored pair: its populated
/// view, provided the pair passes the exchange filter, its references
/// resolve, and a search term occurs in the base or quote ticker.
pub open spec fn spec_listing_entry(
    store: Store,
    p: MarketPair,
    exf: Option<RecordId>,
    search: Option<Seq<char>>,
) -> Option<PopulatedMarketPair> {
    if match exf {
        Some(e) => p.exchange_id == e,
        None => true,
    } {
        match spec_populate(store, p) {
            Some(pp) => if match search {
                Some(t) => contains_ci(pp.base_asset.short_name@, t) || contains_ci(
                    pp.quote_asset.short_name@,
                    t,
                ),
                None => true,
            } {
                Some(pp)
            } else {
                None
            },
            None => None,
        }
    } else {
        None
    }
}

/// The listing rows of the first `n` stored pairs, in store order.
pub open spec fn pairs_listing_upto(
    store: Store,
    exf: Option<RecordId>,
    search: Option<Seq<char>>,
    n: int,
) -> Seq<PopulatedMarketPair>
    decreases n,
{
    if n <= 0 {
        Seq::empty()
    } else {
        pairs_listing_upto(store, exf, search, n - 1) + match spec_listing_entry(
            store,
            store.market_pairs@[n - 1],
            exf,
            search,
        ) {
            Some(pp) => seq![pp],
            None => Seq::<PopulatedMarketPair>::empty(),
        }
    }
}

/// All listing rows under the given filters, in store order.
pub open spec fn spec_pairs_listing(
    store: Store,
    exf: Option<RecordId>,
    search: Option<Seq<char>>,
) -> Seq<PopulatedMarketPair> {
    pairs_listing_upto(store, exf, search, store.market_pairs@.len() as int)
}

/// A listing prefix is no longer than the prefix it was cut from.
pub proof fn lemma_listing_len_bounded(
    store: Store,
    exf: Option<RecordId>,
    search: Option<Seq<char>>,
    n: int,
)
    requires
        0 <= n,
    ensures
        pairs_listing_upto(store, exf, search, n).len() <= n,
    decreases n,
{
    if n > 0 {
        lemma_listing_len_bounded(store, exf, search, n - 1);
    }
}

/// Whether a stored pair bridges the two given quote assets, in either
/// direction.
pub open spec fn bridges(p: MarketPair, q1: RecordId, q2: RecordId) -> bool {
    ||| (p.base_asset_id == q1 && p.quote_asset_id == q2)
    ||| (p.base_asset_id == q2 && p.quote_asset_id == q1)
}

/// The populated pairs among the first `n` stored ones that bridge the
/// two given quote assets.
pub open spec fn conversion_pairs_upto(store: Store, q1: RecordId, q2: RecordId, n: int) -> Seq<
    PopulatedMarketPair,
>
    decreases n,
{
    if n <= 0 {
        Seq::empty()
    } else {
        conversion_pairs_upto(store, q1, q2, n - 1) + ({
            let p = store.market_pairs@[n - 1];
            if bridges(p, q1, q2) {
                match spec_populate(store, p) {
                    Some(pp) => seq![pp],
                    None => Seq::<PopulatedMarketPair>::empty(),
                }
            } else {
                Seq::<PopulatedMarketPair>::empty()
            }
        })
    }
}

/// All populated pairs bridging the two given quote assets.
pub open spec fn spec_conversion_pairs(store: Store, q1: RecordId, q2: RecordId) -> Seq<
    PopulatedMarketPair,
> {
    conversion_pairs_upto(store, q1, q2, store.market_pairs@.len() as int)
}

/// Whether a ticker is admissible for a conversion pair between quote
/// symbols `a` and `b`: the symbol is one of the two, or belongs to an
/// equivalence class that one of the two belongs to.
pub open spec fn sym_possible(sym: Seq<char>, a: Seq<char>, b: Seq<char>) -> bool {
    ||| sym == a
    ||| sym == b
    ||| ((usd_class().contains(a) || usd_class().contains(b)) && usd_class().contains(sym))
    ||| ((eur_class().contains(a) || eur_class().contains(b)) && eur_class().contains(sym))
}

/// The populated pairs among the first `n` stored ones either side of
/// which carries an admissible ticker for quote symbols `a` and `b`.
pub open spec fn arbitrage_conversion_upto(store: Store, a: Seq<char>, b: Seq<char>, n: int) -> Seq<
    PopulatedMarketPair,
>
    decreases n,
{
    if n <= 0 {
        Seq::empty()
    } else {
        arbitrage_conversion_upto(store, a, b, n - 1) + match spec_populate(
            store,
            store.market_pairs@[n - 1],
        ) {
            Some(pp) => if sym_possible(pp.base_asset.short_name@, a, b) || sym_possible(
                pp.quote_asset.short_name@,
                a,
                b,
            ) {
                seq![pp]
            } else {
                Seq::<PopulatedMarketPair>::empty()
            },
            None => Seq::<PopulatedMarketPair>::empty(),
        }
    }
}

/// All populated pairs either side of which carries an admissible ticker
/// for quote symbols `a` and `b`.
pub open spec fn spec_arbitrage_conversion(store: Store, a: Seq<char>, b: Seq<char>) -> Seq<
    PopulatedMarketPair,
> {
    arbitrage_conversion_upto(store, a, b, store.market_pairs@.len() as int)
}

/// Whether `sym` is admissible for a conversion pair between `a` and `b`.
fn sym_possible_exec(
    sym: &str,
    a: &str,
    b: &str,
    usd: &Vec<String>,
    eur: &Vec<String>,
    a_usd: bool,
    b_usd: bool,
    a_eur: bool,
    b_eur: bool,
) -> (r: bool)
    requires
        usd.deep_view() == usd_class(),
        eur.deep_view() == eur_class(),
        a_usd == usd_class().contains(a@),
        b_usd == usd_class().contains(b@),
        a_eur == eur_class().contains(a@),
        b_eur == eur_class().contains(b@),
    ensures
        r == sym_possible(sym@, a@, b@),
{
    if str_eq(sym, a) || str_eq(sym, b) {
        return true;
    }
    if (a_usd || b_usd) && crate::equivalence::class_contains(usd, sym) {
        return true;
    }
    if (a_eur || b_eur) && crate::equivalence::class_contains(eur, sym) {
        return true;
    }
    false
}

pub struct MarketPairService;

impl MarketPairService {
    /// Stamps both timestamps with `now`, stores the record under a fresh
    /// generated identifier, and returns the stored form.  References are
    /// not checked here; a dangling reference fails population at read
    /// time instead.
    pub fn create_market_pair(store: &mut Store, market_pair: MarketPair, now: i64) -> (r: Result<
        MarketPair,
        StoreError,
    >)
        requires
            old(store).wf(),
        ensures
            final(store).wf(),
            final(store).exchanges == old(store).exchanges,
            final(store).assets == old(store).assets,
            final(store).strategies == old(store).strategies,
            match r {
                Ok(p) => {
                    &&& old(store).next_seq < u64::MAX
                    &&& p == (MarketPair {
                        id: Some(RecordId { hi: 0, lo: old(store).next_seq }),
                        exchange_id: market_pair.exchange_id,
                        base_asset_id: market_pair.base_asset_id,
                        quote_asset_id: market_pair.quote_asset_id,
                        created_at: now,
                        updated_at: now,
                        status: market_pair.status,
                    })
                    &&& final(store).market_pairs@ == old(store).market_pairs@.push(p)
                    &&& final(store).next_seq == old(store).next_seq + 1
                },
                Err(err) => {
                    &&& err is PersistFailure
                    &&& old(store).next_seq == u64::MAX
                    &&& *final(store) == *old(store)
                },
            },
    {
        let id = match store.fresh_id() {
            Some(id) => id,
            None => {
                return Err(StoreError::PersistFailure);
            },
        };
        let stored = MarketPair {
            id: Some(id),
            exchange_id: market_pair.exchange_id,
            base_asset_id: market_pair.base_asset_id,
            quote_asset_id: market_pair.quote_asset_id,
            created_at: now,
            updated_at: now,
            status: market_pair.status,
        };
        store.market_pairs.push(stored);
        Ok(stored)
    }

    /// Point lookup by identifier, returning the raw stored record.
    pub fn get_market_pair(store: &Store, id: RecordId) -> (r: Result<MarketPair, StoreError>)
        ensures
            match r {
                Ok(p) => spec_find_pair(store.market_pairs@, id) == Some(p),
                Err(err) => {
                    &&& err is NotFound
                    &&& spec_find_pair(store.market_pairs@, id) is None
                },
            },
    {
        match find_pair(&store.market_pairs, id) {
            Some(p) => Ok(p),
            None => Err(StoreError::NotFound),
        }
    }

    /// Single-item resolution: the populated view of the pair stored
    /// under `id`.  A missing record or any unresolvable reference is a
    /// missing-record failure.
    pub fn resolve_market_pair(store: &Store, id: RecordId) -> (r: Result<
        PopulatedMarketPair,
        StoreError,
    >)
        ensures
            match r {
                Ok(pp) => {
                    &&& spec_find_pair(store.market_pairs@, id) is Some
                    &&& spec_populate(*store, spec_find_pair(store.market_pairs@, id)->0)
                        == Some(pp)
                },
                Err(err) => {
                    &&& err is NotFound
                    &&& match spec_find_pair(store.market_pairs@, id) {
                        Some(p) => spec_populate(*store, p) is None,
                        None => true,
                    }
                },
            },
    {
        let p = match find_pair(&store.market_pairs, id) {
            Some(p) => p,
            None => {
                return Err(StoreError::NotFound);
            },
        };
        match populate_market_pair(store, &p) {
            Some(pp) => Ok(pp),
            None => Err(StoreError::NotFound),
        }
    }

    /// Full-record replacement of the editable fields: replaces the
    /// exchange and asset references and the status, refreshes the update
    /// stamp, keeps the creation stamp, and returns the stored form.
    pub fn update_market_pair(store: &mut Store, id: RecordId, updated: MarketPair, now: i64) -> (r:
        Result<MarketPair, StoreError>)
        requires
            old(store).wf(),
        ensures
            final(store).wf(),
            final(store).exchanges == old(store).exchanges,
            final(store).assets == old(store).assets,
            final(store).strategies == old(store).strategies,
            final(store).next_seq == old(store).next_seq,
            match r {
                Ok(p) => {
                    &&& pair_idx(old(store).market_pairs@, id) >= 0
                    &&& p == (MarketPair {
                        id: old(store).market_pairs@[pair_idx(old(store).market_pairs@, id)].id,
                        exchange_id: updated.exchange_id,
                        base_asset_id: updated.base_asset_id,
                        quote_asset_id: updated.quote_asset_id,
                        created_at: old(store).market_pairs@[pair_idx(
                            old(store).market_pairs@,
                            id,
                        )].created_at,
                        updated_at: now,
                        status: updated.status,
                    })
                    &&& final(store).market_pairs@ == old(store).market_pairs@.update(
                        pair_idx(old(store).market_pairs@, id),
                        p,
                    )
                },
                Err(err) => {
                    &&& err is NotFound
                    &&& pair_idx(old(store).market_pairs@, id) < 0
                    &&& *final(store) == *old(store)
                },
            },
    {
        let ghost s0 = store.market_pairs@;
        let n = store.market_pairs.len();
        for i in 0..n
            invariant
                old(store).wf(),
                n == store.market_pairs@.len(),
                store.market_pairs@ == s0,
                *store == *old(store),
                pair_idx(s0, id) == pair_idx_from(s0, id, i as int),
        {
            if rid_eq(&store.market_pairs[i].id, id) {
                let p = MarketPair {
                    id: store.market_pairs[i].id,
                    exchange_id: updated.exchange_id,
                    base_asset_id: updated.base_asset_id,
                    quote_asset_id: updated.quote_asset_id,
                    created_at: store.market_pairs[i].created_at,
                    updated_at: now,
                    status: updated.status,
                };
                store.market_pairs.set(i, p);
                proof {
                    let s1 = store.market_pairs@;
                    assert forall|p2: int|
                        0 <= p2 < s1.len() implies crate::store::stored_id_ok(
                        #[trigger] s1[p2].id,
                        store.next_seq,
                    ) by {
                        assert(s1[p2].id == s0[p2].id);
                        assert(crate::store::stored_id_ok(s0[p2].id, old(store).next_seq));
                    }
                    assert forall|p2: int, q2: int|
                        #![trigger s1[p2].id, s1[q2].id]
                        0 <= p2 < q2 < s1.len() implies s1[p2].id != s1[q2].id by {
                        assert(s1[p2].id == s0[p2].id && s1[q2].id == s0[q2].id);
                    }
                }
                return Ok(p);
            }
        }
        Err(StoreError::NotFound)
    }

    /// Removes the record stored under `id`; removing an absent record is
    /// not a failure.
    pub fn delete_market_pair(store: &mut Store, id: RecordId) -> (r: Result<(), StoreError>)
        requires
            old(store).wf(),
        ensures
            final(store).wf(),
            final(store).exchanges == old(store).exchanges,
            final(store).assets == old(store).assets,
            final(store).strategies == old(store).strategies,
            final(store).next_seq == old(store).next_seq,
            r is Ok,
            pair_idx(old(store).market_pairs@, id) >= 0 ==> final(store).market_pairs@ == old(
                store,
            ).market_pairs@.remove(pair_idx(old(store).market_pairs@, id)),
            pair_idx(old(store).market_pairs@, id) < 0 ==> *final(store) == *old(store),
    {
        let ghost s0 = store.market_pairs@;
        let n = store.market_pairs.len();
        for i in 0..n
            invariant
                old(store).wf(),
                n == store.market_pairs@.len(),
                store.market_pairs@ == s0,
                *store == *old(store),
                pair_idx(s0, id) == pair_idx_from(s0, id, i as int),
        {
            if rid_eq(&store.market_pairs[i].id, id) {
                store.market_pairs.remove(i);
                proof {
                    let s1 = store.market_pairs@;
                    s0.remove_ensures(i as int);
                    assert forall|p2: int|
                        0 <= p2 < s1.len() implies crate::store::stored_id_ok(
                        #[trigger] s1[p2].id,
                        store.next_seq,
                    ) by {
                        if p2 < i {
                            assert(s1[p2] == s0[p2]);
                        } else {
                            assert(s1[p2] == s0[p2 + 1]);
                        }
                    }
                    assert forall|p2: int, q2: int|
                        #![trigger s1[p2].id, s1[q2].id]
                        0 <= p2 < q2 < s1.len() implies s1[p2].id != s1[q2].id by {
                        let p0: int = if p2 < i { p2 } else { p2 + 1 };
                        let q0: int = if q2 < i { q2 } else { q2 + 1 };
                        assert(s1[p2] == s0[p0] && s1[q2] == s0[q0]);
                        assert(s0[p0].id != s0[q0].id);
                    }
                }
                return Ok(());
            }
        }
        Ok(())
    }

    /// A page of the pair listing.  Rows are the stored pairs that pass
    /// the normalized exchange filter, resolve fully, and match the
    /// normalized search term against either ticker; the page skips
    /// `(page - 1) * per_page` rows and holds at most `per_page`; the
    /// second result counts all rows under the same filters.
    pub fn get_all_market_pairs_with_pagination(
        store: &Store,
        page: u64,
        per_page: u64,
        exchange_id: Option<String>,
        search: Option<String>,
    ) -> (r: (Vec<PopulatedMarketPair>, u64))
        requires
            page >= 1,
            (page as int) * (per_page as int) <= u64::MAX,
        ensures
            ({
                let rows = spec_pairs_listing(
                    *store,
                    spec_exchange_filter(exchange_id),
                    spec_pair_search(search),
                );
                let skip = (page - 1) as int * per_page as int;
                let lo = if skip <= rows.len() { skip } else { rows.len() as int };
                let hi = if skip + per_page <= rows.len() {
                    skip + per_page
                } else {
                    rows.len() as int
                };
                &&& r.1 == rows.len()
                &&& r.0@ == rows.subrange(lo, hi)
            }),
    {
        let exf: Option<RecordId> = match &exchange_id {
            Some(s) => {
                if s.as_str().is_empty() {
                    None
                } else {
                    RecordId::parse_hex(s.as_str())
                }
            },
            None => None,
        };
        let sf: Option<&String> = match &search {
            Some(t) => {
                if t.as_str().is_empty() {
                    None
                } else {
                    Some(t)
                }
            },
            None => None,
        };
        proof {
            assert(exf == spec_exchange_filter(exchange_id));
        }
        let ghost g_exf = spec_exchange_filter(exchange_id);
        let ghost g_sf = spec_pair_search(search);
        let n = store.market_pairs.len();
        let mut rows: Vec<PopulatedMarketPair> = Vec::new();
        for i in 0..n
            invariant
                n == store.market_pairs@.len(),
                exf == g_exf,
                match sf {
                    Some(t) => g_sf == Some(t@) && t@.len() > 0,
                    None => g_sf is None,
                },
                rows@ =~= pairs_listing_upto(*store, g_exf, g_sf, i as int),
        {
            let p = store.market_pairs[i];
            let keep_exchange = match exf {
                Some(e) => p.exchange_id.hi == e.hi && p.exchange_id.lo == e.lo,
                None => true,
            };
            if keep_exchange {
                if let Some(pp) = populate_market_pair(store, &p) {
                    let keep_search = match sf {
                        Some(t) => str_contains_ci(pp.base_asset.short_name.as_str(), t.as_str())
                            || str_contains_ci(pp.quote_asset.short_name.as_str(), t.as_str()),
                        None => true,
                    };
                    if keep_search {
                        rows.push(pp);
                    }
                }
            }
        }
        proof {
            lemma_listing_len_bounded(*store, g_exf, g_sf, n as int);
        }
        let total = rows.len() as u64;
        proof {
            assert(((page - 1) as int) * (per_page as int) + (per_page as int) == (page as int) * (
            per_page as int)) by (nonlinear_arith);
        }
        let skip = (page - 1) * per_page;
        let lo: usize = if skip <= total {
            skip as usize
        } else {
            rows.len()
        };
        let end = skip + per_page;
        let hi: usize = if end <= total {
            end as usize
        } else {
            rows.len()
        };
        let mut out: Vec<PopulatedMarketPair> = Vec::new();
        for j in lo..hi
            invariant
                lo <= j <= hi <= rows@.len(),
                out@ =~= rows@.subrange(lo as int, j as int),
        {
            out.push(rows[j].clone());
            proof {
                assert(out@ =~= rows@.subrange(lo as int, j + 1 as int));
            }
        }
        (out, total)
    }

    /// All populated pairs of one exchange, in store order.
    pub fn get_all_market_pairs_by_exchange(store: &Store, exchange_id: RecordId) -> (r: Vec<
        PopulatedMarketPair,
    >)
        ensures
            r@ == spec_pairs_by_exchange(*store, exchange_id),
    {
        let n = store.market_pairs.len();
        let mut out: Vec<PopulatedMarketPair> = Vec::new();
        for i in 0..n
            invariant
                n == store.market_pairs@.len(),
                out@ =~= pairs_by_exchange_upto(*store, exchange_id, i as int),
        {
            let p = store.market_pairs[i];
            if p.exchange_id.hi == exchange_id.hi && p.exchange_id.lo == exchange_id.lo {
                if let Some(pp) = populate_market_pair(store, &p) {
                    out.push(pp);
                }
            }
        }
        out
    }

    /// The populated pairs that bridge the quote assets of the two pairs
    /// stored under the given identifiers, in either direction.  Either
    /// identifier missing from the store is a missing-record failure.
    pub fn get_conversion_pairs(store: &Store, pair1: RecordId, pair2: RecordId) -> (r: Result<
        Vec<PopulatedMarketPair>,
        StoreError,
    >)
        ensures
            match r {
                Ok(v) => {
                    &&& spec_find_pair(store.market_pairs@, pair1) is Some
                    &&& spec_find_pair(store.market_pairs@, pair2) is Some
                    &&& v@ == spec_conversion_pairs(
                        *store,
                        spec_find_pair(store.market_pairs@, pair1)->0.quote_asset_id,
                        spec_find_pair(store.market_pairs@, pair2)->0.quote_asset_id,
                    )
                },
                Err(err) => {
                    &&& err is NotFound
                    &&& (spec_find_pair(store.market_pairs@, pair1) is None || spec_find_pair(
                        store.market_pairs@,
                        pair2,
                    ) is None)
                },
            },
    {
        let p1 = match find_pair(&store.market_pairs, pair1) {
            Some(p) => p,
            None => {
                return Err(StoreError::NotFound);
            },
        };
        let p2 = match find_pair(&store.market_pairs, pair2) {
            Some(p) => p,
            None => {
                return Err(StoreError::NotFound);
            },
        };
        let q1 = p1.quote_asset_id;
        let q2 = p2.quote_asset_id;
        let n = store.market_pairs.len();
        let mut out: Vec<PopulatedMarketPair> = Vec::new();
        for i in 0..n
            invariant
                n == store.market_pairs@.len(),
                out@ =~= conversion_pairs_upto(*store, q1, q2, i as int),
        {
            let p = store.market_pairs[i];
            let forward = p.base_asset_id.hi == q1.hi && p.base_asset_id.lo == q1.lo
                && p.quote_asset_id.hi == q2.hi && p.quote_asset_id.lo == q2.lo;
            let backward = p.base_asset_id.hi == q2.hi && p.base_asset_id.lo == q2.lo
                && p.quote_asset_id.hi == q1.hi && p.quote_asset_id.lo == q1.lo;
            if forward || backward {
                if let Some(pp) = populate_market_pair(store, &p) {
                    out.push(pp);
                }
            }
        }
        Ok(out)
    }

    /// The populated pairs either side of which carries a ticker
    /// admissible for bridging the two given bare quote symbols: one of
    /// the symbols themselves, or any member of an equivalence class that
    /// one of them belongs to.
    pub fn get_conversion_pairs_for_arbitrage(
        store: &Store,
        quote_asset1: &str,
        quote_asset2: &str,
    ) -> (r: Vec<PopulatedMarketPair>)
        ensures
            r@ == spec_arbitrage_conversion(*store, quote_asset1@, quote_asset2@),
    {
        let usd = usd_class_members();
        let eur = eur_class_members();
        let a_usd = crate::equivalence::class_contains(&usd, quote_asset1);
        let b_usd = crate::equivalence::class_contains(&usd, quote_asset2);
        let a_eur = crate::equivalence::class_contains(&eur, quote_asset1);
        let b_eur = crate::equivalence::class_contains(&eur, quote_asset2);
        let n = store.market_pairs.len();
        let mut out: Vec<PopulatedMarketPair> = Vec::new();
        for i in 0..n
            invariant
                n == store.market_pairs@.len(),
                usd.deep_view() == usd_class(),
                eur.deep_view() == eur_class(),
                a_usd == usd_class().contains(quote_asset1@),
                b_usd == usd_class().contains(quote_asset2@),
                a_eur == eur_class().contains(quote_asset1@),
                b_eur == eur_class().contains(quote_asset2@),
                out@ =~= arbitrage_conversion_upto(*store, quote_asset1@, quote_asset2@, i as int),
        {
            let p = store.market_pairs[i];
            if let Some(pp) = populate_market_pair(store, &p) {
                let base_ok = sym_possible_exec(
                    pp.base_asset.short_name.as_str(),
                    quote_asset1,
                    quote_asset2,
                    &usd,
                    &eur,
                    a_usd,
                    b_usd,
                    a_eur,
                    b_eur,
                );
                let quote_ok = sym_possible_exec(
                    pp.quote_asset.short_name.as_str(),
                    quote_asset1,
                    quote_asset2,
                    &usd,
                    &eur,
                    a_usd,
                    b_usd,
                    a_eur,
                    b_eur,
                );
                if base_ok || quote_ok {
                    out.push(pp);
                }
            }
        }
        out
    }
}

} // verus!
