//! Record lifecycle operations over the asset collection, and its
//! paginated, searchable listing.

use vstd::prelude::*;

use crate::errors::StoreError;
use crate::exchange_service::{find_exchange, rid_eq, spec_find_exchange};
use crate::record_id::RecordId;
use crate::schema::{Asset, Exchange};
use crate::store::Store;
use crate::textmatch::contains_ci;
use crate::textmatch::str_contains_ci;

verus! {

/// The index of the first asset at or after position `i` stored under
/// `id`, or -1 when there is none.
pub open spec fn asset_idx_from(s: Seq<Asset>, id: RecordId, i: int) -> int
    decreases s.len() - i,
{
    if i < 0 || i >= s.len() {
        -1
    } else if s[i].id == Some(id) {
        i
    } else {
        asset_idx_from(s, id, i + 1)
    }
}

/// The index of the asset stored under `id`, or -1 when there is none.
pub open spec fn asset_idx(s: Seq<Asset>, id: RecordId) -> int {
    asset_idx_from(s, id, 0)
}

/// The asset stored under `id`, if any.
pub open spec fn spec_find_asset(s: Seq<Asset>, id: RecordId) -> Option<Asset> {
    let k = asset_idx(s, id);
    if k >= 0 {
        Some(s[k])
    } else {
        None
    }
}

/// The asset stored under `id`, if any.
pub fn find_asset(assets: &Vec<Asset>, id: RecordId) -> (r: Option<Asset>)
    ensures
        r == spec_find_asset(assets@, id),
{
    let n = assets.len();
    for i in 0..n
        invariant
            n == assets@.len(),
            asset_idx(assets@, id) == asset_idx_from(assets@, id, i as int),
    {
        if rid_eq(&assets[i].id, id) {
            return Some(assets[i].clone());
        }
    }
    None
}

/// Whether an asset matches a search term: the term occurs in the name or
/// in the ticker symbol, up to ASCII case.  No term matches everything.
pub open spec fn asset_matches(a: Asset, search: Option<Seq<char>>) -> bool {
    match search {
        Some(t) => contains_ci(a.name@, t) || contains_ci(a.short_name@, t),
        None => true,
    }
}

/// The assets among the first `n` that match the search term, in store
/// order.
pub open spec fn assets_filtered_upto(
    s: Seq<Asset>,
    search: Option<Seq<char>>,
    n: int,
) -> Seq<Asset>
    decreases n,
{
    if n <= 0 {
        Seq::empty()
    } else {
        assets_filtered_upto(s, search, n - 1) + if asset_matches(s[n - 1], search) {
            seq![s[n - 1]]
        } else {
            Seq::empty()
        }
    }
}

/// All assets matching the search term, in store order.
pub open spec fn assets_filtered(s: Seq<Asset>, search: Option<Seq<char>>) -> Seq<Asset> {
    assets_filtered_upto(s, search, s.len() as int)
}

/// One row of the asset listing: the asset, and its owning exchange when
/// the caller asked for it and the reference resolves.
#[derive(Debug)]
pub struct AssetListing {
    pub asset: Asset,
    pub exchange: Option<Exchange>,
}

impl Clone for AssetListing {
    fn clone(&self) -> (r: Self)
        ensures
            r == *self,
    {
        AssetListing {
            asset: self.asset.clone(),
            exchange: match &self.exchange {
                Some(e) => Some(e.clone()),
                None => None,
            },
        }
    }
}

/// The listing row for one asset.
pub open spec fn spec_listing_of(a: Asset, exchanges: Seq<Exchange>, with_exchange: bool) -> AssetListing {
    AssetListing {
        asset: a,
        exchange: if with_exchange {
            spec_find_exchange(exchanges, a.exchange_id)
        } else {
            None
        },
    }
}

/// The listing rows for a page of assets.
pub open spec fn spec_listings_of(
    page: Seq<Asset>,
    exchanges: Seq<Exchange>,
    with_exchange: bool,
) -> Seq<AssetListing> {
    Seq::new(page.len(), |i: int| spec_listing_of(page[i], exchanges, with_exchange))
}

/// The view of an optional search term.
pub open spec fn spec_search(search: Option<String>) -> Option<Seq<char>> {
    match search {
        Some(t) => Some(t@),
        None => None,
    }
}

/// Whether an asset matches the given search term.
fn asset_matches_exec(a: &Asset, search: &Option<String>) -> (r: bool)
    ensures
        r == asset_matches(*a, spec_search(*search)),
{
    match search {
        Some(t) => {
            str_contains_ci(a.name.as_str(), t.as_str()) || str_contains_ci(
                a.short_name.as_str(),
                t.as_str(),
            )
        },
        None => true,
    }
}

pub struct AssetService;

impl AssetService {
    /// Stamps both timestamps with `now`, stores the record under a fresh
    /// generated identifier, and returns the stored form.
    pub fn create_asset(store: &mut Store, asset: Asset, now: i64) -> (r: Result<
        Asset,
        StoreError,
    >)
        requires
            old(store).wf(),
        ensures
            final(store).wf(),
            final(store).exchanges == old(store).exchanges,
            final(store).market_pairs == old(store).market_pairs,
            final(store).strategies == old(store).strategies,
            match r {
                Ok(a) => {
                    &&& old(store).next_seq < u64::MAX
                    &&& a == (Asset {
                        id: Some(RecordId { hi: 0, lo: old(store).next_seq }),
                        exchange_id: asset.exchange_id,
                        name: asset.name,
                        short_name: asset.short_name,
                        created_at: now,
                        updated_at: now,
                        status: asset.status,
                    })
                    &&& final(store).assets@ == old(store).assets@.push(a)
                    &&& final(store).next_seq == old(store).next_seq + 1
                },
                Err(err) => {
                    &&& err is PersistFailure
                    &&& old(store).next_seq == u64::MAX
                    &&& *final(store) == *old(store)
                },
            },
    {
        let id = match store.fresh_id() {
            Some(id) => id,
            None => {
                return Err(StoreError::PersistFailure);
            },
        };
        let stored = Asset {
            id: Some(id),
            exchange_id: asset.exchange_id,
            name: asset.name,
            short_name: asset.short_name,
            created_at: now,
            updated_at: now,
            status: asset.status,
        };
        let copy = stored.clone();
        store.assets.push(stored);
        Ok(copy)
    }

    /// Point lookup by identifier.
    pub fn get_asset(store: &Store, id: RecordId) -> (r: Result<Asset, StoreError>)
        ensures
            match r {
                Ok(a) => spec_find_asset(store.assets@, id) == Some(a),
                Err(err) => {
                    &&& err is NotFound
                    &&& spec_find_asset(store.assets@, id) is None
                },
            },
    {
        match find_asset(&store.assets, id) {
            Some(a) => Ok(a),
            None => Err(StoreError::NotFound),
        }
    }

    /// Full-record replacement of the editable fields: replaces name,
    /// ticker, owning exchange and status, refreshes the update stamp,
    /// keeps the creation stamp, and returns the stored form.
    pub fn update_asset(store: &mut Store, id: RecordId, updated: Asset, now: i64) -> (r: Result<
        Asset,
        StoreError,
    >)
        requires
            old(store).wf(),
        ensures
            final(store).wf(),
            final(store).exchanges == old(store).exchanges,
            final(store).market_pairs == old(store).market_pairs,
            final(store).strategies == old(store).strategies,
            final(store).next_seq == old(store).next_seq,
            match r {
                Ok(a) => {
                    &&& asset_idx(old(store).assets@, id) >= 0
                    &&& a == (Asset {
                        id: old(store).assets@[asset_idx(old(store).assets@, id)].id,
                        exchange_id: updated.exchange_id,
                        name: updated.name,
                        short_name: updated.short_name,
                        created_at: old(store).assets@[asset_idx(old(store).assets@, id)].created_at,
                        updated_at: now,
                        status: updated.status,
                    })
                    &&& final(store).assets@ == old(store).assets@.update(
                        asset_idx(old(store).assets@, id),
                        a,
                    )
                },
                Err(err) => {
                    &&& err is NotFound
                    &&& asset_idx(old(store).assets@, id) < 0
                    &&& *final(store) == *old(store)
                },
            },
    {
        let ghost s0 = store.assets@;
        let n = store.assets.len();
        for i in 0..n
            invariant
                old(store).wf(),
                n == store.assets@.len(),
                store.assets@ == s0,
                *store == *old(store),
                asset_idx(s0, id) == asset_idx_from(s0, id, i as int),
        {
            if rid_eq(&store.assets[i].id, id) {
                let a = Asset {
                    id: store.assets[i].id,
                    exchange_id: updated.exchange_id,
                    name: updated.name,
                    short_name: updated.short_name,
                    created_at: store.assets[i].created_at,
                    updated_at: now,
                    status: updated.status,
                };
                let copy = a.clone();
                store.assets.set(i, a);
                proof {
                    let s1 = store.assets@;
                    assert forall|p: int|
                        0 <= p < s1.len() implies crate::store::stored_id_ok(
                        #[trigger] s1[p].id,
                        store.next_seq,
                    ) by {
                        assert(s1[p].id == s0[p].id);
                        assert(crate::store::stored_id_ok(s0[p].id, old(store).next_seq));
                    }
                    assert forall|p: int, q: int|
                        #![trigger s1[p].id, s1[q].id]
                        0 <= p < q < s1.len() implies s1[p].id != s1[q].id by {
                        assert(s1[p].id == s0[p].id && s1[q].id == s0[q].id);
                    }
                }
                return Ok(copy);
            }
        }
        Err(StoreError::NotFound)
    }

    /// Removes the record stored under `id`; removing an absent record is
    /// not a failure.
    pub fn delete_asset(store: &mut Store, id: RecordId) -> (r: Result<(), StoreError>)
        requires
            old(store).wf(),
        ensures
            final(store).wf(),
            final(store).exchanges == old(store).exchanges,
            final(store).market_pairs == old(store).market_pairs,
            final(store).strategies == old(store).strategies,
            final(store).next_seq == old(store).next_seq,
            r is Ok,
            asset_idx(old(store).assets@, id) >= 0 ==> final(store).assets@ == old(
                store,
            ).assets@.remove(asset_idx(old(store).assets@, id)),
            asset_idx(old(store).assets@, id) < 0 ==> *final(store) == *old(store),
    {
        let ghost s0 = store.assets@;
        let n = store.assets.len();
        for i in 0..n
            invariant
                old(store).wf(),
                n == store.assets@.len(),
                store.assets@ == s0,
                *store == *old(store),
                asset_idx(s0, id) == asset_idx_from(s0, id, i as int),
        {
            if rid_eq(&store.assets[i].id, id) {
                store.assets.remove(i);
                proof {
                    let s1 = store.assets@;
                    s0.remove_ensures(i as int);
                    assert forall|p: int|
                        0 <= p < s1.len() implies crate::store::stored_id_ok(
                        #[trigger] s1[p].id,
                        store.next_seq,
                    ) by {
                        if p < i {
                            assert(s1[p] == s0[p]);
                        } else {
                            assert(s1[p] == s0[p + 1]);
                        }
                    }
                    assert forall|p: int, q: int|
                        #![trigger s1[p].id, s1[q].id]
                        0 <= p < q < s1.len() implies s1[p].id != s1[q].id by {
                        let p0: int = if p < i { p } else { p + 1 };
                        let q0: int = if q < i { q } else { q + 1 };
                        assert(s1[p] == s0[p0] && s1[q] == s0[q0]);
                        assert(s0[p0].id != s0[q0].id);
                    }
                }
                return Ok(());
            }
        }
        Ok(())
    }

    /// A page of the asset listing.  The page is cut from the assets that
    /// match the search term, in store order, with `(page - 1) * per_page`
    /// rows skipped and at most `per_page` rows returned; the second
    /// result is the count of all matching assets under the same filter.
    /// When asked for, each row also carries the owning exchange, absent
    /// when its reference does not resolve.
    pub fn get_all_assets(
        store: &Store,
        page: u64,
        per_page: u64,
        include_exchange: bool,
        search: Option<String>,
    ) -> (r: (Vec<AssetListing>, u64))
        requires
            page >= 1,
            (page as int) * (per_page as int) <= u64::MAX,
        ensures
            ({
                let filtered = assets_filtered(store.assets@, spec_search(search));
                let skip = (page - 1) as int * per_page as int;
                let lo = if skip <= filtered.len() { skip } else { filtered.len() as int };
                let hi = if skip + per_page <= filtered.len() {
                    skip + per_page
                } else {
                    filtered.len() as int
                };
                &&& r.1 == filtered.len()
                &&& r.0@ == spec_listings_of(
                    filtered.subrange(lo, hi),
                    store.exchanges@,
                    include_exchange,
                )
            }),
    {
        let n = store.assets.len();
        let mut matched: Vec<Asset> = Vec::new();
        for i in 0..n
            invariant
                n == store.assets@.len(),
                matched@ =~= assets_filtered_upto(store.assets@, spec_search(search), i as int),
        {
            if asset_matches_exec(&store.assets[i], &search) {
                matched.push(store.assets[i].clone());
            }
        }
        proof {
            lemma_filtered_len_bounded(store.assets@, spec_search(search), n as int);
        }
        let total = matched.len() as u64;
        proof {
            assert(((page - 1) as int) * (per_page as int) + (per_page as int) == (page as int) * (
            per_page as int)) by (nonlinear_arith);
        }
        let skip = (page - 1) * per_page;
        let lo: usize = if skip <= total {
            skip as usize
        } else {
            matched.len()
        };
        let end = skip + per_page;
        let hi: usize = if end <= total {
            end as usize
        } else {
            matched.len()
        };
        let mut out: Vec<AssetListing> = Vec::new();
        for j in lo..hi
            invariant
                lo <= j <= hi <= matched@.len(),
                out@ =~= spec_listings_of(
                    matched@.subrange(lo as int, j as int),
                    store.exchanges@,
                    include_exchange,
                ),
        {
            let exchange = if include_exchange {
                find_exchange(&store.exchanges, matched[j].exchange_id)
            } else {
                None
            };
            out.push(AssetListing { asset: matched[j].clone(), exchange });
            proof {
                let sub = matched@.subrange(lo as int, j + 1 as int);
                assert(sub[j - lo] == matched@[j as int]);
                assert(out@ =~= spec_listings_of(sub, store.exchanges@, include_exchange));
            }
        }
        proof {
            assert(matched@.subrange(
                lo as int,
                hi as int,
            ) =~= assets_filtered(store.assets@, spec_search(search)).subrange(lo as int, hi as int));
        }
        (out, total)
    }
}

/// A filtered prefix is no longer than the prefix it was cut from.
pub proof fn lemma_filtered_len_bounded(s: Seq<Asset>, search: Option<Seq<char>>, n: int)
    requires
        0 <= n <= s.len(),
    ensures
        assets_filtered_upto(s, search, n).len() <= n,
    decreases n,
{
    if n > 0 {
        lemma_filtered_len_bounded(s, search, n - 1);
    }
}

} // verus!
