//! The suggestion engine: for two exchanges, walks the first exchange's
//! populated pairs, looks for a structurally matching pair on the second
//! exchange (same base ticker, equivalent quote ticker), picks the best
//! conversion pair bridging the two quote currencies, and emits draft
//! geographic strategies.  Only the geographic kind has an algorithm.

use vstd::prelude::*;

use crate::equivalence::{class_contains, spec_variants, variants_of};
use crate::errors::StoreError;
use crate::market_pair_service::{
    pairs_by_exchange_upto, populate_market_pair, spec_pairs_by_exchange, spec_populate,
    MarketPairService,
};
use crate::record_id::RecordId;
use crate::schema::PopulatedMarketPair;
use crate::store::Store;
use crate::strategy::{
    ArbitrageDetails, ArbitrageStrategy, ArbitrageType, GeographicArbitrage,
};
use crate::textmatch::str_eq;

verus! {

/// Whether a pair on the second exchange corresponds to `pair1`: the same
/// base ticker, and a quote ticker among the variants of `pair1`'s quote.
pub open spec fn matches_corresponding(p: PopulatedMarketPair, pair1: PopulatedMarketPair) -> bool {
    &&& p.base_asset.short_name@ == pair1.base_asset.short_name@
    &&& spec_variants(pair1.quote_asset.short_name@).contains(p.quote_asset.short_name@)
}

/// The first pair at or after position `i` that corresponds to `pair1`.
pub open spec fn first_corresponding_from(
    pairs: Seq<PopulatedMarketPair>,
    pair1: PopulatedMarketPair,
    i: int,
) -> Option<PopulatedMarketPair>
    decreases pairs.len() - i,
{
    if i < 0 || i >= pairs.len() {
        None
    } else if matches_corresponding(pairs[i], pair1) {
        Some(pairs[i])
    } else {
        first_corresponding_from(pairs, pair1, i + 1)
    }
}

/// The first pair of the second exchange corresponding to `pair1`, in
/// store order.
pub open spec fn spec_find_corresponding(
    store: Store,
    pair1: PopulatedMarketPair,
    exchange2: RecordId,
) -> Option<PopulatedMarketPair> {
    first_corresponding_from(spec_pairs_by_exchange(store, exchange2), pair1, 0)
}

/// The two bare fiat codes.
pub open spec fn fiat_codes() -> Seq<Seq<char>> {
    seq!["USD"@, "EUR"@]
}

/// The stablecoins the priority score recognizes.
pub open spec fn known_stablecoins() -> Seq<Seq<char>> {
    seq![
        "USDT"@,
        "USDC"@,
        "BUSD"@,
        "DAI"@,
        "TUSD"@,
        "USDP"@,
        "GUSD"@,
        "FDUSD"@,
        "EURS"@,
        "EURT"@,
    ]
}

/// The rank of a conversion-pair candidate: 1 when either side is a bare
/// fiat code, 2 when either side is a known stablecoin, 3 otherwise.
/// Lower is better.
pub open spec fn spec_conversion_priority(p: PopulatedMarketPair) -> int {
    if fiat_codes().contains(p.base_asset.short_name@) || fiat_codes().contains(
        p.quote_asset.short_name@,
    ) {
        1
    } else if known_stablecoins().contains(p.base_asset.short_name@)
        || known_stablecoins().contains(p.quote_asset.short_name@) {
        2
    } else {
        3
    }
}

/// The two bare fiat codes as strings.
fn fiat_codes_vec() -> (r: Vec<String>)
    ensures
        r.deep_view() =~= fiat_codes(),
{
    let mut v: Vec<String> = Vec::new();
    v.push("USD".to_owned());
    v.push("EUR".to_owned());
    v
}

/// The recognized stablecoins as strings.
fn known_stablecoins_vec() -> (r: Vec<String>)
    ensures
        r.deep_view() =~= known_stablecoins(),
{
    let mut v: Vec<String> = Vec::new();
    v.push("USDT".to_owned());
    v.push("USDC".to_owned());
    v.push("BUSD".to_owned());
    v.push("DAI".to_owned());
    v.push("TUSD".to_owned());
    v.push("USDP".to_owned());
    v.push("GUSD".to_owned());
    v.push("FDUSD".to_owned());
    v.push("EURS".to_owned());
    v.push("EURT".to_owned());
    v
}

/// The rank of a conversion-pair candidate.
pub fn conversion_priority(p: &PopulatedMarketPair) -> (r: u8)
    ensures
        r as int == spec_conversion_priority(*p),
{
    let fiat = fiat_codes_vec();
    let stables = known_stablecoins_vec();
    if class_contains(&fiat, p.base_asset.short_name.as_str()) || class_contains(
        &fiat,
        p.quote_asset.short_name.as_str(),
    ) {
        1
    } else if class_contains(&stables, p.base_asset.short_name.as_str()) || class_contains(
        &stables,
        p.quote_asset.short_name.as_str(),
    ) {
        2
    } else {
        3
    }
}

/// Whether a populated pair bridges the two variant sets: one side's
/// ticker in one set and the other side's in the other, in either
/// direction.
pub open spec fn is_conversion_candidate(
    pp: PopulatedMarketPair,
    q1: Seq<Seq<char>>,
    q2: Seq<Seq<char>>,
) -> bool {
    ||| (q1.contains(pp.base_asset.short_name@) && q2.contains(pp.quote_asset.short_name@))
    ||| (q2.contains(pp.base_asset.short_name@) && q1.contains(pp.quote_asset.short_name@))
}

/// The conversion candidates among the first `n` stored pairs: populated
/// pairs bridging the two variant sets, in store order.
pub open spec fn conversion_candidates_upto(
    store: Store,
    q1: Seq<Seq<char>>,
    q2: Seq<Seq<char>>,
    n: int,
) -> Seq<PopulatedMarketPair>
    decreases n,
{
    if n <= 0 {
        Seq::empty()
    } else {
        conversion_candidates_upto(store, q1, q2, n - 1) + match spec_populate(
            store,
            store.market_pairs@[n - 1],
        ) {
            Some(pp) => if is_conversion_candidate(pp, q1, q2) {
                seq![pp]
            } else {
                Seq::<PopulatedMarketPair>::empty()
            },
            None => Seq::<PopulatedMarketPair>::empty(),
        }
    }
}

/// All conversion candidates bridging the two variant sets.
pub open spec fn spec_conversion_candidates(
    store: Store,
    q1: Seq<Seq<char>>,
    q2: Seq<Seq<char>>,
) -> Seq<PopulatedMarketPair> {
    conversion_candidates_upto(store, q1, q2, store.market_pairs@.len() as int)
}

/// The best candidate at or after position `i`: the first one whose
/// priority no later candidate beats.
pub open spec fn spec_best_from(cands: Seq<PopulatedMarketPair>, i: int) -> Option<
    PopulatedMarketPair,
>
    decreases cands.len() - i,
{
    if i < 0 || i >= cands.len() {
        None
    } else {
        match spec_best_from(cands, i + 1) {
            None => Some(cands[i]),
            Some(b) => if spec_conversion_priority(cands[i]) <= spec_conversion_priority(b) {
                Some(cands[i])
            } else {
                Some(b)
            },
        }
    }
}

/// The selected conversion pair: the first candidate of minimal priority.
pub open spec fn spec_best_candidate(cands: Seq<PopulatedMarketPair>) -> Option<
    PopulatedMarketPair,
> {
    spec_best_from(cands, 0)
}

/// Law: the selected conversion pair is a candidate, and no candidate has
/// a strictly better (lower) priority; there is a selection exactly when
/// there is a candidate.
pub proof fn lemma_best_candidate_minimal(cands: Seq<PopulatedMarketPair>, i: int)
    requires
        0 <= i <= cands.len(),
    ensures
        spec_best_from(cands, i) is Some <==> i < cands.len(),
        match spec_best_from(cands, i) {
            Some(b) => {
                &&& exists|k: int| i <= k < cands.len() && cands[k] == b
                &&& forall|k: int|
                    i <= k < cands.len() ==> spec_conversion_priority(#[trigger] cands[k])
                        >= spec_conversion_priority(b)
            },
            None => true,
        },
    decreases cands.len() - i,
{
    if i < cands.len() {
        lemma_best_candidate_minimal(cands, i + 1);
        match spec_best_from(cands, i) {
            Some(b) => {
                if b == cands[i] {
                    assert(exists|k: int| i <= k < cands.len() && cands[k] == b);
                }
            },
            None => {},
        }
    }
}

/// The draft strategy the engine emits for a matched triple: no
/// identifier, zero timestamps, status set, pending submission.
pub open spec fn spec_draft(
    p1: PopulatedMarketPair,
    p2: PopulatedMarketPair,
    cp: PopulatedMarketPair,
) -> ArbitrageStrategy {
    ArbitrageStrategy {
        id: None,
        arbitrage_type: ArbitrageType::Geographic,
        details: ArbitrageDetails::Geographic(
            GeographicArbitrage { pair1: p1.id->0, pair2: p2.id->0, conversion_pair: cp.id->0 },
        ),
        created_at: 0,
        updated_at: 0,
        status: true,
    }
}

/// The draft suggested for one pair of the first exchange, if a
/// corresponding pair and a conversion pair are both found.
pub open spec fn spec_suggestion_for(
    store: Store,
    p1: PopulatedMarketPair,
    exchange2: RecordId,
) -> Option<ArbitrageStrategy> {
    match spec_find_corresponding(store, p1, exchange2) {
        Some(p2) => match spec_best_candidate(
            spec_conversion_candidates(
                store,
                spec_variants(p1.quote_asset.short_name@),
                spec_variants(p2.quote_asset.short_name@),
            ),
        ) {
            Some(cp) => Some(spec_draft(p1, p2, cp)),
            None => None,
        },
        None => None,
    }
}

/// The drafts suggested for the first `n` pairs of the first exchange.
pub open spec fn suggestions_upto(store: Store, ex1: RecordId, ex2: RecordId, n: int) -> Seq<
    ArbitrageStrategy,
>
    decreases n,
{
    if n <= 0 {
        Seq::empty()
    } else {
        suggestions_upto(store, ex1, ex2, n - 1) + match spec_suggestion_for(
            store,
            spec_pairs_by_exchange(store, ex1)[n - 1],
            ex2,
        ) {
            Some(s) => seq![s],
            None => Seq::<ArbitrageStrategy>::empty(),
        }
    }
}

/// All drafts suggested between the two exchanges, one per pair of the
/// first exchange that matches, in store order.
pub open spec fn spec_suggestions(store: Store, ex1: RecordId, ex2: RecordId) -> Seq<
    ArbitrageStrategy,
> {
    suggestions_upto(store, ex1, ex2, spec_pairs_by_exchange(store, ex1).len() as int)
}

/// Every populated pair of an exchange listing carries an identifier, in
/// a well-formed store.
pub proof fn lemma_by_exchange_ids(store: Store, ex: RecordId, n: int)
    requires
        store.wf(),
        0 <= n <= store.market_pairs@.len(),
    ensures
        forall|j: int|
            0 <= j < pairs_by_exchange_upto(store, ex, n).len() ==> (#[trigger] pairs_by_exchange_upto(
                store,
                ex,
                n,
            )[j].id) is Some,
    decreases n,
{
    if n > 0 {
        lemma_by_exchange_ids(store, ex, n - 1);
    }
}

/// Every conversion candidate carries an identifier, in a well-formed
/// store.
pub proof fn lemma_candidate_ids(store: Store, q1: Seq<Seq<char>>, q2: Seq<Seq<char>>, n: int)
    requires
        store.wf(),
        0 <= n <= store.market_pairs@.len(),
    ensures
        forall|j: int|
            0 <= j < conversion_candidates_upto(store, q1, q2, n).len() ==> (
            #[trigger] conversion_candidates_upto(store, q1, q2, n)[j].id) is Some,
    decreases n,
{
    if n > 0 {
        lemma_candidate_ids(store, q1, q2, n - 1);
    }
}

/// The best candidate is one of the candidates.
pub proof fn lemma_best_is_member(cands: Seq<PopulatedMarketPair>)
    ensures
        match spec_best_candidate(cands) {
            Some(b) => exists|k: int| 0 <= k < cands.len() && cands[k] == b,
            None => true,
        },
{
    lemma_best_candidate_minimal(cands, 0);
}

pub struct SuggestedArbitrageStrategyService;

impl SuggestedArbitrageStrategyService {
    /// The first pair of the second exchange corresponding to `pair1`.
    pub fn find_corresponding_pair(
        store: &Store,
        pair1: &PopulatedMarketPair,
        exchange2: RecordId,
    ) -> (r: Option<PopulatedMarketPair>)
        ensures
            r == spec_find_corresponding(*store, *pair1, exchange2),
    {
        let pairs2 = MarketPairService::get_all_market_pairs_by_exchange(store, exchange2);
        let variants = variants_of(pair1.quote_asset.short_name.as_str());
        let n = pairs2.len();
        for i in 0..n
            invariant
                n == pairs2@.len(),
                pairs2@ == spec_pairs_by_exchange(*store, exchange2),
                variants.deep_view() == spec_variants(pair1.quote_asset.short_name@),
                first_corresponding_from(pairs2@, *pair1, 0) == first_corresponding_from(
                    pairs2@,
                    *pair1,
                    i as int,
                ),
        {
            let same_base = str_eq(
                pairs2[i].base_asset.short_name.as_str(),
                pair1.base_asset.short_name.as_str(),
            );
            if same_base && class_contains(&variants, pairs2[i].quote_asset.short_name.as_str()) {
                return Some(pairs2[i].clone());
            }
        }
        None
    }

    /// The identifiers of all assets whose ticker is among the given
    /// symbols, in store order.
    pub fn get_asset_ids(store: &Store, asset_names: &Vec<String>) -> (r: Vec<RecordId>)
        ensures
            r@ == spec_asset_ids_upto(*store, asset_names.deep_view(), store.assets@.len() as int),
    {
        let n = store.assets.len();
        let mut out: Vec<RecordId> = Vec::new();
        for i in 0..n
            invariant
                n == store.assets@.len(),
                out@ =~= spec_asset_ids_upto(*store, asset_names.deep_view(), i as int),
        {
            if class_contains(asset_names, store.assets[i].short_name.as_str()) {
                match store.assets[i].id {
                    Some(id) => out.push(id),
                    None => {},
                }
            }
        }
        out
    }

    /// The selected conversion pair bridging the quote currencies of the
    /// two matched pairs: the first stored candidate of minimal priority.
    pub fn find_conversion_pair(
        store: &Store,
        pair1: &PopulatedMarketPair,
        pair2: &PopulatedMarketPair,
    ) -> (r: Option<PopulatedMarketPair>)
        ensures
            r == spec_best_candidate(
                spec_conversion_candidates(
                    *store,
                    spec_variants(pair1.quote_asset.short_name@),
                    spec_variants(pair2.quote_asset.short_name@),
                ),
            ),
    {
        let variants1 = variants_of(pair1.quote_asset.short_name.as_str());
        let variants2 = variants_of(pair2.quote_asset.short_name.as_str());
        let ghost q1 = spec_variants(pair1.quote_asset.short_name@);
        let ghost q2 = spec_variants(pair2.quote_asset.short_name@);
        let n = store.market_pairs.len();
        let mut cands: Vec<PopulatedMarketPair> = Vec::new();
        for i in 0..n
            invariant
                n == store.market_pairs@.len(),
                variants1.deep_view() == q1,
                variants2.deep_view() == q2,
                cands@ =~= conversion_candidates_upto(*store, q1, q2, i as int),
        {
            let p = store.market_pairs[i];
            if let Some(pp) = populate_market_pair(store, &p) {
                let fwd = class_contains(&variants1, pp.base_asset.short_name.as_str())
                    && class_contains(&variants2, pp.quote_asset.short_name.as_str());
                let bwd = class_contains(&variants2, pp.base_asset.short_name.as_str())
                    && class_contains(&variants1, pp.quote_asset.short_name.as_str());
                if fwd || bwd {
                    cands.push(pp);
                }
            }
        }
        let m = cands.len();
        let mut best: Option<PopulatedMarketPair> = None;
        let mut i = m;
        while i > 0
            invariant
                i <= m,
                m == cands@.len(),
                best == spec_best_from(cands@, i as int),
            decreases i,
        {
            i = i - 1;
            let c = &cands[i];
            best = match best {
                None => Some(c.clone()),
                Some(b) => {
                    if conversion_priority(c) <= conversion_priority(&b) {
                        Some(c.clone())
                    } else {
                        Some(b)
                    }
                },
            };
        }
        best
    }

    /// The suggested geographic drafts between the two exchanges: one
    /// draft per pair of the first exchange for which a corresponding
    /// pair on the second exchange and a conversion pair are both found.
    /// Every other strategy kind has no algorithm and is refused.
    pub fn get_suggested_strategies(
        store: &Store,
        exchange1: RecordId,
        exchange2: RecordId,
        strategy_type: ArbitrageType,
    ) -> (r: Result<Vec<ArbitrageStrategy>, StoreError>)
        requires
            store.wf(),
        ensures
            match r {
                Ok(v) => {
                    &&& strategy_type is Geographic
                    &&& v@ == spec_suggestions(*store, exchange1, exchange2)
                },
                Err(err) => {
                    &&& err is NotImplemented
                    &&& !(strategy_type is Geographic)
                },
            },
    {
        match strategy_type {
            ArbitrageType::Geographic => {},
            _ => {
                return Err(StoreError::NotImplemented);
            },
        }
        let pairs1 = MarketPairService::get_all_market_pairs_by_exchange(store, exchange1);
        let n = pairs1.len();
        let mut drafts: Vec<ArbitrageStrategy> = Vec::new();
        for i in 0..n
            invariant
                store.wf(),
                n == pairs1@.len(),
                pairs1@ == spec_pairs_by_exchange(*store, exchange1),
                drafts@ =~= suggestions_upto(*store, exchange1, exchange2, i as int),
        {
            let p1 = &pairs1[i];
            if let Some(p2) = Self::find_corresponding_pair(store, p1, exchange2) {
                if let Some(cp) = Self::find_conversion_pair(store, p1, &p2) {
                    proof {
                        lemma_by_exchange_ids(*store, exchange1, store.market_pairs@.len() as int);
                        lemma_by_exchange_ids(*store, exchange2, store.market_pairs@.len() as int);
                        let pairs2 = spec_pairs_by_exchange(*store, exchange2);
                        lemma_first_corresponding_member(pairs2, *p1, 0);
                        let q1 = spec_variants(p1.quote_asset.short_name@);
                        let q2 = spec_variants(p2.quote_asset.short_name@);
                        lemma_candidate_ids(*store, q1, q2, store.market_pairs@.len() as int);
                        lemma_best_is_member(spec_conversion_candidates(*store, q1, q2));
                    }
                    match (p1.id, p2.id, cp.id) {
                        (Some(a), Some(b), Some(c)) => {
                            let draft = ArbitrageStrategy {
                                id: None,
                                arbitrage_type: ArbitrageType::Geographic,
                                details: ArbitrageDetails::Geographic(
                                    GeographicArbitrage { pair1: a, pair2: b, conversion_pair: c },
                                ),
                                created_at: 0,
                                updated_at: 0,
                                status: true,
                            };
                            drafts.push(draft);
                        },
                        _ => {
                            proof {
                                assert(false);
                            }
                        },
                    }
                }
            }
        }
        Ok(drafts)
    }
}

/// The identifiers of the assets among the first `n` whose ticker is in
/// `syms`, in store order, leaving out unsaved records.
pub open spec fn spec_asset_ids_upto(store: Store, syms: Seq<Seq<char>>, n: int) -> Seq<RecordId>
    decreases n,
{
    if n <= 0 {
        Seq::empty()
    } else {
        spec_asset_ids_upto(store, syms, n - 1) + ({
            let a = store.assets@[n - 1];
            if syms.contains(a.short_name@) {
                match a.id {
                    Some(id) => seq![id],
                    None => Seq::<RecordId>::empty(),
                }
            } else {
                Seq::<RecordId>::empty()
            }
        })
    }
}

/// A found corresponding pair is a member of the listing searched.
pub proof fn lemma_first_corresponding_member(
    pairs: Seq<PopulatedMarketPair>,
    pair1: PopulatedMarketPair,
    i: int,
)
    requires
        0 <= i <= pairs.len(),
    ensures
        match first_corresponding_from(pairs, pair1, i) {
            Some(p) => exists|k: int| i <= k < pairs.len() && pairs[k] == p,
            None => true,
        },
    decreases pairs.len() - i,
{
    if i < pairs.len() && !matches_corresponding(pairs[i], pair1) {
        lemma_first_corresponding_member(pairs, pair1, i + 1);
    }
}

} // verus!
