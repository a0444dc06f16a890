use arbitrage_core::asset_service::AssetService;
use arbitrage_core::equivalence::variants_of;
use arbitrage_core::errors::StoreError;
use arbitrage_core::exchange_service::ExchangeService;
use arbitrage_core::market_pair_service::MarketPairService;
use arbitrage_core::record_id::RecordId;
use arbitrage_core::schema::{Asset, Exchange, MarketPair, PopulatedMarketPair};
use arbitrage_core::store::Store;
use arbitrage_core::strategy::{
    ArbitrageDetails, ArbitrageStrategy, ArbitrageType, ExchangeArbitrage, GeographicArbitrage,
    PopulatedArbitrageDetails, TriangularArbitrage, TradingPairArbitrage,
};
use arbitrage_core::strategy_service::ArbitrageStrategyService;
use arbitrage_core::suggestion::SuggestedArbitrageStrategyService;
use arbitrage_core::validator::validate;

fn rid(lo: u64) -> RecordId {
    RecordId { hi: 0, lo }
}

fn seed_exchange(store: &mut Store, name: &str) -> RecordId {
    let e = Exchange {
        id: None,
        name: name.to_string(),
        short_name: name.to_string(),
        url: String::new(),
        created_at: 0,
        updated_at: 0,
    };
    ExchangeService::create_exchange(store, e, 100).unwrap().id.unwrap()
}

fn seed_asset(store: &mut Store, exchange_id: RecordId, symbol: &str) -> RecordId {
    let a = Asset {
        id: None,
        exchange_id,
        name: symbol.to_string(),
        short_name: symbol.to_string(),
        created_at: 0,
        updated_at: 0,
        status: true,
    };
    AssetService::create_asset(store, a, 100).unwrap().id.unwrap()
}

fn seed_pair(store: &mut Store, exchange_id: RecordId, base: RecordId, quote: RecordId) -> RecordId {
    let p = MarketPair {
        id: None,
        exchange_id,
        base_asset_id: base,
        quote_asset_id: quote,
        created_at: 0,
        updated_at: 0,
        status: true,
    };
    MarketPairService::create_market_pair(store, p, 100).unwrap().id.unwrap()
}

fn geographic(p1: RecordId, p2: RecordId, cp: RecordId) -> ArbitrageDetails {
    ArbitrageDetails::Geographic(GeographicArbitrage { pair1: p1, pair2: p2, conversion_pair: cp })
}

fn draft_strategy(details: ArbitrageDetails, kind: ArbitrageType) -> ArbitrageStrategy {
    ArbitrageStrategy {
        id: None,
        arbitrage_type: kind,
        details,
        created_at: 0,
        updated_at: 0,
        status: true,
    }
}

#[test]
fn validate_accepts_valid_geographic_payload() {
    let details = geographic(rid(1), rid(2), rid(3));
    assert!(validate(&details).is_ok());
}

#[test]
fn validate_rejects_zero_reference() {
    let details = geographic(rid(1), RecordId { hi: 0, lo: 0 }, rid(3));
    assert!(matches!(validate(&details).unwrap_err(), StoreError::InvalidReference));
}

#[test]
fn validate_rejects_duplicate_triangular_pairs() {
    let dup = ArbitrageDetails::Triangular(TriangularArbitrage {
        pair1: rid(1),
        pair2: rid(2),
        pair3: rid(1),
    });
    assert!(matches!(validate(&dup).unwrap_err(), StoreError::DuplicatePair));
    let ok = ArbitrageDetails::Triangular(TriangularArbitrage {
        pair1: rid(1),
        pair2: rid(2),
        pair3: rid(3),
    });
    assert!(validate(&ok).is_ok());
}

#[test]
fn validate_rejects_duplicate_trading_pair_payload() {
    let dup = ArbitrageDetails::TradingPair(TradingPairArbitrage {
        pair1: rid(4),
        pair2: rid(4),
        pair3: rid(5),
    });
    assert!(matches!(validate(&dup).unwrap_err(), StoreError::DuplicatePair));
}

#[test]
fn validate_allows_repeated_pairs_in_two_pair_shapes() {
    let details = ArbitrageDetails::Exchange(ExchangeArbitrage { pair1: rid(6), pair2: rid(6) });
    assert!(validate(&details).is_ok());
    let geo = geographic(rid(7), rid(7), rid(7));
    assert!(validate(&geo).is_ok());
}

#[test]
fn validate_reports_invalid_reference_before_duplicates() {
    let both = ArbitrageDetails::Triangular(TriangularArbitrage {
        pair1: RecordId { hi: 0, lo: 0 },
        pair2: rid(2),
        pair3: rid(2),
    });
    assert!(matches!(validate(&both).unwrap_err(), StoreError::InvalidReference));
}

#[test]
fn variants_broaden_to_the_whole_class() {
    let usdt = variants_of("USDT");
    for member in ["USD", "USDT", "USDC", "BUSD", "DAI", "TUSD", "USDP", "GUSD", "FDUSD"] {
        assert!(usdt.iter().any(|s| s.as_str() == member), "missing {member}");
    }
    assert_eq!(usdt.len(), 9);
    let usd = variants_of("USD");
    assert_eq!(usd, usdt);
    let eurs = variants_of("EURS");
    for member in ["EUR", "EURS", "EURT", "SEUR", "CEUR", "EURE", "JEUR"] {
        assert!(eurs.iter().any(|s| s.as_str() == member), "missing {member}");
    }
    assert_eq!(eurs.len(), 7);
}

#[test]
fn variants_of_unclassified_symbol_is_the_singleton() {
    let xyz = variants_of("XYZ");
    assert_eq!(xyz, vec!["XYZ".to_string()]);
}

#[test]
fn strategy_create_validates_and_get_round_trips() {
    let mut store = Store::new();
    let strategy = draft_strategy(geographic(rid(1), rid(2), rid(3)), ArbitrageType::Geographic);
    let created =
        ArbitrageStrategyService::create_arbitrage_strategy_at(&mut store, strategy, 777).unwrap();
    let id = created.id.unwrap();
    assert_eq!(created.created_at, 777);
    assert_eq!(created.updated_at, 777);
    assert_ne!(created.created_at, 0);
    let fetched = ArbitrageStrategyService::get_arbitrage_strategy(&store, id).unwrap();
    assert_eq!(fetched.arbitrage_type, created.arbitrage_type);
    assert_eq!(fetched.details, created.details);
    assert_eq!(fetched, created);
}

#[test]
fn strategy_create_with_clock_stamps_nonnegative_equal_times() {
    let mut store = Store::new();
    let strategy = draft_strategy(geographic(rid(1), rid(2), rid(3)), ArbitrageType::Geographic);
    let created = ArbitrageStrategyService::create_arbitrage_strategy(&mut store, strategy).unwrap();
    assert!(created.created_at >= 0);
    assert_eq!(created.created_at, created.updated_at);
}

#[test]
fn strategy_create_rejects_bad_payloads() {
    let mut store = Store::new();
    let invalid = draft_strategy(
        geographic(RecordId { hi: 0, lo: 0 }, rid(2), rid(3)),
        ArbitrageType::Geographic,
    );
    let err =
        ArbitrageStrategyService::create_arbitrage_strategy_at(&mut store, invalid, 1).unwrap_err();
    assert!(matches!(err, StoreError::InvalidReference));
    let dup = draft_strategy(
        ArbitrageDetails::Triangular(TriangularArbitrage {
            pair1: rid(1),
            pair2: rid(1),
            pair3: rid(2),
        }),
        ArbitrageType::Triangular,
    );
    let err =
        ArbitrageStrategyService::create_arbitrage_strategy_at(&mut store, dup, 1).unwrap_err();
    assert!(matches!(err, StoreError::DuplicatePair));
    assert_eq!(store.strategies.len(), 0);
}

#[test]
fn strategy_update_replaces_document_and_revalidates() {
    let mut store = Store::new();
    let created = ArbitrageStrategyService::create_arbitrage_strategy_at(
        &mut store,
        draft_strategy(geographic(rid(1), rid(2), rid(3)), ArbitrageType::Geographic),
        10,
    )
    .unwrap();
    let id = created.id.unwrap();
    let mut replacement = draft_strategy(
        ArbitrageDetails::Exchange(ExchangeArbitrage { pair1: rid(8), pair2: rid(9) }),
        ArbitrageType::Exchange,
    );
    replacement.status = false;
    let updated =
        ArbitrageStrategyService::update_arbitrage_strategy_at(&mut store, id, replacement, 20)
            .unwrap();
    assert_eq!(updated.arbitrage_type, ArbitrageType::Exchange);
    assert_eq!(updated.created_at, 10);
    assert_eq!(updated.updated_at, 20);
    assert!(!updated.status);
    let bad = draft_strategy(
        ArbitrageDetails::Triangular(TriangularArbitrage {
            pair1: rid(1),
            pair2: rid(1),
            pair3: rid(1),
        }),
        ArbitrageType::Triangular,
    );
    let err = ArbitrageStrategyService::update_arbitrage_strategy_at(&mut store, id, bad, 30)
        .unwrap_err();
    assert!(matches!(err, StoreError::DuplicatePair));
    let missing = draft_strategy(geographic(rid(1), rid(2), rid(3)), ArbitrageType::Geographic);
    let err =
        ArbitrageStrategyService::update_arbitrage_strategy_at(&mut store, rid(999), missing, 30)
            .unwrap_err();
    assert!(matches!(err, StoreError::NotFound));
}

#[test]
fn strategy_delete_removes_record() {
    let mut store = Store::new();
    let created = ArbitrageStrategyService::create_arbitrage_strategy_at(
        &mut store,
        draft_strategy(geographic(rid(1), rid(2), rid(3)), ArbitrageType::Geographic),
        1,
    )
    .unwrap();
    let id = created.id.unwrap();
    assert!(ArbitrageStrategyService::delete_arbitrage_strategy(&mut store, id).is_ok());
    assert!(ArbitrageStrategyService::get_arbitrage_strategy(&store, id).is_err());
}

/// A store with one exchange, three assets, three fully resolvable pairs,
/// and the identifiers of those pairs.
fn populated_world() -> (Store, RecordId, RecordId, RecordId) {
    let mut store = Store::new();
    let ex = seed_exchange(&mut store, "main");
    let btc = seed_asset(&mut store, ex, "BTC");
    let usdt = seed_asset(&mut store, ex, "USDT");
    let usdc = seed_asset(&mut store, ex, "USDC");
    let p1 = seed_pair(&mut store, ex, btc, usdt);
    let p2 = seed_pair(&mut store, ex, btc, usdc);
    let cp = seed_pair(&mut store, ex, usdt, usdc);
    (store, p1, p2, cp)
}

#[test]
fn listing_populates_by_variant_shape_and_skips_unresolvable() {
    let (mut store, p1, p2, cp) = populated_world();
    ArbitrageStrategyService::create_arbitrage_strategy_at(
        &mut store,
        draft_strategy(geographic(p1, p2, cp), ArbitrageType::Geographic),
        1,
    )
    .unwrap();
    ArbitrageStrategyService::create_arbitrage_strategy_at(
        &mut store,
        draft_strategy(
            geographic(p1, p2, rid(424242)),
            ArbitrageType::Geographic,
        ),
        1,
    )
    .unwrap();
    let (rows, total) =
        ArbitrageStrategyService::get_all_arbitrage_strategies(&store, 1, 10, None);
    assert_eq!(total, 2);
    assert_eq!(rows.len(), 1);
    match &rows[0].details {
        PopulatedArbitrageDetails::Geographic { pair1, pair2, conversion_pair } => {
            assert_eq!(pair1.base_asset.short_name, "BTC");
            assert_eq!(pair1.quote_asset.short_name, "USDT");
            assert_eq!(pair2.quote_asset.short_name, "USDC");
            assert_eq!(conversion_pair.base_asset.short_name, "USDT");
        },
        other => panic!("unexpected payload shape: {other:?}"),
    }
}

#[test]
fn listing_filters_by_kind_and_counts_under_the_same_filter() {
    let (mut store, p1, p2, cp) = populated_world();
    ArbitrageStrategyService::create_arbitrage_strategy_at(
        &mut store,
        draft_strategy(geographic(p1, p2, cp), ArbitrageType::Geographic),
        1,
    )
    .unwrap();
    ArbitrageStrategyService::create_arbitrage_strategy_at(
        &mut store,
        draft_strategy(
            ArbitrageDetails::Exchange(ExchangeArbitrage { pair1: p1, pair2: p2 }),
            ArbitrageType::Exchange,
        ),
        1,
    )
    .unwrap();
    let (rows, total) = ArbitrageStrategyService::get_all_arbitrage_strategies(
        &store,
        1,
        10,
        Some(ArbitrageType::Exchange),
    );
    assert_eq!(total, 1);
    assert_eq!(rows.len(), 1);
    assert_eq!(rows[0].arbitrage_type, ArbitrageType::Exchange);
}

#[test]
fn listing_pages_never_repeat_a_strategy() {
    let (mut store, p1, p2, cp) = populated_world();
    for _ in 0..5 {
        ArbitrageStrategyService::create_arbitrage_strategy_at(
            &mut store,
            draft_strategy(geographic(p1, p2, cp), ArbitrageType::Geographic),
            1,
        )
        .unwrap();
    }
    let mut seen: Vec<RecordId> = Vec::new();
    for page in 1..=4u64 {
        let (rows, total) =
            ArbitrageStrategyService::get_all_arbitrage_strategies(&store, page, 2, None);
        assert_eq!(total, 5);
        for row in &rows {
            assert!(!seen.contains(&row.id), "page {page} repeated {:?}", row.id);
            seen.push(row.id);
        }
    }
    assert_eq!(seen.len(), 5);
}

#[test]
fn suggestion_emits_one_geographic_draft_for_a_matched_triple() {
    let mut store = Store::new();
    let ex_a = seed_exchange(&mut store, "alpha");
    let ex_b = seed_exchange(&mut store, "beta");
    let btc_a = seed_asset(&mut store, ex_a, "BTC");
    let usdt_a = seed_asset(&mut store, ex_a, "USDT");
    let usdc_a = seed_asset(&mut store, ex_a, "USDC");
    let btc_b = seed_asset(&mut store, ex_b, "BTC");
    let usdc_b = seed_asset(&mut store, ex_b, "USDC");
    let pair_a = seed_pair(&mut store, ex_a, btc_a, usdt_a);
    let pair_b = seed_pair(&mut store, ex_b, btc_b, usdc_b);
    let conversion = seed_pair(&mut store, ex_a, usdt_a, usdc_a);
    let drafts = SuggestedArbitrageStrategyService::get_suggested_strategies(
        &store,
        ex_a,
        ex_b,
        ArbitrageType::Geographic,
    )
    .unwrap();
    assert_eq!(drafts.len(), 1);
    let draft = &drafts[0];
    assert_eq!(draft.id, None);
    assert_eq!(draft.arbitrage_type, ArbitrageType::Geographic);
    assert_eq!(draft.created_at, 0);
    assert_eq!(draft.updated_at, 0);
    assert!(draft.status);
    match &draft.details {
        ArbitrageDetails::Geographic(g) => {
            assert_eq!(g.pair1, pair_a);
            assert_eq!(g.pair2, pair_b);
            assert_eq!(g.conversion_pair, conversion);
        },
        other => panic!("unexpected payload shape: {other:?}"),
    }
}

#[test]
fn suggestion_returns_no_drafts_without_a_matching_base() {
    let mut store = Store::new();
    let ex_a = seed_exchange(&mut store, "alpha");
    let ex_b = seed_exchange(&mut store, "beta");
    let btc_a = seed_asset(&mut store, ex_a, "BTC");
    let usdt_a = seed_asset(&mut store, ex_a, "USDT");
    let eth_b = seed_asset(&mut store, ex_b, "ETH");
    let usdc_b = seed_asset(&mut store, ex_b, "USDC");
    seed_pair(&mut store, ex_a, btc_a, usdt_a);
    seed_pair(&mut store, ex_b, eth_b, usdc_b);
    let drafts = SuggestedArbitrageStrategyService::get_suggested_strategies(
        &store,
        ex_a,
        ex_b,
        ArbitrageType::Geographic,
    )
    .unwrap();
    assert_eq!(drafts.len(), 0);
}

#[test]
fn suggestion_refuses_other_strategy_kinds() {
    let store = Store::new();
    for kind in [ArbitrageType::Exchange, ArbitrageType::Triangular, ArbitrageType::TradingPair] {
        let err = SuggestedArbitrageStrategyService::get_suggested_strategies(
            &store,
            rid(1),
            rid(2),
            kind,
        )
        .unwrap_err();
        assert!(matches!(err, StoreError::NotImplemented));
    }
}

/// A populated pair holding only what conversion lookup reads: the quote
/// ticker.
fn quote_probe(store: &Store, symbol: &str) -> PopulatedMarketPair {
    let exchange = store.exchanges[0].clone();
    let asset = Asset {
        id: Some(rid(9999)),
        exchange_id: exchange.id.unwrap(),
        name: symbol.to_string(),
        short_name: symbol.to_string(),
        created_at: 0,
        updated_at: 0,
        status: true,
    };
    PopulatedMarketPair {
        id: Some(rid(9998)),
        exchange,
        base_asset: asset.clone(),
        quote_asset: asset,
        created_at: 0,
        updated_at: 0,
        status: true,
    }
}

#[test]
fn conversion_pair_selection_prefers_bare_fiat() {
    let mut store = Store::new();
    let ex = seed_exchange(&mut store, "prio");
    let eur = seed_asset(&mut store, ex, "EUR");
    let eurs = seed_asset(&mut store, ex, "EURS");
    let seur = seed_asset(&mut store, ex, "SEUR");
    let ceur = seed_asset(&mut store, ex, "CEUR");
    let plain = seed_pair(&mut store, ex, seur, ceur);
    let fiat = seed_pair(&mut store, ex, eur, eurs);
    let p1 = quote_probe(&store, "EURS");
    let p2 = quote_probe(&store, "EURT");
    let best = SuggestedArbitrageStrategyService::find_conversion_pair(&store, &p1, &p2).unwrap();
    assert_eq!(best.id, Some(fiat));
    assert_ne!(best.id, Some(plain));
}

#[test]
fn conversion_pair_selection_breaks_ties_by_store_order() {
    let mut store = Store::new();
    let ex = seed_exchange(&mut store, "ties");
    let seur = seed_asset(&mut store, ex, "SEUR");
    let ceur = seed_asset(&mut store, ex, "CEUR");
    let jeur = seed_asset(&mut store, ex, "JEUR");
    let first = seed_pair(&mut store, ex, seur, ceur);
    seed_pair(&mut store, ex, jeur, ceur);
    let p1 = quote_probe(&store, "EURS");
    let p2 = quote_probe(&store, "EURT");
    let best = SuggestedArbitrageStrategyService::find_conversion_pair(&store, &p1, &p2).unwrap();
    assert_eq!(best.id, Some(first));
}

#[test]
fn conversion_pair_selection_finds_nothing_without_candidates() {
    let mut store = Store::new();
    let ex = seed_exchange(&mut store, "empty");
    let btc = seed_asset(&mut store, ex, "BTC");
    let eth = seed_asset(&mut store, ex, "ETH");
    seed_pair(&mut store, ex, btc, eth);
    let p1 = quote_probe(&store, "USDT");
    let p2 = quote_probe(&store, "USDC");
    assert!(SuggestedArbitrageStrategyService::find_conversion_pair(&store, &p1, &p2).is_none());
}

#[test]
fn asset_ids_collect_matching_tickers() {
    let mut store = Store::new();
    let ex = seed_exchange(&mut store, "ids");
    let usdt = seed_asset(&mut store, ex, "USDT");
    seed_asset(&mut store, ex, "BTC");
    let usd = seed_asset(&mut store, ex, "USD");
    let ids = SuggestedArbitrageStrategyService::get_asset_ids(&store, &variants_of("USDT"));
    assert_eq!(ids, vec![usdt, usd]);
}
