use arbitrage_core::asset_service::AssetService;
use arbitrage_core::errors::StoreError;
use arbitrage_core::exchange_service::ExchangeService;
use arbitrage_core::market_pair_service::MarketPairService;
use arbitrage_core::record_id::RecordId;
use arbitrage_core::response::ApiResponse;
use arbitrage_core::schema::{Asset, Exchange, MarketPair};
use arbitrage_core::store::Store;

fn draft_exchange(name: &str) -> Exchange {
    Exchange {
        id: None,
        name: name.to_string(),
        short_name: name.to_string(),
        url: format!("https://{}.example", name),
        created_at: 0,
        updated_at: 0,
    }
}

fn draft_asset(exchange_id: RecordId, symbol: &str) -> Asset {
    Asset {
        id: None,
        exchange_id,
        name: symbol.to_string(),
        short_name: symbol.to_string(),
        created_at: 0,
        updated_at: 0,
        status: true,
    }
}

fn draft_pair(exchange_id: RecordId, base: RecordId, quote: RecordId) -> MarketPair {
    MarketPair {
        id: None,
        exchange_id,
        base_asset_id: base,
        quote_asset_id: quote,
        created_at: 0,
        updated_at: 0,
        status: true,
    }
}

#[test]
fn exchange_create_stamps_and_get_round_trips() {
    let mut store = Store::new();
    let created = ExchangeService::create_exchange(&mut store, draft_exchange("binance"), 42).unwrap();
    let id = created.id.unwrap();
    assert_eq!(created.created_at, 42);
    assert_eq!(created.updated_at, 42);
    let fetched = ExchangeService::get_exchange(&store, id).unwrap();
    assert_eq!(fetched.name, "binance");
    assert_eq!(fetched.created_at, 42);
}

#[test]
fn exchange_get_missing_is_not_found() {
    let store = Store::new();
    let err = ExchangeService::get_exchange(&store, RecordId { hi: 0, lo: 7 }).unwrap_err();
    assert!(matches!(err, StoreError::NotFound));
}

#[test]
fn exchange_update_keeps_creation_stamp() {
    let mut store = Store::new();
    let created = ExchangeService::create_exchange(&mut store, draft_exchange("kraken"), 10).unwrap();
    let id = created.id.unwrap();
    let updated =
        ExchangeService::update_exchange(&mut store, id, draft_exchange("kraken-eu"), 20).unwrap();
    assert_eq!(updated.name, "kraken-eu");
    assert_eq!(updated.created_at, 10);
    assert_eq!(updated.updated_at, 20);
    assert_eq!(updated.id, Some(id));
}

#[test]
fn exchange_delete_removes_and_tolerates_absence() {
    let mut store = Store::new();
    let created = ExchangeService::create_exchange(&mut store, draft_exchange("gone"), 5).unwrap();
    let id = created.id.unwrap();
    assert!(ExchangeService::delete_exchange(&mut store, id).is_ok());
    assert!(ExchangeService::get_exchange(&store, id).is_err());
    assert!(ExchangeService::delete_exchange(&mut store, id).is_ok());
    assert_eq!(ExchangeService::get_all_exchanges(&store).len(), 0);
}

#[test]
fn create_fails_when_identifiers_run_out() {
    let mut store = Store::new();
    store.next_seq = u64::MAX;
    let err = ExchangeService::create_exchange(&mut store, draft_exchange("late"), 1).unwrap_err();
    assert!(matches!(err, StoreError::PersistFailure));
}

#[test]
fn asset_crud_cycle() {
    let mut store = Store::new();
    let ex = ExchangeService::create_exchange(&mut store, draft_exchange("okx"), 1)
        .unwrap()
        .id
        .unwrap();
    let created = AssetService::create_asset(&mut store, draft_asset(ex, "BTC"), 2).unwrap();
    let id = created.id.unwrap();
    assert_eq!(AssetService::get_asset(&store, id).unwrap().short_name, "BTC");
    let mut replacement = draft_asset(ex, "WBTC");
    replacement.status = false;
    let updated = AssetService::update_asset(&mut store, id, replacement, 3).unwrap();
    assert_eq!(updated.short_name, "WBTC");
    assert_eq!(updated.created_at, 2);
    assert_eq!(updated.updated_at, 3);
    assert!(!updated.status);
    assert!(AssetService::delete_asset(&mut store, id).is_ok());
    assert!(AssetService::get_asset(&store, id).is_err());
}

#[test]
fn asset_listing_searches_case_insensitively_and_joins_exchange() {
    let mut store = Store::new();
    let ex = ExchangeService::create_exchange(&mut store, draft_exchange("gemini"), 1)
        .unwrap()
        .id
        .unwrap();
    AssetService::create_asset(&mut store, draft_asset(ex, "Bitcoin"), 1).unwrap();
    AssetService::create_asset(&mut store, draft_asset(ex, "Ethereum"), 1).unwrap();
    AssetService::create_asset(&mut store, draft_asset(ex, "bitcake"), 1).unwrap();
    let (rows, total) =
        AssetService::get_all_assets(&store, 1, 10, true, Some("BITC".to_string()));
    assert_eq!(total, 2);
    assert_eq!(rows.len(), 2);
    assert_eq!(rows[0].asset.short_name, "Bitcoin");
    assert_eq!(rows[1].asset.short_name, "bitcake");
    assert_eq!(rows[0].exchange.as_ref().unwrap().name, "gemini");
    let (bare, _) = AssetService::get_all_assets(&store, 1, 10, false, None);
    assert!(bare[0].exchange.is_none());
}

#[test]
fn asset_listing_pages_split_and_total_counts_all() {
    let mut store = Store::new();
    let ex = ExchangeService::create_exchange(&mut store, draft_exchange("bitstamp"), 1)
        .unwrap()
        .id
        .unwrap();
    for sym in ["A", "B", "C", "D", "E"] {
        AssetService::create_asset(&mut store, draft_asset(ex, sym), 1).unwrap();
    }
    let (page1, total1) = AssetService::get_all_assets(&store, 1, 2, false, None);
    let (page2, total2) = AssetService::get_all_assets(&store, 2, 2, false, None);
    let (page3, total3) = AssetService::get_all_assets(&store, 3, 2, false, None);
    let (page4, _) = AssetService::get_all_assets(&store, 4, 2, false, None);
    assert_eq!((total1, total2, total3), (5, 5, 5));
    assert_eq!(page1.len(), 2);
    assert_eq!(page2.len(), 2);
    assert_eq!(page3.len(), 1);
    assert_eq!(page4.len(), 0);
    assert_eq!(page1[0].asset.short_name, "A");
    assert_eq!(page2[0].asset.short_name, "C");
    assert_eq!(page3[0].asset.short_name, "E");
}

#[test]
fn market_pair_crud_and_resolution() {
    let mut store = Store::new();
    let ex = ExchangeService::create_exchange(&mut store, draft_exchange("bybit"), 1)
        .unwrap()
        .id
        .unwrap();
    let btc = AssetService::create_asset(&mut store, draft_asset(ex, "BTC"), 1)
        .unwrap()
        .id
        .unwrap();
    let usdt = AssetService::create_asset(&mut store, draft_asset(ex, "USDT"), 1)
        .unwrap()
        .id
        .unwrap();
    let pair = MarketPairService::create_market_pair(&mut store, draft_pair(ex, btc, usdt), 9)
        .unwrap();
    let pid = pair.id.unwrap();
    assert_eq!(pair.created_at, 9);
    let raw = MarketPairService::get_market_pair(&store, pid).unwrap();
    assert_eq!(raw.base_asset_id, btc);
    let populated = MarketPairService::resolve_market_pair(&store, pid).unwrap();
    assert_eq!(populated.base_asset.short_name, "BTC");
    assert_eq!(populated.quote_asset.short_name, "USDT");
    assert_eq!(populated.exchange.name, "bybit");
    assert!(MarketPairService::delete_market_pair(&mut store, pid).is_ok());
    assert!(MarketPairService::get_market_pair(&store, pid).is_err());
}

#[test]
fn market_pair_update_replaces_references_and_stamps() {
    let mut store = Store::new();
    let ex = ExchangeService::create_exchange(&mut store, draft_exchange("upd"), 1)
        .unwrap()
        .id
        .unwrap();
    let btc = AssetService::create_asset(&mut store, draft_asset(ex, "BTC"), 1)
        .unwrap()
        .id
        .unwrap();
    let usdt = AssetService::create_asset(&mut store, draft_asset(ex, "USDT"), 1)
        .unwrap()
        .id
        .unwrap();
    let eth = AssetService::create_asset(&mut store, draft_asset(ex, "ETH"), 1)
        .unwrap()
        .id
        .unwrap();
    let pair = MarketPairService::create_market_pair(&mut store, draft_pair(ex, btc, usdt), 7)
        .unwrap();
    let pid = pair.id.unwrap();
    let mut replacement = draft_pair(ex, eth, usdt);
    replacement.status = false;
    let updated =
        MarketPairService::update_market_pair(&mut store, pid, replacement, 8).unwrap();
    assert_eq!(updated.base_asset_id, eth);
    assert_eq!(updated.created_at, 7);
    assert_eq!(updated.updated_at, 8);
    assert!(!updated.status);
    assert_eq!(updated.id, Some(pid));
    let err = MarketPairService::update_market_pair(
        &mut store,
        RecordId { hi: 0, lo: 555 },
        draft_pair(ex, btc, usdt),
        9,
    )
    .unwrap_err();
    assert!(matches!(err, StoreError::NotFound));
}

#[test]
fn resolving_a_dangling_reference_is_not_found() {
    let mut store = Store::new();
    let ex = ExchangeService::create_exchange(&mut store, draft_exchange("luno"), 1)
        .unwrap()
        .id
        .unwrap();
    let ghost_asset = RecordId { hi: 9, lo: 9 };
    let pair =
        MarketPairService::create_market_pair(&mut store, draft_pair(ex, ghost_asset, ghost_asset), 1)
            .unwrap();
    let err = MarketPairService::resolve_market_pair(&store, pair.id.unwrap()).unwrap_err();
    assert!(matches!(err, StoreError::NotFound));
}

#[test]
fn pair_listing_filters_by_exchange_and_search() {
    let mut store = Store::new();
    let ex1 = ExchangeService::create_exchange(&mut store, draft_exchange("one"), 1)
        .unwrap()
        .id
        .unwrap();
    let ex2 = ExchangeService::create_exchange(&mut store, draft_exchange("two"), 1)
        .unwrap()
        .id
        .unwrap();
    let btc = AssetService::create_asset(&mut store, draft_asset(ex1, "BTC"), 1)
        .unwrap()
        .id
        .unwrap();
    let usdt = AssetService::create_asset(&mut store, draft_asset(ex1, "USDT"), 1)
        .unwrap()
        .id
        .unwrap();
    let eth = AssetService::create_asset(&mut store, draft_asset(ex2, "ETH"), 1)
        .unwrap()
        .id
        .unwrap();
    MarketPairService::create_market_pair(&mut store, draft_pair(ex1, btc, usdt), 1).unwrap();
    MarketPairService::create_market_pair(&mut store, draft_pair(ex2, eth, usdt), 1).unwrap();
    let (all, total_all) =
        MarketPairService::get_all_market_pairs_with_pagination(&store, 1, 10, None, None);
    assert_eq!((all.len(), total_all), (2, 2));
    let (one, total_one) = MarketPairService::get_all_market_pairs_with_pagination(
        &store,
        1,
        10,
        Some(ex1.to_hex()),
        None,
    );
    assert_eq!((one.len(), total_one), (1, 1));
    assert_eq!(one[0].base_asset.short_name, "BTC");
    let (searched, total_searched) = MarketPairService::get_all_market_pairs_with_pagination(
        &store,
        1,
        10,
        None,
        Some("et".to_string()),
    );
    assert_eq!(total_searched, 1);
    assert_eq!(searched[0].base_asset.short_name, "ETH");
    let (unfiltered, _) = MarketPairService::get_all_market_pairs_with_pagination(
        &store,
        1,
        10,
        Some("not-a-hex-id".to_string()),
        Some(String::new()),
    );
    assert_eq!(unfiltered.len(), 2);
}

#[test]
fn pairs_by_exchange_skips_broken_joins() {
    let mut store = Store::new();
    let ex = ExchangeService::create_exchange(&mut store, draft_exchange("solo"), 1)
        .unwrap()
        .id
        .unwrap();
    let btc = AssetService::create_asset(&mut store, draft_asset(ex, "BTC"), 1)
        .unwrap()
        .id
        .unwrap();
    let usdt = AssetService::create_asset(&mut store, draft_asset(ex, "USDT"), 1)
        .unwrap()
        .id
        .unwrap();
    MarketPairService::create_market_pair(&mut store, draft_pair(ex, btc, usdt), 1).unwrap();
    MarketPairService::create_market_pair(
        &mut store,
        draft_pair(ex, btc, RecordId { hi: 1, lo: 1 }),
        1,
    )
    .unwrap();
    let listed = MarketPairService::get_all_market_pairs_by_exchange(&store, ex);
    assert_eq!(listed.len(), 1);
    assert_eq!(listed[0].quote_asset.short_name, "USDT");
}

#[test]
fn conversion_pairs_bridge_quotes_in_either_direction() {
    let mut store = Store::new();
    let ex = ExchangeService::create_exchange(&mut store, draft_exchange("hub"), 1)
        .unwrap()
        .id
        .unwrap();
    let btc = AssetService::create_asset(&mut store, draft_asset(ex, "BTC"), 1)
        .unwrap()
        .id
        .unwrap();
    let usdt = AssetService::create_asset(&mut store, draft_asset(ex, "USDT"), 1)
        .unwrap()
        .id
        .unwrap();
    let usdc = AssetService::create_asset(&mut store, draft_asset(ex, "USDC"), 1)
        .unwrap()
        .id
        .unwrap();
    let p1 = MarketPairService::create_market_pair(&mut store, draft_pair(ex, btc, usdt), 1)
        .unwrap()
        .id
        .unwrap();
    let p2 = MarketPairService::create_market_pair(&mut store, draft_pair(ex, btc, usdc), 1)
        .unwrap()
        .id
        .unwrap();
    let bridge = MarketPairService::create_market_pair(&mut store, draft_pair(ex, usdc, usdt), 1)
        .unwrap()
        .id
        .unwrap();
    let found = MarketPairService::get_conversion_pairs(&store, p1, p2).unwrap();
    assert_eq!(found.len(), 1);
    assert_eq!(found[0].id, Some(bridge));
    let missing =
        MarketPairService::get_conversion_pairs(&store, p1, RecordId { hi: 0, lo: 999 });
    assert!(matches!(missing.unwrap_err(), StoreError::NotFound));
}

#[test]
fn conversion_pairs_for_arbitrage_use_equivalence_classes() {
    let mut store = Store::new();
    let ex = ExchangeService::create_exchange(&mut store, draft_exchange("mix"), 1)
        .unwrap()
        .id
        .unwrap();
    let dai = AssetService::create_asset(&mut store, draft_asset(ex, "DAI"), 1)
        .unwrap()
        .id
        .unwrap();
    let eurs = AssetService::create_asset(&mut store, draft_asset(ex, "EURS"), 1)
        .unwrap()
        .id
        .unwrap();
    let wbtc = AssetService::create_asset(&mut store, draft_asset(ex, "WBTC"), 1)
        .unwrap()
        .id
        .unwrap();
    let eth = AssetService::create_asset(&mut store, draft_asset(ex, "ETH"), 1)
        .unwrap()
        .id
        .unwrap();
    MarketPairService::create_market_pair(&mut store, draft_pair(ex, dai, eurs), 1).unwrap();
    MarketPairService::create_market_pair(&mut store, draft_pair(ex, wbtc, eth), 1).unwrap();
    let found = MarketPairService::get_conversion_pairs_for_arbitrage(&store, "USDT", "EUR");
    assert_eq!(found.len(), 1);
    assert_eq!(found[0].base_asset.short_name, "DAI");
}

#[test]
fn record_id_hex_round_trips() {
    let id = RecordId { hi: 0x0102_0304, lo: 0xa1b2_c3d4_e5f6_0708 };
    let hex = id.to_hex();
    assert_eq!(hex.len(), 24);
    assert_eq!(hex, "01020304a1b2c3d4e5f60708");
    assert_eq!(RecordId::parse_hex(&hex), Some(id));
    assert_eq!(RecordId::parse_hex("01020304A1B2C3D4E5F60708"), Some(id));
}

#[test]
fn record_id_parse_rejects_malformed_input() {
    assert_eq!(RecordId::parse_hex(""), None);
    assert_eq!(RecordId::parse_hex("0102"), None);
    assert_eq!(RecordId::parse_hex("01020304a1b2c3d4e5f6070z"), None);
    assert_eq!(RecordId::parse_hex("01020304a1b2c3d4e5f607081"), None);
}

#[test]
fn record_id_zero_is_invalid() {
    assert!(!RecordId { hi: 0, lo: 0 }.is_valid());
    assert!(RecordId { hi: 0, lo: 1 }.is_valid());
    assert!(RecordId { hi: 1, lo: 0 }.is_valid());
}

#[test]
fn errors_map_to_statuses_and_messages() {
    assert_eq!(StoreError::NotFound.status_code(), 404);
    assert_eq!(StoreError::InvalidReference.status_code(), 400);
    assert_eq!(StoreError::DuplicatePair.status_code(), 400);
    assert_eq!(StoreError::NotImplemented.status_code(), 400);
    assert_eq!(StoreError::PersistFailure.status_code(), 400);
    assert_eq!(StoreError::DuplicatePair.message(), "All pairs must be different");
    assert_eq!(StoreError::NotFound.message(), "Record not found");
}

#[test]
fn api_response_envelopes() {
    let ok: ApiResponse<u32> = ApiResponse::success("stored", 7);
    assert_eq!(ok.message, "stored");
    assert_eq!(ok.data, Some(7));
    let bad: ApiResponse<u32> = ApiResponse::error("rejected");
    assert_eq!(bad.message, "rejected");
    assert!(bad.data.is_none());
}
