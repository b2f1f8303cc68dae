use ofi_engine_rust::config::OFIConfig;
use ofi_engine_rust::data::{OrderBookLevel, OrderBookSnapshot, OrderBookStorage, TradeData, TradeStorage};
use ofi_engine_rust::decimal::Decimal;

fn amount(text: &str) -> Decimal {
    Decimal::parse(text).expect("a decimal numeral")
}

fn snapshot(symbol: &str, best_bid: &str, timestamp: u64) -> OrderBookSnapshot {
    OrderBookSnapshot {
        symbol: symbol.to_string(),
        bids: vec![OrderBookLevel { price: amount(best_bid), quantity: amount("1") }],
        asks: vec![],
        timestamp,
    }
}

fn fill(symbol: &str, timestamp: u64) -> TradeData {
    TradeData {
        symbol: symbol.to_string(),
        price: amount("10"),
        quantity: amount("1"),
        side: "buy".to_string(),
        timestamp,
    }
}

fn limited(limit: usize) -> OFIConfig {
    let mut config = OFIConfig::default();
    config.trade_storage_limit = limit;
    config
}

fn times(trades: &[TradeData]) -> Vec<u64> {
    trades.iter().map(|t| t.timestamp).collect()
}

#[test]
fn book_store_starts_empty() {
    let store = OrderBookStorage::new();
    assert!(store.get_order_book("BTCUSDT").is_none());
    assert!(store.get_order_book("").is_none());
}

#[test]
fn book_store_holds_the_latest_snapshot_of_each_symbol() {
    let mut store = OrderBookStorage::new();
    store.update_order_book(snapshot("BTCUSDT", "100", 1));
    store.update_order_book(snapshot("ETHUSDT", "20", 2));
    store.update_order_book(snapshot("BTCUSDT", "101", 3));
    store.update_order_book(snapshot("BTCUSDT", "102", 4));
    let btc = store.get_order_book("BTCUSDT").unwrap();
    assert_eq!(btc.timestamp, 4);
    assert_eq!(btc.bids[0].price, amount("102"));
    assert_eq!(btc.symbol, "BTCUSDT");
    let eth = store.get_order_book("ETHUSDT").unwrap();
    assert_eq!(eth.timestamp, 2);
    assert_eq!(eth.bids[0].price, amount("20"));
    assert!(store.get_order_book("SOLUSDT").is_none());
    assert!(store.get_order_book("BTCUSD").is_none());
}

#[test]
fn snapshot_clone_and_default() {
    let first = snapshot("BTCUSDT", "100", 9);
    let copy = first.clone();
    assert_eq!(copy.symbol, "BTCUSDT");
    assert_eq!(copy.bids, first.bids);
    assert_eq!(copy.asks, first.asks);
    assert_eq!(copy.timestamp, 9);
    let blank = OrderBookSnapshot::default();
    assert_eq!(blank.symbol, "");
    assert!(blank.bids.is_empty() && blank.asks.is_empty());
    assert_eq!(blank.timestamp, 0);
}

#[test]
fn trade_store_keeps_arrival_order() {
    let mut store = TradeStorage::new();
    let config = limited(10);
    assert!(store.get_trades("BTCUSDT").is_none());
    for t in 1..=4u64 {
        store.add_trade(fill("BTCUSDT", t), &config);
    }
    assert_eq!(times(store.get_trades("BTCUSDT").unwrap()), vec![1, 2, 3, 4]);
    assert!(store.get_trades("ETHUSDT").is_none());
}

#[test]
fn trade_store_holds_the_newest_trades_up_to_the_limit() {
    let mut store = TradeStorage::new();
    let config = limited(3);
    for t in 1..=7u64 {
        store.add_trade(fill("BTCUSDT", t), &config);
        let held = store.get_trades("BTCUSDT").unwrap();
        assert_eq!(held.len() as u64, t.min(3));
    }
    assert_eq!(times(store.get_trades("BTCUSDT").unwrap()), vec![5, 6, 7]);
}

#[test]
fn trade_store_keeps_symbols_apart() {
    let mut store = TradeStorage::new();
    let config = limited(2);
    store.add_trade(fill("BTCUSDT", 1), &config);
    store.add_trade(fill("ETHUSDT", 2), &config);
    store.add_trade(fill("BTCUSDT", 3), &config);
    store.add_trade(fill("ETHUSDT", 4), &config);
    store.add_trade(fill("BTCUSDT", 5), &config);
    assert_eq!(times(store.get_trades("BTCUSDT").unwrap()), vec![3, 5]);
    assert_eq!(times(store.get_trades("ETHUSDT").unwrap()), vec![2, 4]);
}

#[test]
fn trade_store_with_limit_zero_keeps_nothing() {
    let mut store = TradeStorage::new();
    let config = limited(0);
    store.add_trade(fill("BTCUSDT", 1), &config);
    assert_eq!(store.get_trades("BTCUSDT").unwrap().len(), 0);
    assert!(store.get_recent_trades("BTCUSDT", 5).is_empty());
}

#[test]
fn trade_store_shrinks_to_a_lowered_limit() {
    let mut store = TradeStorage::new();
    for t in 1..=5u64 {
        store.add_trade(fill("BTCUSDT", t), &limited(10));
    }
    store.add_trade(fill("BTCUSDT", 6), &limited(2));
    assert_eq!(times(store.get_trades("BTCUSDT").unwrap()), vec![5, 6]);
}

#[test]
fn recent_trades_come_newest_first() {
    let mut store = TradeStorage::new();
    let config = limited(10);
    for t in 1..=5u64 {
        store.add_trade(fill("BTCUSDT", t), &config);
    }
    let recent: Vec<u64> = store.get_recent_trades("BTCUSDT", 3).iter().map(|t| t.timestamp).collect();
    assert_eq!(recent, vec![5, 4, 3]);
    let all: Vec<u64> = store.get_recent_trades("BTCUSDT", 100).iter().map(|t| t.timestamp).collect();
    assert_eq!(all, vec![5, 4, 3, 2, 1]);
    assert!(store.get_recent_trades("BTCUSDT", 0).is_empty());
    assert!(store.get_recent_trades("ETHUSDT", 3).is_empty());
}

#[test]
fn trade_clone_keeps_every_field() {
    let first = fill("BTCUSDT", 42);
    let copy = first.clone();
    assert_eq!(copy.symbol, first.symbol);
    assert_eq!(copy.price, first.price);
    assert_eq!(copy.quantity, first.quantity);
    assert_eq!(copy.side, first.side);
    assert_eq!(copy.timestamp, 42);
}
