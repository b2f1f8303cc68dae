use ofi_engine_rust::data::{OrderBookLevel, OrderBookSnapshot, TradeData};
use ofi_engine_rust::decimal::{Decimal, Ratio};
use ofi_engine_rust::ofi::{
    absorption_at, calculate_ofi_metrics, detect_absorption, detect_stacked_imbalances, OFIMetrics,
};
use ofi_engine_rust::signals::{SignalType, StrategyParams};

fn num(text: &str) -> Decimal {
    Decimal::parse(text).expect("a decimal numeral")
}

fn side(levels: &[(&str, &str)]) -> Vec<OrderBookLevel> {
    levels.iter().map(|(p, q)| OrderBookLevel { price: num(p), quantity: num(q) }).collect()
}

fn book_of(bids: &[(&str, &str)], asks: &[(&str, &str)], timestamp: u64) -> OrderBookSnapshot {
    OrderBookSnapshot { symbol: "ETHUSDT".to_string(), bids: side(bids), asks: side(asks), timestamp }
}

fn deal(side: &str, price: &str, quantity: &str, timestamp: u64) -> TradeData {
    TradeData {
        symbol: "ETHUSDT".to_string(),
        price: num(price),
        quantity: num(quantity),
        side: side.to_string(),
        timestamp,
    }
}

fn metrics(book: &OrderBookSnapshot, trades: &[TradeData], lookback: u64) -> OFIMetrics {
    let refs: Vec<&TradeData> = trades.iter().collect();
    calculate_ofi_metrics(book, &refs, lookback)
}

/// Whole units as a count of units of 10^-16.
fn units(n: i128) -> i128 {
    n * 10_000_000_000_000_000
}

fn ratio(text: &str) -> Ratio {
    Ratio::from_decimal(num(text))
}

#[test]
fn delta_is_buys_minus_sells_in_the_window() {
    let book = book_of(&[("10", "1")], &[("11", "1")], 10_000);
    let trades = [
        deal("buy", "10", "3", 9_500),
        deal("sell", "10", "1", 9_600),
        deal("buy", "2.5", "4", 9_700),
        deal("sell", "100", "5", 8_999),
        deal("buy", "100", "7", 100),
    ];
    let m = metrics(&book, &trades, 1_000);
    // window starts at 9000: 30 - 10 + 10
    assert_eq!(m.delta, units(30));
    // all trades: 30 - 10 + 10 - 500 + 700
    assert_eq!(m.cumulative_delta, units(230));
    assert_eq!(m.timestamp, 10_000);
    assert_eq!(m.symbol, "ETHUSDT");
}

#[test]
fn window_includes_its_start() {
    let book = book_of(&[("10", "1")], &[("11", "1")], 10_000);
    let at_start = [deal("buy", "1", "1", 9_000)];
    let before = [deal("buy", "1", "1", 8_999)];
    assert_eq!(metrics(&book, &at_start, 1_000).delta, units(1));
    assert_eq!(metrics(&book, &before, 1_000).delta, 0);
    assert_eq!(metrics(&book, &before, 1_000).cumulative_delta, units(1));
}

#[test]
fn window_start_does_not_go_below_zero() {
    let book = book_of(&[("10", "1")], &[("11", "1")], 500);
    let trades = [deal("sell", "2", "3", 0), deal("buy", "1", "1", 499)];
    let m = metrics(&book, &trades, 60_000);
    assert_eq!(m.delta, units(-5));
    assert_eq!(m.cumulative_delta, units(-5));
}

#[test]
fn delta_ignores_stale_trades() {
    let book = book_of(&[("10", "1")], &[("11", "1")], 10_000);
    let fresh = [deal("buy", "10", "3", 9_500), deal("sell", "10", "1", 9_600)];
    let with_stale = [
        deal("sell", "50", "50", 10),
        deal("buy", "10", "3", 9_500),
        deal("buy", "70", "70", 8_000),
        deal("sell", "10", "1", 9_600),
    ];
    assert_eq!(metrics(&book, &fresh, 1_000).delta, metrics(&book, &with_stale, 1_000).delta);
}

#[test]
fn metrics_are_the_same_for_the_same_inputs() {
    let book = book_of(&[("10", "1"), ("9", "2")], &[("11", "3")], 10_000);
    let trades = [deal("buy", "10", "3", 9_500), deal("sell", "10", "1", 9_600)];
    let a = metrics(&book, &trades, 1_000);
    let b = metrics(&book.clone(), &trades.clone(), 1_000);
    assert_eq!(a.delta, b.delta);
    assert_eq!(a.cumulative_delta, b.cumulative_delta);
    assert_eq!(a.buy_imbalance, b.buy_imbalance);
    assert_eq!(a.sell_imbalance, b.sell_imbalance);
    assert_eq!(a.timestamp, b.timestamp);
    assert_eq!(a.symbol, b.symbol);
    let c = a.clone();
    assert_eq!(c.delta, a.delta);
    assert_eq!(c.symbol, a.symbol);
}

#[test]
fn a_side_that_is_neither_buy_nor_sell_does_not_count() {
    let book = book_of(&[("10", "1")], &[("11", "1")], 1_000);
    let trades = [deal("Buy", "10", "3", 900), deal("", "10", "3", 900), deal("hold", "1", "1", 900)];
    let m = metrics(&book, &trades, 1_000);
    assert_eq!(m.delta, 0);
    assert_eq!(m.cumulative_delta, 0);
}

#[test]
fn imbalances_are_quotients_of_the_side_totals() {
    let book = book_of(&[("10", "1"), ("9", "2")], &[("11", "3"), ("12", "0.5")], 1_000);
    let m = metrics(&book, &[], 1_000);
    let bids = units(28) as u128;
    let asks = units(39) as u128;
    assert_eq!(m.buy_imbalance, Ratio { num: bids, den: asks });
    assert_eq!(m.sell_imbalance, Ratio { num: asks, den: bids });
    assert_eq!(m.delta, 0);
}

#[test]
fn imbalance_over_an_empty_side_is_zero() {
    let no_asks = metrics(&book_of(&[("10", "1")], &[], 1_000), &[], 1_000);
    assert_eq!(no_asks.buy_imbalance, Ratio { num: 0, den: 1 });
    assert_eq!(no_asks.sell_imbalance, Ratio { num: 0, den: units(10) as u128 });
    let worthless = metrics(&book_of(&[("10", "0")], &[("11", "1")], 1_000), &[], 1_000);
    assert_eq!(worthless.sell_imbalance, Ratio { num: 0, den: 1 });
    let empty = metrics(&book_of(&[], &[], 1_000), &[], 1_000);
    assert_eq!(empty.buy_imbalance, Ratio { num: 0, den: 1 });
    assert_eq!(empty.sell_imbalance, Ratio { num: 0, den: 1 });
}

const FIVE_BIDS: [(&str, &str); 5] = [("100", "10"), ("99", "10"), ("98", "10"), ("97", "10"), ("96", "10")];

#[test]
fn stacked_needs_three_heavy_levels_of_five() {
    // ask notional 100; bids 1000, 1000, 1000, 99, 99
    let three = book_of(&[("100", "10"), ("100", "10"), ("100", "10"), ("99", "1"), ("99", "1")], &[("100", "1")], 1);
    assert_eq!(detect_stacked_imbalances(&three, ratio("10")), (true, false));
    let two = book_of(&[("100", "10"), ("100", "10"), ("99", "1"), ("99", "1"), ("99", "1")], &[("100", "1")], 1);
    assert_eq!(detect_stacked_imbalances(&two, ratio("10")), (false, false));
}

#[test]
fn stacked_counts_a_level_that_meets_the_threshold_exactly() {
    let book = book_of(&[("100", "10"), ("100", "10"), ("100", "10"), ("1", "1"), ("1", "1")], &[("100", "1")], 1);
    assert_eq!(detect_stacked_imbalances(&book, ratio("10")).0, true);
    assert_eq!(detect_stacked_imbalances(&book, ratio("10.00000001")).0, false);
    assert_eq!(detect_stacked_imbalances(&book, Ratio { num: 1_000_000_001, den: 100_000_000 }).0, false);
    assert_eq!(detect_stacked_imbalances(&book, Ratio { num: 999_999_999, den: 100_000_000 }).0, true);
}

#[test]
fn stacked_looks_at_the_first_five_levels_only() {
    let book = book_of(
        &[("1", "1"), ("1", "1"), ("1", "1"), ("100", "10"), ("100", "10"), ("100", "10"), ("100", "10")],
        &[("100", "1")],
        1,
    );
    assert_eq!(detect_stacked_imbalances(&book, ratio("10")).0, false);
}

#[test]
fn stacked_needs_five_levels_and_an_opposite_level_with_notional() {
    let four = book_of(&FIVE_BIDS[..4], &[("101", "1")], 1);
    assert_eq!(detect_stacked_imbalances(&four, ratio("1")), (false, false));
    let no_asks = book_of(&FIVE_BIDS, &[], 1);
    assert_eq!(detect_stacked_imbalances(&no_asks, ratio("1")), (false, false));
    let empty_ask = book_of(&FIVE_BIDS, &[("101", "0")], 1);
    assert_eq!(detect_stacked_imbalances(&empty_ask, ratio("0")), (false, false));
    let full = book_of(&FIVE_BIDS, &[("101", "1")], 1);
    assert_eq!(detect_stacked_imbalances(&full, ratio("5")), (true, false));
}

#[test]
fn stacked_treats_both_sides_alike() {
    let books = [
        book_of(&FIVE_BIDS, &[("101", "1")], 1),
        book_of(&[("100", "1")], &FIVE_BIDS, 1),
        book_of(&FIVE_BIDS, &FIVE_BIDS, 1),
        book_of(&FIVE_BIDS[..4], &[("101", "1")], 1),
        book_of(&[], &[], 1),
    ];
    for book in books.iter() {
        let mirror = OrderBookSnapshot {
            symbol: book.symbol.clone(),
            bids: book.asks.clone(),
            asks: book.bids.clone(),
            timestamp: book.timestamp,
        };
        for threshold in ["0.5", "1", "5", "9.5", "12"] {
            let (buy, sell) = detect_stacked_imbalances(book, ratio(threshold));
            let (mirror_buy, mirror_sell) = detect_stacked_imbalances(&mirror, ratio(threshold));
            assert_eq!(mirror_buy, sell);
            assert_eq!(mirror_sell, buy);
        }
    }
}

#[test]
fn stacked_with_the_largest_amounts_does_not_overflow() {
    let top = "100000000";
    let bids = [(top, top), (top, top), (top, top), (top, top), (top, top)];
    let book = book_of(&bids, &[(top, top)], 1);
    assert_eq!(detect_stacked_imbalances(&book, ratio("1")), (true, false));
    assert_eq!(detect_stacked_imbalances(&book, ratio("1.00000001")), (false, false));
    assert_eq!(detect_stacked_imbalances(&book, Ratio { num: u128::MAX, den: u128::MAX }), (true, false));
    assert_eq!(detect_stacked_imbalances(&book, Ratio { num: u128::MAX, den: u128::MAX - 1 }), (false, false));
}

fn strategy(delta: &str) -> StrategyParams {
    StrategyParams {
        imbalance_threshold: num("2"),
        absorption_threshold: num("1"),
        delta_threshold: num(delta),
        lookback_period_ms: 1_000,
        market_condition_multiplier: num("1"),
    }
}

fn absorption(book: &OrderBookSnapshot, trades: &[TradeData], delta: &str) -> (bool, String, SignalType) {
    let refs: Vec<&TradeData> = trades.iter().collect();
    let m = calculate_ofi_metrics(book, &refs, 1_000);
    detect_absorption(book, &refs, &m, &strategy(delta))
}

#[test]
fn absorption_needs_bids_and_trades() {
    let sells = [deal("sell", "100", "20", 990)];
    let no_bids = book_of(&[], &[("101", "1")], 1_000);
    assert_eq!(absorption(&no_bids, &sells, "500"), (false, String::new(), SignalType::NoSignal));
    let book = book_of(&[("100", "1")], &[("101", "1")], 1_000);
    assert_eq!(absorption(&book, &[], "500"), (false, String::new(), SignalType::NoSignal));
}

#[test]
fn absorption_with_one_bid_level_compares_it_with_itself() {
    let book = book_of(&[("100", "1")], &[("101", "1")], 1_000);
    let (fired, reason, kind) = absorption(&book, &[deal("sell", "100", "20", 990)], "500");
    assert!(fired);
    assert_eq!(kind, SignalType::Buy);
    assert_eq!(reason, "Buy absorption detected: large selling delta with no price drop.");
    let (fired, reason, kind) = absorption(&book, &[deal("buy", "100", "20", 990)], "500");
    assert!(fired);
    assert_eq!(kind, SignalType::Sell);
    assert_eq!(reason, "Sell absorption detected: large buying delta with no price rise.");
}

#[test]
fn absorption_needs_a_delta_beyond_the_threshold() {
    let book = book_of(&[("100", "1")], &[("101", "1")], 1_000);
    assert!(!absorption(&book, &[deal("sell", "100", "5", 990)], "500").0);
    assert!(!absorption(&book, &[deal("buy", "100", "5", 990)], "500").0);
    assert!(absorption(&book, &[deal("sell", "100", "5.00000001", 990)], "500").0);
    assert!(absorption(&book, &[deal("buy", "100.00000001", "5", 990)], "500").0);
}

#[test]
fn absorption_depends_on_the_two_best_bids() {
    let sells = [deal("sell", "100", "20", 990)];
    let buys = [deal("buy", "100", "20", 990)];
    let falling = book_of(&[("99", "1"), ("100", "1")], &[("101", "1")], 1_000);
    assert_eq!(absorption(&falling, &sells, "500").2, SignalType::NoSignal);
    assert_eq!(absorption(&falling, &buys, "500").2, SignalType::Sell);
    let rising = book_of(&[("100", "1"), ("99", "1")], &[("101", "1")], 1_000);
    assert_eq!(absorption(&rising, &sells, "500").2, SignalType::Buy);
    assert_eq!(absorption(&rising, &buys, "500").2, SignalType::NoSignal);
}

#[test]
fn absorption_at_takes_the_threshold_in_product_units() {
    let book = book_of(&[("100", "1")], &[("101", "1")], 1_000);
    let threshold = units(500) as u128;
    assert_eq!(absorption_at(&book, 1, units(-500), threshold).2, SignalType::NoSignal);
    assert_eq!(absorption_at(&book, 1, units(-500) - 1, threshold).2, SignalType::Buy);
    assert_eq!(absorption_at(&book, 1, units(500) + 1, threshold).2, SignalType::Sell);
    assert_eq!(absorption_at(&book, 0, units(500) + 1, threshold).2, SignalType::NoSignal);
}
