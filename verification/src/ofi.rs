//! Order-flow metrics and the two pattern detectors built on them.

use vstd::prelude::*;
use crate::data::{borrowed_trade_views, BookView, OrderBookLevel, OrderBookSnapshot, TradeData, TradeView};
use crate::decimal::{product_at_least, Decimal, Ratio, MAX_ITEMS, MAX_RAW, SCALE};
use crate::signals::{SignalType, StrategyParams};
use crate::text::text_eq;

verus! {

/// Levels of one side that the stacked-imbalance detector looks at.
pub const STACK_DEPTH: usize = 5;

/// Levels among them that must outweigh the opposite best level.
pub const STACK_REQUIRED: usize = 3;

/// Flow metrics of one symbol. The deltas are in units of 10^-16.
#[derive(Debug)]
pub struct OFIMetrics {
    pub symbol: String,
    pub delta: i128,
    pub cumulative_delta: i128,
    pub buy_imbalance: Ratio,
    pub sell_imbalance: Ratio,
    pub timestamp: u64,
}

/// What an `OFIMetrics` holds.
pub struct MetricsView {
    pub symbol: Seq<char>,
    pub delta: int,
    pub cumulative_delta: int,
    pub buy_imbalance: Ratio,
    pub sell_imbalance: Ratio,
    pub timestamp: u64,
}

impl View for OFIMetrics {
    type V = MetricsView;

    open spec fn view(&self) -> MetricsView {
        MetricsView {
            symbol: self.symbol@,
            delta: self.delta as int,
            cumulative_delta: self.cumulative_delta as int,
            buy_imbalance: self.buy_imbalance,
            sell_imbalance: self.sell_imbalance,
            timestamp: self.timestamp,
        }
    }
}

impl Clone for OFIMetrics {
    fn clone(&self) -> (r: Self)
        ensures
            r@ == self@,
    {
        OFIMetrics {
            symbol: self.symbol.clone(),
            delta: self.delta,
            cumulative_delta: self.cumulative_delta,
            buy_imbalance: self.buy_imbalance,
            sell_imbalance: self.sell_imbalance,
            timestamp: self.timestamp,
        }
    }
}

/// The notional of a trade, counted positive for a taker buy, negative for a
/// taker sell, and not at all for any other side.
pub open spec fn signed_notional(trade: TradeView) -> int {
    if trade.side == "buy"@ {
        (trade.price@ * trade.quantity@) as int
    } else if trade.side == "sell"@ {
        -(trade.price@ * trade.quantity@)
    } else {
        0
    }
}

/// The sum of the signed notionals of a sequence of trades.
pub open spec fn flow(trades: Seq<TradeView>) -> int
    decreases trades.len(),
{
    if trades.len() == 0 {
        0
    } else {
        flow(trades.drop_last()) + signed_notional(trades.last())
    }
}

/// The start of the lookback window that ends at `now`.
pub open spec fn window_start(now: u64, lookback_ms: u64) -> u64 {
    if now >= lookback_ms {
        (now - lookback_ms) as u64
    } else {
        0
    }
}

/// The trades at or after `start`, in their order.
pub open spec fn window(trades: Seq<TradeView>, start: u64) -> Seq<TradeView> {
    trades.filter(|t: TradeView| t.timestamp >= start)
}

/// The sum of the notionals of the levels of one book side.
pub open spec fn side_total(levels: Seq<OrderBookLevel>) -> nat
    decreases levels.len(),
{
    if levels.len() == 0 {
        0
    } else {
        side_total(levels.drop_last()) + levels.last().notional()
    }
}

/// `own / other`, or zero where `other` is zero.
pub open spec fn imbalance(own: nat, other: nat) -> Ratio {
    if other > 0 {
        Ratio { num: own as u128, den: other as u128 }
    } else {
        Ratio { num: 0, den: 1 }
    }
}

/// The metrics of a book and a sequence of trades: `delta` over the trades
/// of the lookback window that ends at the book's timestamp,
/// `cumulative_delta` over all the trades given.
pub open spec fn metrics_of(book: BookView, trades: Seq<TradeView>, lookback_ms: u64) -> MetricsView {
    MetricsView {
        symbol: book.symbol,
        delta: flow(window(trades, window_start(book.timestamp, lookback_ms))),
        cumulative_delta: flow(trades),
        buy_imbalance: imbalance(side_total(book.bids), side_total(book.asks)),
        sell_imbalance: imbalance(side_total(book.asks), side_total(book.bids)),
        timestamp: book.timestamp,
    }
}

/// The largest notional of one level or trade, in units of 10^-16.
pub open spec fn max_notional() -> int {
    MAX_RAW * MAX_RAW
}

/// The signed notional of one trade.
fn trade_flow(trade: &TradeData) -> (r: i128)
    ensures
        r == signed_notional(trade@),
        -max_notional() <= r <= max_notional(),
{
    let volume: u128 = trade.price.times(&trade.quantity);
    if text_eq(trade.side.as_str(), "buy") {
        volume as i128
    } else if text_eq(trade.side.as_str(), "sell") {
        -(volume as i128)
    } else {
        0
    }
}

/// The order-flow delta of the trades at or after `start`: taker buys minus
/// taker sells.
fn calculate_delta(trades: &[&TradeData], start: u64) -> (r: i128)
    requires
        trades.len() <= MAX_ITEMS,
    ensures
        r == flow(window(borrowed_trade_views(trades@), start)),
{
    let ghost views = borrowed_trade_views(trades@);
    let mut total: i128 = 0;
    let mut i: usize = 0;
    while i < trades.len()
        invariant
            i <= trades.len(),
            trades.len() <= MAX_ITEMS,
            views == borrowed_trade_views(trades@),
            total == flow(window(views.take(i as int), start)),
            -(i * max_notional()) <= total <= i * max_notional(),
        decreases trades.len() - i,
    {
        let step: i128 = trade_flow(trades[i]);
        proof {
            reveal(Seq::filter);
            let seen = window(views.take(i as int), start);
            let trade = trades[i as int]@;
            assert(views.take(i + 1).drop_last() =~= views.take(i as int));
            assert(views.take(i + 1).last() == trade);
            assert(window(views.take(i + 1), start) == if trade.timestamp >= start {
                seen.push(trade)
            } else {
                seen
            });
            assert(seen.push(trade).drop_last() =~= seen);
            assert((i + 1) * max_notional() == i * max_notional() + max_notional()) by (nonlinear_arith);
            assert(i * max_notional() <= MAX_ITEMS * max_notional()) by (nonlinear_arith)
                requires
                    i <= MAX_ITEMS,
            ;
        }
        if trades[i].timestamp >= start {
            total = total + step;
        }
        i += 1;
    }
    assert(views.take(i as int) =~= views);
    total
}

/// The order-flow delta of all the trades given.
fn calculate_cumulative_delta(trades: &[&TradeData]) -> (r: i128)
    requires
        trades.len() <= MAX_ITEMS,
    ensures
        r == flow(borrowed_trade_views(trades@)),
{
    let ghost views = borrowed_trade_views(trades@);
    let mut total: i128 = 0;
    let mut i: usize = 0;
    while i < trades.len()
        invariant
            i <= trades.len(),
            trades.len() <= MAX_ITEMS,
            views == borrowed_trade_views(trades@),
            total == flow(views.take(i as int)),
            -(i * max_notional()) <= total <= i * max_notional(),
        decreases trades.len() - i,
    {
        let step: i128 = trade_flow(trades[i]);
        proof {
            assert(views.take(i + 1).drop_last() =~= views.take(i as int));
            assert(views.take(i + 1).last() == trades[i as int]@);
            assert((i + 1) * max_notional() == i * max_notional() + max_notional()) by (nonlinear_arith);
            assert(i * max_notional() <= MAX_ITEMS * max_notional()) by (nonlinear_arith)
                requires
                    i <= MAX_ITEMS,
            ;
        }
        total = total + step;
        i += 1;
    }
    assert(views.take(i as int) =~= views);
    total
}

/// The summed notional of one book side.
fn side_notional(levels: &Vec<OrderBookLevel>) -> (r: u128)
    requires
        levels.len() <= MAX_ITEMS,
    ensures
        r == side_total(levels@),
{
    let mut total: u128 = 0;
    let mut i: usize = 0;
    while i < levels.len()
        invariant
            i <= levels.len(),
            levels.len() <= MAX_ITEMS,
            total == side_total(levels@.take(i as int)),
            total <= i * max_notional(),
        decreases levels.len() - i,
    {
        let step: u128 = levels[i].price.times(&levels[i].quantity);
        proof {
            assert(levels@.take(i + 1).drop_last() =~= levels@.take(i as int));
            assert((i + 1) * max_notional() == i * max_notional() + max_notional()) by (nonlinear_arith);
            assert(i * max_notional() <= MAX_ITEMS * max_notional()) by (nonlinear_arith)
                requires
                    i <= MAX_ITEMS,
            ;
        }
        total = total + step;
        i += 1;
    }
    assert(levels@.take(i as int) =~= levels@);
    total
}

/// The buy and the sell imbalance of a book: each side's total notional
/// over the other's, zero where the other side is empty of notional.
fn calculate_imbalances(order_book: &OrderBookSnapshot) -> (r: (Ratio, Ratio))
    requires
        order_book.bids.len() <= MAX_ITEMS,
        order_book.asks.len() <= MAX_ITEMS,
    ensures
        r.0 == imbalance(side_total(order_book.bids@), side_total(order_book.asks@)),
        r.1 == imbalance(side_total(order_book.asks@), side_total(order_book.bids@)),
{
    let total_buy_size: u128 = side_notional(&order_book.bids);
    let total_sell_size: u128 = side_notional(&order_book.asks);
    let buy_imbalance = if total_sell_size > 0 {
        Ratio { num: total_buy_size, den: total_sell_size }
    } else {
        Ratio::zero()
    };
    let sell_imbalance = if total_buy_size > 0 {
        Ratio { num: total_sell_size, den: total_buy_size }
    } else {
        Ratio::zero()
    };
    (buy_imbalance, sell_imbalance)
}

/// The flow metrics of a book and the trades given with it.
pub fn calculate_ofi_metrics(
    order_book: &OrderBookSnapshot,
    trades: &[&TradeData],
    lookback_period_ms: u64,
) -> (m: OFIMetrics)
    requires
        order_book.bids.len() <= MAX_ITEMS,
        order_book.asks.len() <= MAX_ITEMS,
        trades.len() <= MAX_ITEMS,
    ensures
        m@ == metrics_of(order_book@, borrowed_trade_views(trades@), lookback_period_ms),
{
    let now: u64 = order_book.timestamp;
    let cutoff_time: u64 = if now >= lookback_period_ms { now - lookback_period_ms } else { 0 };
    let delta: i128 = calculate_delta(trades, cutoff_time);
    let cumulative_delta: i128 = calculate_cumulative_delta(trades);
    let (buy_imbalance, sell_imbalance) = calculate_imbalances(order_book);
    OFIMetrics {
        symbol: order_book.symbol.clone(),
        delta,
        cumulative_delta,
        buy_imbalance,
        sell_imbalance,
        timestamp: now,
    }
}

/// Whether the notional of `level` is at least `threshold` times that of
/// `opposite`: the quotient of the two notionals against the ratio, with
/// the division multiplied out.
pub open spec fn outweighs(level: OrderBookLevel, opposite: OrderBookLevel, threshold: Ratio) -> bool {
    level.notional() * threshold.den >= threshold.num * opposite.notional()
}

/// How many of `levels` outweigh `opposite`.
pub open spec fn outweighing(levels: Seq<OrderBookLevel>, opposite: OrderBookLevel, threshold: Ratio) -> nat {
    levels.filter(|l: OrderBookLevel| outweighs(l, opposite, threshold)).len()
}

/// Whether `side` is stacked against `other`: it has `depth` levels, the
/// best level of `other` has a notional, and at least `required` of the
/// first `depth` levels of `side` outweigh it.
pub open spec fn stacked(
    side: Seq<OrderBookLevel>,
    other: Seq<OrderBookLevel>,
    threshold: Ratio,
    depth: nat,
    required: nat,
) -> bool {
    &&& side.len() >= depth
    &&& other.len() >= 1
    &&& other[0].notional() != 0
    &&& outweighing(side.take(depth as int), other[0], threshold) >= required
}

/// Whether the bids are stacked against the best ask.
pub open spec fn buy_stacked(book: BookView, threshold: Ratio) -> bool {
    stacked(book.bids, book.asks, threshold, STACK_DEPTH as nat, STACK_REQUIRED as nat)
}

/// Whether the asks are stacked against the best bid.
pub open spec fn sell_stacked(book: BookView, threshold: Ratio) -> bool {
    stacked(book.asks, book.bids, threshold, STACK_DEPTH as nat, STACK_REQUIRED as nat)
}

/// The book with its two sides exchanged.
pub open spec fn mirror(book: BookView) -> BookView {
    BookView { symbol: book.symbol, bids: book.asks, asks: book.bids, timestamp: book.timestamp }
}

/// Whether `side` is stacked against `other`.
fn detect_stacked_side(
    side: &Vec<OrderBookLevel>,
    other: &Vec<OrderBookLevel>,
    threshold: Ratio,
    levels_to_check: usize,
    required_levels: usize,
) -> (r: bool)
    ensures
        r == stacked(side@, other@, threshold, levels_to_check as nat, required_levels as nat),
{
    if side.len() < levels_to_check || other.len() == 0 {
        return false;
    }
    let top_size: u128 = other[0].price.times(&other[0].quantity);
    if top_size == 0 {
        return false;
    }
    let ghost checked = side@.take(levels_to_check as int);
    let ghost heavy = |l: OrderBookLevel| outweighs(l, other@[0], threshold);
    let mut imbalanced_levels: usize = 0;
    let mut i: usize = 0;
    while i < levels_to_check
        invariant
            i <= levels_to_check <= side.len(),
            other.len() >= 1,
            top_size == other@[0].notional(),
            checked == side@.take(levels_to_check as int),
            heavy == |l: OrderBookLevel| outweighs(l, other@[0], threshold),
            imbalanced_levels == checked.take(i as int).filter(heavy).len(),
            imbalanced_levels <= i,
        decreases levels_to_check - i,
    {
        let size: u128 = side[i].price.times(&side[i].quantity);
        proof {
            reveal(Seq::filter);
            assert(checked.take(i + 1).drop_last() =~= checked.take(i as int));
            assert(checked.take(i + 1).last() == side@[i as int]);
        }
        if product_at_least(size, threshold.den, threshold.num, top_size) {
            imbalanced_levels += 1;
        }
        i += 1;
    }
    assert(checked.take(i as int) =~= checked);
    imbalanced_levels >= required_levels
}

/// Whether at least `required_levels` of the best `levels_to_check` bids
/// outweigh the best ask.
fn detect_stacked_buy_imbalance_advanced(
    order_book: &OrderBookSnapshot,
    threshold: Ratio,
    levels_to_check: usize,
    required_levels: usize,
) -> (r: bool)
    ensures
        r == stacked(
            order_book.bids@,
            order_book.asks@,
            threshold,
            levels_to_check as nat,
            required_levels as nat,
        ),
{
    detect_stacked_side(&order_book.bids, &order_book.asks, threshold, levels_to_check, required_levels)
}

/// Whether at least `required_levels` of the best `levels_to_check` asks
/// outweigh the best bid.
fn detect_stacked_sell_imbalance_advanced(
    order_book: &OrderBookSnapshot,
    threshold: Ratio,
    levels_to_check: usize,
    required_levels: usize,
) -> (r: bool)
    ensures
        r == stacked(
            order_book.asks@,
            order_book.bids@,
            threshold,
            levels_to_check as nat,
            required_levels as nat,
        ),
{
    detect_stacked_side(&order_book.asks, &order_book.bids, threshold, levels_to_check, required_levels)
}

/// Whether large bids are stacked at the top of the book.
fn detect_stacked_buy_imbalance(order_book: &OrderBookSnapshot, threshold: Ratio) -> (r: bool)
    ensures
        r == buy_stacked(order_book@, threshold),
{
    detect_stacked_buy_imbalance_advanced(order_book, threshold, STACK_DEPTH, STACK_REQUIRED)
}

/// Whether large asks are stacked at the top of the book.
fn detect_stacked_sell_imbalance(order_book: &OrderBookSnapshot, threshold: Ratio) -> (r: bool)
    ensures
        r == sell_stacked(order_book@, threshold),
{
    detect_stacked_sell_imbalance_advanced(order_book, threshold, STACK_DEPTH, STACK_REQUIRED)
}

/// Whether the book is buy-stacked, and whether it is sell-stacked, at the
/// given threshold.
pub fn detect_stacked_imbalances(order_book: &OrderBookSnapshot, threshold: Ratio) -> (r: (bool, bool))
    ensures
        r.0 == buy_stacked(order_book@, threshold),
        r.1 == sell_stacked(order_book@, threshold),
{
    let buy_stacked = detect_stacked_buy_imbalance(order_book, threshold);
    let sell_stacked = detect_stacked_sell_imbalance(order_book, threshold);
    (buy_stacked, sell_stacked)
}

/// The stacked detector treats the two sides alike: a book is sell-stacked
/// exactly when its mirror image is buy-stacked, and the other way round.
pub proof fn lemma_stacked_symmetric(book: BookView, threshold: Ratio)
    ensures
        buy_stacked(mirror(book), threshold) == sell_stacked(book, threshold),
        sell_stacked(mirror(book), threshold) == buy_stacked(book, threshold),
{
}

/// The verdict of the absorption detector on a flow `delta` and a
/// `threshold`, both in units of 10^-16. The second bid level stands for
/// the previous best bid.
pub open spec fn absorption_verdict(book: BookView, trade_count: nat, delta: int, threshold: int) -> SignalType {
    if book.bids.len() == 0 || trade_count == 0 {
        SignalType::NoSignal
    } else {
        let best_bid = book.bids[0].price@;
        let prev_best_bid = if book.bids.len() > 1 { book.bids[1].price@ } else { best_bid };
        if delta < -threshold && best_bid >= prev_best_bid {
            SignalType::Buy
        } else if delta > threshold && best_bid <= prev_best_bid {
            SignalType::Sell
        } else {
            SignalType::NoSignal
        }
    }
}

/// The reason that goes with a verdict of the absorption detector.
pub open spec fn absorption_reason(verdict: SignalType) -> Seq<char> {
    match verdict {
        SignalType::Buy => "Buy absorption detected: large selling delta with no price drop."@,
        SignalType::Sell => "Sell absorption detected: large buying delta with no price rise."@,
        _ => Seq::empty(),
    }
}

/// The absorption detector on a threshold given in units of 10^-16.
pub fn absorption_at(
    order_book: &OrderBookSnapshot,
    trade_count: usize,
    delta: i128,
    threshold: u128,
) -> (r: (bool, String, SignalType))
    ensures
        r.2 == absorption_verdict(order_book@, trade_count as nat, delta as int, threshold as int),
        r.0 == (r.2 != SignalType::NoSignal),
        r.1@ == absorption_reason(r.2),
{
    if order_book.bids.len() == 0 || trade_count == 0 {
        return (false, String::new(), SignalType::NoSignal);
    }
    let best_bid: u64 = order_book.bids[0].price.raw();
    let prev_best_bid: u64 = if order_book.bids.len() > 1 {
        order_book.bids[1].price.raw()
    } else {
        best_bid
    };
    if threshold > i128::MAX as u128 {
        // no delta of 128 bits lies beyond such a threshold
        return (false, String::new(), SignalType::NoSignal);
    }
    let bound: i128 = threshold as i128;
    let price_did_not_drop = best_bid >= prev_best_bid;
    if delta < -bound && price_did_not_drop {
        return (
            true,
            String::from_str("Buy absorption detected: large selling delta with no price drop."),
            SignalType::Buy,
        );
    }
    let price_did_not_rise = best_bid <= prev_best_bid;
    if delta > bound && price_did_not_rise {
        return (
            true,
            String::from_str("Sell absorption detected: large buying delta with no price rise."),
            SignalType::Sell,
        );
    }
    (false, String::new(), SignalType::NoSignal)
}

/// Detects absorption: heavy taker flow one way that fails to move the best
/// bid. Returns whether it fired, the reason, and the signal it calls for.
pub fn detect_absorption(
    order_book: &OrderBookSnapshot,
    trades: &[&TradeData],
    ofi_metrics: &OFIMetrics,
    params: &StrategyParams,
) -> (r: (bool, String, SignalType))
    ensures
        r.2 == absorption_verdict(
            order_book@,
            trades@.len(),
            ofi_metrics.delta as int,
            params.delta_threshold@ * SCALE,
        ),
        r.0 == (r.2 != SignalType::NoSignal),
        r.1@ == absorption_reason(r.2),
{
    let one = Decimal::one();
    let threshold: u128 = params.delta_threshold.times(&one);
    absorption_at(order_book, trades.len(), ofi_metrics.delta, threshold)
}

/// A trade older than the window does not count: taking it out of the
/// trades leaves the windowed flow as it was.
pub proof fn lemma_delta_ignores_stale_trade(trades: Seq<TradeView>, start: u64, i: int)
    requires
        0 <= i < trades.len(),
        trades[i].timestamp < start,
    ensures
        flow(window(trades.remove(i), start)) == flow(window(trades, start)),
{
    let fresh = |t: TradeView| t.timestamp >= start;
    let head = trades.take(i);
    let tail = trades.skip(i + 1);
    let one = seq![trades[i]];
    reveal_with_fuel(Seq::filter, 2);
    assert(one.drop_last() =~= Seq::<TradeView>::empty());
    assert(one.filter(fresh) =~= Seq::<TradeView>::empty());
    assert(trades =~= (head + one) + tail);
    assert(trades.remove(i) =~= head + tail);
    Seq::filter_distributes_over_add(head, one, fresh);
    Seq::filter_distributes_over_add(head + one, tail, fresh);
    Seq::filter_distributes_over_add(head, tail, fresh);
    assert(head.filter(fresh) + one.filter(fresh) =~= head.filter(fresh));
}

/// The metrics depend on nothing but the book, the trades and the lookback,
/// and their delta on no trade older than the window.
pub proof fn lemma_metrics_ignore_stale_trade(book: BookView, trades: Seq<TradeView>, lookback_ms: u64, i: int)
    requires
        0 <= i < trades.len(),
        trades[i].timestamp < window_start(book.timestamp, lookback_ms),
    ensures
        metrics_of(book, trades.remove(i), lookback_ms).delta == metrics_of(book, trades, lookback_ms).delta,
{
    lemma_delta_ignores_stale_trade(trades, window_start(book.timestamp, lookback_ms), i);
}

} // verus!
