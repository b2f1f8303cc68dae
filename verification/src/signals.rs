//! Trading signals and the rule engine that derives them from a book and
//! its recent trades.

use vstd::prelude::*;
use crate::data::{borrowed_trade_views, BookView, OrderBookSnapshot, TradeData, TradeView};
use crate::decimal::{Decimal, Ratio, MAX_ITEMS, SCALE};
use crate::text::{decimal_text, render_u64};
use crate::ofi::{
    absorption_at, absorption_reason, absorption_verdict, buy_stacked, calculate_ofi_metrics,
    detect_stacked_imbalances, metrics_of, sell_stacked,
};

verus! {

/// The verdict of an analysis.
#[derive(Clone, Copy, Debug, PartialEq, Eq, Structural)]
pub enum SignalType {
    StrongBuy,
    StrongSell,
    Buy,
    Sell,
    NoSignal,
}

/// A verdict with its details. `price` is in whole units, `confidence` lies
/// between zero and one.
#[derive(Debug)]
pub struct TradingSignal {
    pub symbol: String,
    pub signal_type: SignalType,
    pub price: Ratio,
    pub confidence: Decimal,
    pub reason: String,
    pub timestamp: u64,
}

/// What a `TradingSignal` holds.
pub struct SignalView {
    pub symbol: Seq<char>,
    pub signal_type: SignalType,
    pub price: Ratio,
    pub confidence: Decimal,
    pub reason: Seq<char>,
    pub timestamp: u64,
}

impl View for TradingSignal {
    type V = SignalView;

    open spec fn view(&self) -> SignalView {
        SignalView {
            symbol: self.symbol@,
            signal_type: self.signal_type,
            price: self.price,
            confidence: self.confidence,
            reason: self.reason@,
            timestamp: self.timestamp,
        }
    }
}

impl Clone for TradingSignal {
    fn clone(&self) -> (r: Self)
        ensures
            r@ == self@,
    {
        TradingSignal {
            symbol: self.symbol.clone(),
            signal_type: self.signal_type,
            price: self.price,
            confidence: self.confidence,
            reason: self.reason.clone(),
            timestamp: self.timestamp,
        }
    }
}

/// The signal that reports nothing, for a given reason.
pub open spec fn quiet_signal(symbol: Seq<char>, reason: Seq<char>) -> SignalView {
    SignalView {
        symbol,
        signal_type: SignalType::NoSignal,
        price: Ratio { num: 0, den: 1 },
        confidence: Decimal::spec_zero(),
        reason,
        timestamp: 0,
    }
}

impl TradingSignal {
    /// A `NoSignal` for `symbol` with the standard reason.
    pub fn no_signal(symbol: &str) -> (r: Self)
        ensures
            r@ == quiet_signal(symbol@, "No significant signal detected"@),
    {
        TradingSignal {
            symbol: String::from_str(symbol),
            signal_type: SignalType::NoSignal,
            price: Ratio::zero(),
            confidence: Decimal::zero(),
            reason: String::from_str("No significant signal detected"),
            timestamp: 0,
        }
    }

    /// A `NoSignal` for `symbol` with the given reason.
    pub fn no_signal_with_reason(symbol: &str, reason: &str) -> (r: Self)
        ensures
            r@ == quiet_signal(symbol@, reason@),
    {
        TradingSignal {
            symbol: String::from_str(symbol),
            signal_type: SignalType::NoSignal,
            price: Ratio::zero(),
            confidence: Decimal::zero(),
            reason: String::from_str(reason),
            timestamp: 0,
        }
    }
}

/// The name of a signal type, as it is written in records and logs.
pub open spec fn signal_name(signal_type: SignalType) -> Seq<char> {
    match signal_type {
        SignalType::StrongBuy => "StrongBuy"@,
        SignalType::StrongSell => "StrongSell"@,
        SignalType::Buy => "Buy"@,
        SignalType::Sell => "Sell"@,
        SignalType::NoSignal => "NoSignal"@,
    }
}

impl SignalType {
    /// The name of the signal type.
    pub fn name(&self) -> (r: String)
        ensures
            r@ == signal_name(*self),
    {
        match self {
            SignalType::StrongBuy => String::from_str("StrongBuy"),
            SignalType::StrongSell => String::from_str("StrongSell"),
            SignalType::Buy => String::from_str("Buy"),
            SignalType::Sell => String::from_str("Sell"),
            SignalType::NoSignal => String::from_str("NoSignal"),
        }
    }
}

/// A signal as it is handed to a consumer outside the process: type and
/// time are written out as text.
#[derive(Debug)]
pub struct SignalRecord {
    pub symbol: String,
    pub signal_type: String,
    pub price: Ratio,
    pub confidence: Decimal,
    pub timestamp: String,
    pub reason: String,
}

impl TradingSignal {
    /// The record of the signal.
    pub fn into_record(self) -> (r: SignalRecord)
        ensures
            r.symbol@ == self.symbol@,
            r.signal_type@ == signal_name(self.signal_type),
            r.price == self.price,
            r.confidence == self.confidence,
            r.timestamp@ == decimal_text(self.timestamp as nat),
            r.reason@ == self.reason@,
    {
        SignalRecord {
            signal_type: self.signal_type.name(),
            timestamp: render_u64(self.timestamp),
            symbol: self.symbol,
            price: self.price,
            confidence: self.confidence,
            reason: self.reason,
        }
    }
}

/// Parameters of the strategy. The multiplier scales the imbalance and delta
/// thresholds to market conditions; one leaves them as they are.
#[derive(Clone, Copy, Debug, PartialEq, Eq, Structural)]
pub struct StrategyParams {
    pub imbalance_threshold: Decimal,
    pub absorption_threshold: Decimal,
    pub delta_threshold: Decimal,
    pub lookback_period_ms: u64,
    pub market_condition_multiplier: Decimal,
}

impl StrategyParams {
    /// The imbalance threshold times the multiplier, as an exact ratio.
    pub open spec fn effective_imbalance(self) -> Ratio {
        Ratio {
            num: (self.imbalance_threshold@ * self.market_condition_multiplier@) as u128,
            den: (SCALE * SCALE) as u128,
        }
    }

    /// The delta threshold times the multiplier, in units of 10^-16.
    pub open spec fn effective_delta(self) -> nat {
        self.delta_threshold@ * self.market_condition_multiplier@
    }
}

/// The rules of the engine, in the order in which they are tried.
#[derive(Clone, Copy, Debug, PartialEq, Eq, Structural)]
pub enum Rule {
    /// A side of the book is empty: nothing is analysed.
    EmptyBook,
    /// Stacked bids with a delta above the threshold.
    StrongBuy,
    /// Stacked asks with a delta below the negated threshold.
    StrongSell,
    /// Heavy selling that did not lower the best bid.
    BuyAbsorption,
    /// Heavy buying that did not raise the best bid.
    SellAbsorption,
    /// A negative window delta after strong cumulative buying.
    Exhaustion,
    /// None of the above.
    Quiet,
}

/// The price that a signal carries: the middle of the two best prices where
/// both are positive, else the larger of them.
pub open spec fn mid_price(best_bid: Decimal, best_ask: Decimal) -> Ratio {
    if best_bid@ > 0 && best_ask@ > 0 {
        Ratio { num: (best_bid@ + best_ask@) as u128, den: (2 * SCALE) as u128 }
    } else if best_bid@ >= best_ask@ {
        Ratio::of_decimal(best_bid)
    } else {
        Ratio::of_decimal(best_ask)
    }
}

/// The first rule that matches, with the thresholds scaled by the
/// multiplier.
pub open spec fn matching_rule(book: BookView, trades: Seq<TradeView>, params: StrategyParams) -> Rule {
    let metrics = metrics_of(book, trades, params.lookback_period_ms);
    let limit = params.effective_delta() as int;
    if book.bids.len() == 0 || book.asks.len() == 0 {
        Rule::EmptyBook
    } else if buy_stacked(book, params.effective_imbalance()) && metrics.delta > limit {
        Rule::StrongBuy
    } else if sell_stacked(book, params.effective_imbalance()) && metrics.delta < -limit {
        Rule::StrongSell
    } else if absorption_verdict(book, trades.len(), metrics.delta, limit) == SignalType::Buy {
        Rule::BuyAbsorption
    } else if absorption_verdict(book, trades.len(), metrics.delta, limit) == SignalType::Sell {
        Rule::SellAbsorption
    } else if metrics.delta < -limit && metrics.cumulative_delta > 2 * limit {
        Rule::Exhaustion
    } else {
        Rule::Quiet
    }
}

/// The signal type that a rule emits.
pub open spec fn rule_signal(rule: Rule) -> SignalType {
    match rule {
        Rule::StrongBuy => SignalType::StrongBuy,
        Rule::StrongSell => SignalType::StrongSell,
        Rule::BuyAbsorption => SignalType::Buy,
        Rule::SellAbsorption => SignalType::Sell,
        Rule::Exhaustion => SignalType::Sell,
        Rule::EmptyBook => SignalType::NoSignal,
        Rule::Quiet => SignalType::NoSignal,
    }
}

/// The reason that a rule gives.
pub open spec fn rule_reason(rule: Rule) -> Seq<char> {
    match rule {
        Rule::EmptyBook => "Order book is empty"@,
        Rule::StrongBuy => "Stacked buy imbalances with strong positive delta"@,
        Rule::StrongSell => "Stacked sell imbalances with strong negative delta"@,
        Rule::BuyAbsorption => absorption_reason(SignalType::Buy),
        Rule::SellAbsorption => absorption_reason(SignalType::Sell),
        Rule::Exhaustion => "Potential exhaustion detected"@,
        Rule::Quiet => "No significant signal detected"@,
    }
}

/// The confidence that a rule carries.
pub open spec fn rule_confidence(
    rule: Rule,
    strong_signal_confidence: Decimal,
    reversal_signal_confidence: Decimal,
    exhaustion_signal_confidence: Decimal,
) -> Decimal {
    match rule {
        Rule::StrongBuy => strong_signal_confidence,
        Rule::StrongSell => strong_signal_confidence,
        Rule::BuyAbsorption => reversal_signal_confidence,
        Rule::SellAbsorption => reversal_signal_confidence,
        Rule::Exhaustion => exhaustion_signal_confidence,
        Rule::EmptyBook => Decimal::spec_zero(),
        Rule::Quiet => Decimal::spec_zero(),
    }
}

/// The signal of the rule engine: that of the first matching rule. On an
/// empty book it carries neither price nor time; otherwise the mid price
/// and the book's timestamp.
pub open spec fn expected_signal(
    book: BookView,
    trades: Seq<TradeView>,
    params: StrategyParams,
    strong_signal_confidence: Decimal,
    reversal_signal_confidence: Decimal,
    exhaustion_signal_confidence: Decimal,
) -> SignalView {
    let rule = matching_rule(book, trades, params);
    if rule == Rule::EmptyBook {
        quiet_signal(book.symbol, rule_reason(rule))
    } else {
        SignalView {
            symbol: book.symbol,
            signal_type: rule_signal(rule),
            price: mid_price(book.bids[0].price, book.asks[0].price),
            confidence: rule_confidence(
                rule,
                strong_signal_confidence,
                reversal_signal_confidence,
                exhaustion_signal_confidence,
            ),
            reason: rule_reason(rule),
            timestamp: book.timestamp,
        }
    }
}

/// The mid price of two best prices.
fn current_price(best_bid: Decimal, best_ask: Decimal) -> (r: Ratio)
    ensures
        r == mid_price(best_bid, best_ask),
{
    let bid: u64 = best_bid.raw();
    let ask: u64 = best_ask.raw();
    if bid > 0 && ask > 0 {
        Ratio { num: (bid + ask) as u128, den: (2 * SCALE) as u128 }
    } else if bid >= ask {
        Ratio::from_decimal(best_bid)
    } else {
        Ratio::from_decimal(best_ask)
    }
}

/// Runs the rule engine on a book and the trades given with it: the first
/// rule that matches decides the signal.
pub fn detect_signals(
    order_book: &OrderBookSnapshot,
    trades: &[&TradeData],
    params: &StrategyParams,
    strong_signal_confidence: Decimal,
    reversal_signal_confidence: Decimal,
    exhaustion_signal_confidence: Decimal,
) -> (signal: TradingSignal)
    requires
        order_book.bids.len() <= MAX_ITEMS,
        order_book.asks.len() <= MAX_ITEMS,
        trades.len() <= MAX_ITEMS,
    ensures
        signal@ == expected_signal(
            order_book@,
            borrowed_trade_views(trades@),
            *params,
            strong_signal_confidence,
            reversal_signal_confidence,
            exhaustion_signal_confidence,
        ),
{
    if order_book.bids.len() == 0 || order_book.asks.len() == 0 {
        return TradingSignal::no_signal_with_reason(order_book.symbol.as_str(), "Order book is empty");
    }
    let ofi_metrics = calculate_ofi_metrics(order_book, trades, params.lookback_period_ms);
    let current_price = current_price(order_book.bids[0].price, order_book.asks[0].price);

    let scaled_imbalance: u128 = params.imbalance_threshold.times(&params.market_condition_multiplier);
    let adjusted_imbalance_threshold = Ratio { num: scaled_imbalance, den: (SCALE as u128) * (SCALE as u128) };
    let adjusted_delta_threshold: u128 = params.delta_threshold.times(&params.market_condition_multiplier);
    let limit: i128 = adjusted_delta_threshold as i128;

    let (buy_stacked, sell_stacked) = detect_stacked_imbalances(order_book, adjusted_imbalance_threshold);
    let absorption_detected = absorption_at(
        order_book,
        trades.len(),
        ofi_metrics.delta,
        adjusted_delta_threshold,
    );

    if buy_stacked && ofi_metrics.delta > limit {
        return TradingSignal {
            symbol: order_book.symbol.clone(),
            signal_type: SignalType::StrongBuy,
            price: current_price,
            confidence: strong_signal_confidence,
            reason: String::from_str("Stacked buy imbalances with strong positive delta"),
            timestamp: ofi_metrics.timestamp,
        };
    }
    if sell_stacked && ofi_metrics.delta < -limit {
        return TradingSignal {
            symbol: order_book.symbol.clone(),
            signal_type: SignalType::StrongSell,
            price: current_price,
            confidence: strong_signal_confidence,
            reason: String::from_str("Stacked sell imbalances with strong negative delta"),
            timestamp: ofi_metrics.timestamp,
        };
    }
    if absorption_detected.0 {
        return TradingSignal {
            symbol: order_book.symbol.clone(),
            signal_type: absorption_detected.2,
            price: current_price,
            confidence: reversal_signal_confidence,
            reason: absorption_detected.1,
            timestamp: ofi_metrics.timestamp,
        };
    }
    if ofi_metrics.delta < -limit && ofi_metrics.cumulative_delta > limit * 2 {
        return TradingSignal {
            symbol: order_book.symbol.clone(),
            signal_type: SignalType::Sell,
            price: current_price,
            confidence: exhaustion_signal_confidence,
            reason: String::from_str("Potential exhaustion detected"),
            timestamp: ofi_metrics.timestamp,
        };
    }
    TradingSignal {
        symbol: order_book.symbol.clone(),
        signal_type: SignalType::NoSignal,
        price: current_price,
        confidence: Decimal::zero(),
        reason: String::from_str("No significant signal detected"),
        timestamp: ofi_metrics.timestamp,
    }
}

/// Rule order: where the book is buy-stacked and the delta is above the
/// threshold, the rule engine settles on a strong buy, whatever the
/// absorption detector and the exhaustion rule would say; where it is
/// sell-stacked and the delta is below the negated threshold, on a strong
/// sell.
pub proof fn lemma_strong_rules_win(book: BookView, trades: Seq<TradeView>, params: StrategyParams)
    requires
        book.bids.len() > 0,
        book.asks.len() > 0,
    ensures
        buy_stacked(book, params.effective_imbalance()) && metrics_of(
            book,
            trades,
            params.lookback_period_ms,
        ).delta > params.effective_delta() ==> matching_rule(book, trades, params) == Rule::StrongBuy,
        sell_stacked(book, params.effective_imbalance()) && metrics_of(
            book,
            trades,
            params.lookback_period_ms,
        ).delta < -params.effective_delta() ==> matching_rule(book, trades, params) == Rule::StrongSell,
{
}

/// The mid price lies strictly between the best bid and the best ask of a
/// book with positive prices whose best bid is below its best ask.
pub proof fn lemma_mid_price_between(best_bid: Decimal, best_ask: Decimal)
    requires
        best_bid@ > 0,
        best_ask@ > 0,
        best_bid@ < best_ask@,
    ensures
        Ratio::of_decimal(best_bid).less_than(mid_price(best_bid, best_ask)),
        mid_price(best_bid, best_ask).less_than(Ratio::of_decimal(best_ask)),
{
    Decimal::lemma_fits(best_bid);
    Decimal::lemma_fits(best_ask);
    let mid = mid_price(best_bid, best_ask);
    assert(mid.num == best_bid@ + best_ask@);
    assert(mid.den == 2 * SCALE);
    assert(best_bid@ * (2 * SCALE) < (best_bid@ + best_ask@) * SCALE) by (nonlinear_arith)
        requires
            best_bid@ < best_ask@,
    ;
    assert((best_bid@ + best_ask@) * SCALE < best_ask@ * (2 * SCALE)) by (nonlinear_arith)
        requires
            best_bid@ < best_ask@,
    ;
}

/// The price that the signals of a valid book carry lies strictly between
/// its best bid and its best ask.
pub proof fn lemma_mid_price_of_valid_book(book: BookView)
    requires
        book.is_valid(),
        book.bids.len() > 0,
        book.asks.len() > 0,
    ensures
        Ratio::of_decimal(book.bids[0].price).less_than(mid_price(book.bids[0].price, book.asks[0].price)),
        mid_price(book.bids[0].price, book.asks[0].price).less_than(Ratio::of_decimal(book.asks[0].price)),
{
    assert(book.bids[0].is_valid());
    assert(book.asks[0].is_valid());
    lemma_mid_price_between(book.bids[0].price, book.asks[0].price);
}

} // verus!
