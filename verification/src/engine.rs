//! The per-symbol analysis engine: the two stores, the strategy parameters
//! and the configuration, with the operations that a feed session drives.

use vstd::prelude::*;
use crate::config::{ConfigView, OFIConfig};
use crate::data::{
    history, recent, BookView, OrderBookSnapshot, OrderBookStorage, TradeData, TradeStorage,
    TradeView, retained,
};
use crate::decimal::MAX_ITEMS;
use crate::signals::{detect_signals, expected_signal, quiet_signal, SignalView, StrategyParams, TradingSignal};

verus! {

/// Most trades that one analysis looks at.
pub const ANALYSIS_TRADES: usize = 100;

/// The state of the analysis of a feed: the latest book and the recent
/// trades of each symbol, and the parameters they are analysed with.
#[derive(Debug)]
pub struct OFIEngine {
    order_book_storage: OrderBookStorage,
    trade_storage: TradeStorage,
    strategy_params: StrategyParams,
    config: OFIConfig,
}

/// The signal that an analysis of `symbol` gives on the books and trades
/// stored: none without a book, none for a book too deep to sum, else what
/// the rule engine makes of the book and the newest hundred trades.
pub open spec fn analysis_of(
    books: Map<Seq<char>, BookView>,
    trades: Map<Seq<char>, Seq<TradeView>>,
    params: StrategyParams,
    config: ConfigView,
    symbol: Seq<char>,
) -> SignalView {
    if !books.dom().contains(symbol) {
        quiet_signal(symbol, "No order book data"@)
    } else if books[symbol].bids.len() > MAX_ITEMS || books[symbol].asks.len() > MAX_ITEMS {
        quiet_signal(symbol, "Order book is too deep"@)
    } else {
        expected_signal(
            books[symbol],
            recent(history(trades, symbol), ANALYSIS_TRADES as nat),
            params,
            config.strong_signal_confidence,
            config.reversal_signal_confidence,
            config.exhaustion_signal_confidence,
        )
    }
}

impl OFIEngine {
    /// The stored book of each symbol.
    pub closed spec fn books(&self) -> Map<Seq<char>, BookView> {
        self.order_book_storage@
    }

    /// The stored trades of each symbol, oldest first.
    pub closed spec fn trades(&self) -> Map<Seq<char>, Seq<TradeView>> {
        self.trade_storage@
    }

    /// The strategy parameters.
    pub closed spec fn params(&self) -> StrategyParams {
        self.strategy_params
    }

    /// The configuration.
    pub closed spec fn settings(&self) -> ConfigView {
        self.config@
    }

    /// The signal that an analysis of `symbol` gives on what is stored.
    pub open spec fn analysis(&self, symbol: Seq<char>) -> SignalView {
        analysis_of(self.books(), self.trades(), self.params(), self.settings(), symbol)
    }

    /// An engine with empty stores.
    pub fn new(params: StrategyParams, config: OFIConfig) -> (r: Self)
        ensures
            r.books() == Map::<Seq<char>, BookView>::empty(),
            r.trades() == Map::<Seq<char>, Seq<TradeView>>::empty(),
            r.params() == params,
            r.settings() == config@,
    {
        OFIEngine {
            order_book_storage: OrderBookStorage::new(),
            trade_storage: TradeStorage::new(),
            strategy_params: params,
            config,
        }
    }

    /// The configuration.
    pub fn config(&self) -> (r: &OFIConfig)
        ensures
            r@ == self.settings(),
    {
        &self.config
    }

    /// Replaces the stored book of the symbol of `book`.
    pub fn update_order_book(&mut self, book: OrderBookSnapshot)
        ensures
            final(self).books() == old(self).books().insert(book.symbol@, book@),
            final(self).trades() == old(self).trades(),
            final(self).params() == old(self).params(),
            final(self).settings() == old(self).settings(),
    {
        self.order_book_storage.update_order_book(book);
    }

    /// Appends a trade to the history of its symbol, which keeps the newest
    /// `trade_storage_limit` of them.
    pub fn add_trade(&mut self, trade: TradeData)
        ensures
            final(self).trades() == old(self).trades().insert(
                trade.symbol@,
                retained(
                    history(old(self).trades(), trade.symbol@).push(trade@),
                    old(self).settings().trade_storage_limit as nat,
                ),
            ),
            final(self).books() == old(self).books(),
            final(self).params() == old(self).params(),
            final(self).settings() == old(self).settings(),
    {
        self.trade_storage.add_trade(trade, &self.config);
    }

    /// Analyses `symbol` on what is stored now.
    pub fn analyze_symbol(&self, symbol: &str) -> (signal: TradingSignal)
        ensures
            signal@ == self.analysis(symbol@),
    {
        let order_book = match self.order_book_storage.get_order_book(symbol) {
            Some(book) => book,
            None => {
                return TradingSignal::no_signal_with_reason(symbol, "No order book data");
            },
        };
        if order_book.bids.len() > MAX_ITEMS || order_book.asks.len() > MAX_ITEMS {
            return TradingSignal::no_signal_with_reason(symbol, "Order book is too deep");
        }
        let recent_trades = self.trade_storage.get_recent_trades(symbol, ANALYSIS_TRADES);
        assert(recent_trades@.len() <= ANALYSIS_TRADES) by {
            assert(crate::data::borrowed_trade_views(recent_trades@).len() == recent_trades@.len());
        }
        detect_signals(
            order_book,
            recent_trades.as_slice(),
            &self.strategy_params,
            self.config.strong_signal_confidence,
            self.config.reversal_signal_confidence,
            self.config.exhaustion_signal_confidence,
        )
    }
}

} // verus!
