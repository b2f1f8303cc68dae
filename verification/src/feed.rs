//! The messages of the venue's feed, as far as the analysis reads them, and
//! what each of them does to an engine.

use vstd::prelude::*;
use crate::data::{
    trades_after, BookView, OrderBookLevel, OrderBookSnapshot, TradeData, TradeView,
};
use crate::decimal::Decimal;
use crate::engine::OFIEngine;
use crate::text::{contains_text, parse_u64, text_eq, unsigned_numeral};

verus! {

/// The instrument type that the session subscribes to.
pub const INSTRUMENT_TYPE: &'static str = "USDT-FUTURES";

/// The channel of order-book updates.
pub const BOOK_CHANNEL: &'static str = "books";

/// The channel of trade updates.
pub const TRADE_CHANNEL: &'static str = "trade";

/// One level of a book update: price and quantity as the venue writes them.
#[derive(Debug)]
pub struct BitgetLevel {
    pub price: String,
    pub quantity: String,
}

/// One element of the data of a book update.
#[derive(Debug)]
pub struct BitgetOrderBookData {
    pub bids: Vec<BitgetLevel>,
    pub asks: Vec<BitgetLevel>,
    pub ts: String,
}

/// One element of the data of a trade update.
#[derive(Debug)]
pub struct BitgetTradeData {
    pub ts: String,
    pub price: String,
    pub size: String,
    pub side: String,
}

/// What a message is about.
#[derive(Debug)]
pub struct BitgetArg {
    pub inst_type: String,
    pub channel: String,
    pub inst_id: String,
}

/// The data of a message, read as its channel asks.
#[derive(Debug)]
pub enum BitgetData {
    /// The data of a message of the book channel.
    Books(Vec<BitgetOrderBookData>),
    /// The data of a message of the trade channel.
    Trades(Vec<BitgetTradeData>),
    /// Data of another channel, or data that does not have the shape that
    /// its channel asks for.
    Unreadable,
}

/// A message of the feed.
#[derive(Debug)]
pub struct BitgetWsResponse {
    pub action: Option<String>,
    pub arg: BitgetArg,
    pub data: Option<BitgetData>,
}

/// One channel of a subscription request.
#[derive(Debug)]
pub struct SubscriptionArg {
    pub inst_type: String,
    pub channel: String,
    pub inst_id: String,
}

/// The request that subscribes a session to its channels.
#[derive(Debug)]
pub struct Subscription {
    pub op: String,
    pub args: Vec<SubscriptionArg>,
}

/// The subscription request of a symbol: the book channel and the trade
/// channel of its instrument, in that order.
pub fn subscription_for(symbol: &str) -> (r: Subscription)
    ensures
        r.op@ == "subscribe"@,
        r.args@.len() == 2,
        r.args@[0].inst_type@ == INSTRUMENT_TYPE@,
        r.args@[0].channel@ == BOOK_CHANNEL@,
        r.args@[0].inst_id@ == symbol@,
        r.args@[1].inst_type@ == INSTRUMENT_TYPE@,
        r.args@[1].channel@ == TRADE_CHANNEL@,
        r.args@[1].inst_id@ == symbol@,
{
    let mut args: Vec<SubscriptionArg> = Vec::new();
    args.push(
        SubscriptionArg {
            inst_type: String::from_str(INSTRUMENT_TYPE),
            channel: String::from_str(BOOK_CHANNEL),
            inst_id: String::from_str(symbol),
        },
    );
    args.push(
        SubscriptionArg {
            inst_type: String::from_str(INSTRUMENT_TYPE),
            channel: String::from_str(TRADE_CHANNEL),
            inst_id: String::from_str(symbol),
        },
    );
    Subscription { op: String::from_str("subscribe"), args }
}

/// What a text frame is, by what it contains.
#[derive(Clone, Copy, Debug, PartialEq, Eq, Structural)]
pub enum TextKind {
    /// The venue's answer to a ping: nothing to do.
    Pong,
    /// An error report of the venue: to be logged.
    VenueError,
    /// Anything else: a message to read.
    Message,
}

/// The kind of a text frame: a pong if it contains `pong`, else an error
/// report if it contains `"event":"error"`, else a message.
pub open spec fn text_kind(text: Seq<char>) -> TextKind {
    if crate::text::occurs_in("pong"@, text) {
        TextKind::Pong
    } else if crate::text::occurs_in("\"event\":\"error\""@, text) {
        TextKind::VenueError
    } else {
        TextKind::Message
    }
}

/// Tells a pong and an error report from a message to read.
pub fn classify_text(text: &str) -> (r: TextKind)
    ensures
        r == text_kind(text@),
{
    if contains_text(text, "pong") {
        TextKind::Pong
    } else if contains_text(text, "\"event\":\"error\"") {
        TextKind::VenueError
    } else {
        TextKind::Message
    }
}

/// The level that the venue's texts denote, if both are numerals.
pub open spec fn level_of(level: BitgetLevel) -> Option<OrderBookLevel> {
    match (Decimal::numeral(level.price@), Decimal::numeral(level.quantity@)) {
        (Some(price), Some(quantity)) => Some(OrderBookLevel { price, quantity }),
        _ => None,
    }
}

/// The timestamp that a text denotes, if it is a numeral of 64 bits.
pub open spec fn timestamp_of(text: Seq<char>) -> Option<u64> {
    match unsigned_numeral(text) {
        Some(n) if n <= u64::MAX => Some(n as u64),
        _ => None,
    }
}

/// The levels that a side of an update denotes, if every one of them does.
pub open spec fn side_of(levels: Seq<BitgetLevel>) -> Option<Seq<OrderBookLevel>> {
    if forall|i: int| 0 <= i < levels.len() ==> (#[trigger] level_of(levels[i])).is_some() {
        Some(levels.map_values(|l: BitgetLevel| level_of(l).unwrap()))
    } else {
        None
    }
}

/// The book that an element of a book update denotes for `symbol`, if its
/// timestamp and every one of its levels can be read.
pub open spec fn book_of(update: BitgetOrderBookData, symbol: Seq<char>) -> Option<BookView> {
    match (side_of(update.bids@), side_of(update.asks@), timestamp_of(update.ts@)) {
        (Some(bids), Some(asks), Some(timestamp)) => Some(BookView { symbol, bids, asks, timestamp }),
        _ => None,
    }
}

/// The book that the data of a book update denotes: that of its first
/// element.
pub open spec fn first_book(updates: Seq<BitgetOrderBookData>, symbol: Seq<char>) -> Option<BookView> {
    if updates.len() == 0 {
        None
    } else {
        book_of(updates[0], symbol)
    }
}

/// The trade that an element of a trade update denotes for `symbol`, if its
/// price, size and timestamp can be read.
pub open spec fn trade_of(update: BitgetTradeData, symbol: Seq<char>) -> Option<TradeView> {
    match (Decimal::numeral(update.price@), Decimal::numeral(update.size@), timestamp_of(update.ts@)) {
        (Some(price), Some(quantity), Some(timestamp)) => Some(
            TradeView { symbol, price, quantity, side: update.side@, timestamp },
        ),
        _ => None,
    }
}

/// The trades that the data of a trade update denotes: those of its
/// elements that can be read, in their order.
pub open spec fn trades_of(updates: Seq<BitgetTradeData>, symbol: Seq<char>) -> Seq<TradeView> {
    updates.filter_map(|u: BitgetTradeData| trade_of(u, symbol))
}

fn parse_timestamp(text: &str) -> (r: Option<u64>)
    ensures
        r == timestamp_of(text@),
{
    parse_u64(text)
}

fn parse_level(level: &BitgetLevel) -> (r: Option<OrderBookLevel>)
    ensures
        r == level_of(*level),
{
    match Decimal::parse(level.price.as_str()) {
        Some(price) => match Decimal::parse(level.quantity.as_str()) {
            Some(quantity) => Some(OrderBookLevel { price, quantity }),
            None => None,
        },
        None => None,
    }
}

fn parse_side(levels: &Vec<BitgetLevel>) -> (r: Option<Vec<OrderBookLevel>>)
    ensures
        r.is_some() == side_of(levels@).is_some(),
        r.is_some() ==> r.unwrap()@ == side_of(levels@).unwrap(),
{
    let mut out: Vec<OrderBookLevel> = Vec::new();
    let mut i: usize = 0;
    while i < levels.len()
        invariant
            i <= levels.len(),
            out.len() == i,
            forall|k: int| 0 <= k < i ==> (#[trigger] level_of(levels[k])) == Some(out[k]),
        decreases levels.len() - i,
    {
        match parse_level(&levels[i]) {
            Some(level) => {
                out.push(level);
            },
            None => {
                assert(level_of(levels@[i as int]).is_none());
                return None;
            },
        }
        i += 1;
    }
    assert(out@ =~= levels@.map_values(|l: BitgetLevel| level_of(l).unwrap()));
    Some(out)
}

/// Reads the first element of the data of a book update as the book of
/// `symbol`. A level or a timestamp that cannot be read spoils the whole
/// update.
pub fn parse_order_book(updates: &Vec<BitgetOrderBookData>, symbol: &str) -> (r: Option<OrderBookSnapshot>)
    ensures
        r.is_some() == first_book(updates@, symbol@).is_some(),
        r.is_some() ==> r.unwrap()@ == first_book(updates@, symbol@).unwrap(),
{
    if updates.len() == 0 {
        return None;
    }
    let first_book = &updates[0];
    let timestamp = match parse_timestamp(first_book.ts.as_str()) {
        Some(ts) => ts,
        None => {
            return None;
        },
    };
    let bids = match parse_side(&first_book.bids) {
        Some(v) => v,
        None => {
            return None;
        },
    };
    let asks = match parse_side(&first_book.asks) {
        Some(v) => v,
        None => {
            return None;
        },
    };
    Some(OrderBookSnapshot { symbol: String::from_str(symbol), bids, asks, timestamp })
}

/// Reads one element of the data of a trade update as a trade of `symbol`.
pub fn parse_trade(update: &BitgetTradeData, symbol: &str) -> (r: Option<TradeData>)
    ensures
        r.is_some() == trade_of(*update, symbol@).is_some(),
        r.is_some() ==> r.unwrap()@ == trade_of(*update, symbol@).unwrap(),
{
    let price = match Decimal::parse(update.price.as_str()) {
        Some(v) => v,
        None => {
            return None;
        },
    };
    let quantity = match Decimal::parse(update.size.as_str()) {
        Some(v) => v,
        None => {
            return None;
        },
    };
    let timestamp = match parse_timestamp(update.ts.as_str()) {
        Some(v) => v,
        None => {
            return None;
        },
    };
    Some(
        TradeData {
            symbol: String::from_str(symbol),
            price,
            quantity,
            side: update.side.clone(),
            timestamp,
        },
    )
}

/// The books and trades of an engine after a message: a book update
/// replaces the book of the symbol it names, if its first element can be
/// read; a trade update adds the trades that can be read, in their order;
/// any other message changes nothing.
pub open spec fn books_after_message(
    books: Map<Seq<char>, BookView>,
    message: BitgetWsResponse,
) -> Map<Seq<char>, BookView> {
    match message.data {
        Some(BitgetData::Books(updates)) if message.arg.channel@ == BOOK_CHANNEL@ => match first_book(
            updates@,
            message.arg.inst_id@,
        ) {
            Some(book) => books.insert(book.symbol, book),
            None => books,
        },
        _ => books,
    }
}

/// See `books_after_message`.
pub open spec fn trades_after_message(
    trades: Map<Seq<char>, Seq<TradeView>>,
    limit: nat,
    message: BitgetWsResponse,
) -> Map<Seq<char>, Seq<TradeView>> {
    match message.data {
        Some(BitgetData::Trades(updates)) if message.arg.channel@ == TRADE_CHANNEL@ => trades_after(
            trades,
            trades_of(updates@, message.arg.inst_id@),
            limit,
        ),
        _ => trades,
    }
}

/// Adds the readable trades of a trade update to the engine.
fn apply_trades(engine: &mut OFIEngine, updates: &Vec<BitgetTradeData>, symbol: &str)
    ensures
        final(engine).trades() == trades_after(
            old(engine).trades(),
            trades_of(updates@, symbol@),
            old(engine).settings().trade_storage_limit as nat,
        ),
        final(engine).books() == old(engine).books(),
        final(engine).params() == old(engine).params(),
        final(engine).settings() == old(engine).settings(),
{
    let ghost read = |u: BitgetTradeData| trade_of(u, symbol@);
    let ghost limit = engine.settings().trade_storage_limit as nat;
    let mut i: usize = 0;
    while i < updates.len()
        invariant
            i <= updates.len(),
            read == |u: BitgetTradeData| trade_of(u, symbol@),
            limit == old(engine).settings().trade_storage_limit as nat,
            engine.trades() == trades_after(old(engine).trades(), updates@.take(i as int).filter_map(read), limit),
            engine.books() == old(engine).books(),
            engine.params() == old(engine).params(),
            engine.settings() == old(engine).settings(),
        decreases updates.len() - i,
    {
        proof {
            let seen = updates@.take(i as int);
            let next = updates@.take(i + 1);
            assert(next.drop_last() =~= seen);
            assert(next.last() == updates@[i as int]);
            match read(updates@[i as int]) {
                Some(t) => {
                    assert(next.filter_map(read) == seen.filter_map(read) + seq![t]);
                    assert((seen.filter_map(read) + seq![t]).drop_last() =~= seen.filter_map(read));
                    assert((seen.filter_map(read) + seq![t]).last() == t);
                },
                None => {
                    assert(next.filter_map(read) == seen.filter_map(read));
                },
            }
        }
        match parse_trade(&updates[i], symbol) {
            Some(trade) => {
                engine.add_trade(trade);
            },
            None => {},
        }
        i += 1;
    }
    assert(updates@.take(i as int) =~= updates@);
}

/// Applies a message to the engine and says whether an analysis is due:
/// it is after every message that carries data, whatever became of it.
pub fn apply_message(engine: &mut OFIEngine, message: &BitgetWsResponse) -> (due: bool)
    ensures
        due == message.data.is_some(),
        final(engine).books() == books_after_message(old(engine).books(), *message),
        final(engine).trades() == trades_after_message(
            old(engine).trades(),
            old(engine).settings().trade_storage_limit as nat,
            *message,
        ),
        final(engine).params() == old(engine).params(),
        final(engine).settings() == old(engine).settings(),
{
    match &message.data {
        None => false,
        Some(data) => {
            let channel = message.arg.channel.as_str();
            let symbol = message.arg.inst_id.as_str();
            match data {
                BitgetData::Books(updates) => {
                    if text_eq(channel, BOOK_CHANNEL) {
                        match parse_order_book(updates, symbol) {
                            Some(book) => {
                                engine.update_order_book(book);
                            },
                            None => {},
                        }
                    }
                },
                BitgetData::Trades(updates) => {
                    if text_eq(channel, TRADE_CHANNEL) {
                        apply_trades(engine, updates, symbol);
                    }
                },
                BitgetData::Unreadable => {},
            }
            true
        },
    }
}

} // verus!
