//! Order-book and trade data, and the in-memory stores that hold the latest
//! book and the recent trades of each symbol.

use vstd::prelude::*;
use crate::config::OFIConfig;
use crate::decimal::Decimal;
use crate::text::text_eq;

verus! {

/// One price level of an order book.
#[derive(Clone, Copy, Debug, PartialEq, Eq, Structural)]
pub struct OrderBookLevel {
    pub price: Decimal,
    pub quantity: Decimal,
}

impl OrderBookLevel {
    /// Price times quantity, in units of 10^-16.
    pub open spec fn notional(self) -> nat {
        self.price@ * self.quantity@
    }

    /// The invariant of a level of a real book: a positive price.
    pub open spec fn is_valid(self) -> bool {
        self.price@ > 0
    }
}

/// The order book of one symbol at one instant. Bids come best (highest)
/// first, asks best (lowest) first.
#[derive(Debug)]
pub struct OrderBookSnapshot {
    pub symbol: String,
    pub bids: Vec<OrderBookLevel>,
    pub asks: Vec<OrderBookLevel>,
    pub timestamp: u64,
}

/// What an `OrderBookSnapshot` holds.
pub struct BookView {
    pub symbol: Seq<char>,
    pub bids: Seq<OrderBookLevel>,
    pub asks: Seq<OrderBookLevel>,
    pub timestamp: u64,
}

impl View for OrderBookSnapshot {
    type V = BookView;

    open spec fn view(&self) -> BookView {
        BookView {
            symbol: self.symbol@,
            bids: self.bids@,
            asks: self.asks@,
            timestamp: self.timestamp,
        }
    }
}

impl BookView {
    /// The invariant of a real book: valid levels, and the best bid below the
    /// best ask.
    pub open spec fn is_valid(self) -> bool {
        &&& forall|i: int| 0 <= i < self.bids.len() ==> (#[trigger] self.bids[i]).is_valid()
        &&& forall|i: int| 0 <= i < self.asks.len() ==> (#[trigger] self.asks[i]).is_valid()
        &&& self.bids.len() > 0 && self.asks.len() > 0 ==> self.bids[0].price@ < self.asks[0].price@
    }
}

fn copy_levels(levels: &Vec<OrderBookLevel>) -> (r: Vec<OrderBookLevel>)
    ensures
        r@ == levels@,
{
    let mut r: Vec<OrderBookLevel> = Vec::new();
    let mut i: usize = 0;
    while i < levels.len()
        invariant
            i <= levels.len(),
            r@ == levels@.take(i as int),
        decreases levels.len() - i,
    {
        r.push(levels[i]);
        i += 1;
    }
    r
}

impl Clone for OrderBookSnapshot {
    fn clone(&self) -> (r: Self)
        ensures
            r@ == self@,
    {
        OrderBookSnapshot {
            symbol: self.symbol.clone(),
            bids: copy_levels(&self.bids),
            asks: copy_levels(&self.asks),
            timestamp: self.timestamp,
        }
    }
}

impl Default for OrderBookSnapshot {
    fn default() -> (r: Self)
        ensures
            r@ == (BookView { symbol: Seq::empty(), bids: Seq::empty(), asks: Seq::empty(), timestamp: 0 }),
    {
        OrderBookSnapshot { symbol: String::new(), bids: Vec::new(), asks: Vec::new(), timestamp: 0 }
    }
}

/// One trade. `side` is the taker's side, `"buy"` or `"sell"`.
#[derive(Debug)]
pub struct TradeData {
    pub symbol: String,
    pub price: Decimal,
    pub quantity: Decimal,
    pub side: String,
    pub timestamp: u64,
}

/// What a `TradeData` holds.
pub struct TradeView {
    pub symbol: Seq<char>,
    pub price: Decimal,
    pub quantity: Decimal,
    pub side: Seq<char>,
    pub timestamp: u64,
}

impl View for TradeData {
    type V = TradeView;

    open spec fn view(&self) -> TradeView {
        TradeView {
            symbol: self.symbol@,
            price: self.price,
            quantity: self.quantity,
            side: self.side@,
            timestamp: self.timestamp,
        }
    }
}

impl Clone for TradeData {
    fn clone(&self) -> (r: Self)
        ensures
            r@ == self@,
    {
        TradeData {
            symbol: self.symbol.clone(),
            price: self.price,
            quantity: self.quantity,
            side: self.side.clone(),
            timestamp: self.timestamp,
        }
    }
}

/// The views of a sequence of trades.
pub open spec fn trade_views(trades: Seq<TradeData>) -> Seq<TradeView> {
    trades.map_values(|t: TradeData| t@)
}

/// The views of a sequence of borrowed trades.
pub open spec fn borrowed_trade_views(trades: Seq<&TradeData>) -> Seq<TradeView> {
    trades.map_values(|t: &TradeData| t@)
}

spec fn has_symbol(symbols: Seq<String>, s: Seq<char>) -> bool {
    exists|i: int| 0 <= i < symbols.len() && (#[trigger] symbols[i])@ == s
}

spec fn slot_of(symbols: Seq<String>, s: Seq<char>) -> int {
    choose|i: int| 0 <= i < symbols.len() && (#[trigger] symbols[i])@ == s
}

spec fn distinct(symbols: Seq<String>) -> bool {
    forall|i: int, j: int|
        0 <= i < j < symbols.len() ==> (#[trigger] symbols[i])@ != (#[trigger] symbols[j])@
}

proof fn lemma_unique_slot(symbols: Seq<String>, s: Seq<char>, i: int)
    requires
        distinct(symbols),
        0 <= i < symbols.len(),
        symbols[i]@ == s,
    ensures
        has_symbol(symbols, s),
        slot_of(symbols, s) == i,
{
    let j = slot_of(symbols, s);
    assert(0 <= j < symbols.len() && symbols[j]@ == s);
    if j != i {
        if j < i {
            assert(symbols[j]@ != symbols[i]@);
        } else {
            assert(symbols[i]@ != symbols[j]@);
        }
    }
}

/// Replacing what `symbols[i]` maps to changes the map at that key alone.
proof fn lemma_replace<T>(symbols: Seq<String>, before: Seq<T>, after: Seq<T>, i: int, s: Seq<char>)
    requires
        distinct(symbols),
        symbols.len() == before.len(),
        0 <= i < symbols.len(),
        symbols[i]@ == s,
        after == before.update(i, after[i]),
    ensures
        forall|k: Seq<char>| has_symbol(symbols, k) && k != s ==> #[trigger] after[slot_of(symbols, k)] == before[slot_of(symbols, k)],
        has_symbol(symbols, s),
        slot_of(symbols, s) == i,
{
    lemma_unique_slot(symbols, s, i);
    assert forall|k: Seq<char>| has_symbol(symbols, k) && k != s implies #[trigger] after[slot_of(symbols, k)] == before[slot_of(symbols, k)] by {
        let j = slot_of(symbols, k);
        assert(0 <= j < symbols.len() && symbols[j]@ == k);
    }
}

/// Appending a fresh symbol keeps every other key's slot.
proof fn lemma_append(symbols: Seq<String>, extended: Seq<String>, s: Seq<char>)
    requires
        distinct(symbols),
        !has_symbol(symbols, s),
        extended.len() == symbols.len() + 1,
        extended.take(symbols.len() as int) == symbols,
        extended.last()@ == s,
    ensures
        distinct(extended),
        has_symbol(extended, s),
        slot_of(extended, s) == symbols.len(),
        forall|k: Seq<char>| k != s ==> has_symbol(extended, k) == has_symbol(symbols, k),
        forall|k: Seq<char>| k != s && has_symbol(symbols, k) ==> #[trigger] slot_of(extended, k) == slot_of(symbols, k),
{
    let n = symbols.len() as int;
    assert forall|i: int| 0 <= i < n implies (#[trigger] extended[i]) == symbols[i] by {
        assert(extended.take(n)[i] == extended[i]);
    }
    assert forall|i: int, j: int| 0 <= i < j < extended.len() implies (#[trigger] extended[i])@ != (#[trigger] extended[j])@ by {
        if j < n {
            assert(symbols[i]@ != symbols[j]@);
        } else {
            if extended[i]@ == s {
                assert(symbols[i]@ == s);
                assert(has_symbol(symbols, s));
            }
        }
    }
    lemma_unique_slot(extended, s, n);
    assert forall|k: Seq<char>| k != s implies has_symbol(extended, k) == has_symbol(symbols, k) by {
        if has_symbol(extended, k) {
            let j = slot_of(extended, k);
            assert(0 <= j < extended.len() && extended[j]@ == k);
            assert(j < n);
            assert(symbols[j]@ == k);
        }
        if has_symbol(symbols, k) {
            let j = slot_of(symbols, k);
            assert(0 <= j < n && symbols[j]@ == k);
            assert(extended[j]@ == k);
        }
    }
    assert forall|k: Seq<char>| k != s && has_symbol(symbols, k) implies #[trigger] slot_of(extended, k) == slot_of(symbols, k) by {
        let j = slot_of(symbols, k);
        assert(0 <= j < n && symbols[j]@ == k);
        assert(extended[j]@ == k);
        lemma_unique_slot(extended, k, j);
    }
}

fn find_symbol(symbols: &Vec<String>, symbol: &str) -> (r: Option<usize>)
    ensures
        match r {
            Some(i) => i < symbols.len() && symbols[i as int]@ == symbol@,
            None => !has_symbol(symbols@, symbol@),
        },
{
    let mut i: usize = 0;
    while i < symbols.len()
        invariant
            i <= symbols.len(),
            forall|k: int| 0 <= k < i ==> (#[trigger] symbols[k])@ != symbol@,
        decreases symbols.len() - i,
    {
        if text_eq(symbols[i].as_str(), symbol) {
            return Some(i);
        }
        i += 1;
    }
    None
}

/// The latest order book of each symbol.
#[derive(Debug)]
pub struct OrderBookStorage {
    symbols: Vec<String>,
    books: Vec<OrderBookSnapshot>,
}

impl View for OrderBookStorage {
    type V = Map<Seq<char>, BookView>;

    /// The stored book of each symbol that has one.
    closed spec fn view(&self) -> Map<Seq<char>, BookView> {
        Map::new(
            |s: Seq<char>| has_symbol(self.symbols@, s),
            |s: Seq<char>| self.books[slot_of(self.symbols@, s)]@,
        )
    }
}

impl OrderBookStorage {
    #[verifier::type_invariant]
    spec fn well_formed(self) -> bool {
        &&& self.symbols.len() == self.books.len()
        &&& distinct(self.symbols@)
        &&& forall|i: int| 0 <= i < self.books.len() ==> (#[trigger] self.books[i]).symbol@ == self.symbols[i]@
    }

    /// A store with no book.
    pub fn new() -> (r: Self)
        ensures
            r@ == Map::<Seq<char>, BookView>::empty(),
    {
        let r = OrderBookStorage { symbols: Vec::new(), books: Vec::new() };
        assert(r@ =~= Map::<Seq<char>, BookView>::empty());
        r
    }

    /// Replaces the book of `book.symbol`; the books of other symbols stay.
    pub fn update_order_book(&mut self, book: OrderBookSnapshot)
        ensures
            final(self)@ == old(self)@.insert(book.symbol@, book@),
    {
        proof {
            use_type_invariant(&*self);
        }
        let found = find_symbol(&self.symbols, book.symbol.as_str());
        let mut taken = OrderBookStorage { symbols: Vec::new(), books: Vec::new() };
        std::mem::swap(self, &mut taken);
        let OrderBookStorage { mut symbols, mut books } = taken;
        match found {
            Some(i) => {
                books[i] = book;
                proof {
                    lemma_replace(symbols@, old(self).books@, books@, i as int, book.symbol@);
                }
            },
            None => {
                symbols.push(book.symbol.clone());
                books.push(book);
                proof {
                    assert(symbols@.take(old(self).symbols@.len() as int) =~= old(self).symbols@);
                    lemma_append(old(self).symbols@, symbols@, book.symbol@);
                }
            },
        }
        *self = OrderBookStorage { symbols, books };
        assert(self@ =~= old(self)@.insert(book.symbol@, book@));
    }

    /// The stored book of `symbol`, if it has one.
    pub fn get_order_book(&self, symbol: &str) -> (r: Option<&OrderBookSnapshot>)
        ensures
            r.is_some() == self@.dom().contains(symbol@),
            r.is_some() ==> r.unwrap()@ == self@[symbol@],
            r.is_some() ==> r.unwrap().symbol@ == symbol@,
    {
        proof {
            use_type_invariant(self);
        }
        match find_symbol(&self.symbols, symbol) {
            Some(i) => Some(&self.books[i]),
            None => None,
        }
    }
}

/// The history of `symbol` in a trade store's view: empty if it has none.
pub open spec fn history(store: Map<Seq<char>, Seq<TradeView>>, symbol: Seq<char>) -> Seq<TradeView> {
    if store.dom().contains(symbol) {
        store[symbol]
    } else {
        Seq::empty()
    }
}

/// The newest `limit` entries of a history, oldest first.
pub open spec fn retained(trades: Seq<TradeView>, limit: nat) -> Seq<TradeView> {
    if trades.len() <= limit {
        trades
    } else {
        trades.skip(trades.len() - limit)
    }
}

/// The newest `count` entries of a history, newest first.
pub open spec fn recent(trades: Seq<TradeView>, count: nat) -> Seq<TradeView> {
    Seq::new(
        if count <= trades.len() { count } else { trades.len() },
        |i: int| trades[trades.len() - 1 - i],
    )
}

/// The recent trades of each symbol, oldest first.
#[derive(Debug)]
pub struct TradeStorage {
    symbols: Vec<String>,
    histories: Vec<Vec<TradeData>>,
}

impl View for TradeStorage {
    type V = Map<Seq<char>, Seq<TradeView>>;

    /// The stored trades of each symbol that has a history, in arrival order.
    closed spec fn view(&self) -> Map<Seq<char>, Seq<TradeView>> {
        Map::new(
            |s: Seq<char>| has_symbol(self.symbols@, s),
            |s: Seq<char>| trade_views(self.histories[slot_of(self.symbols@, s)]@),
        )
    }
}

impl TradeStorage {
    #[verifier::type_invariant]
    spec fn well_formed(self) -> bool {
        &&& self.symbols.len() == self.histories.len()
        &&& distinct(self.symbols@)
    }

    /// A store with no history.
    pub fn new() -> (r: Self)
        ensures
            r@ == Map::<Seq<char>, Seq<TradeView>>::empty(),
    {
        let r = TradeStorage { symbols: Vec::new(), histories: Vec::new() };
        assert(r@ =~= Map::<Seq<char>, Seq<TradeView>>::empty());
        r
    }

    /// The slot of `symbol`, made empty first if the symbol is new.
    fn slot_for(&mut self, symbol: &String) -> (slot: usize)
        ensures
            final(self)@ == old(self)@.insert(symbol@, history(old(self)@, symbol@)),
            slot < final(self).symbols.len(),
            final(self).symbols[slot as int]@ == symbol@,
    {
        proof {
            use_type_invariant(&*self);
        }
        match find_symbol(&self.symbols, symbol.as_str()) {
            Some(i) => {
                proof {
                    lemma_unique_slot(self.symbols@, symbol@, i as int);
                    assert(self@ =~= old(self)@.insert(symbol@, history(old(self)@, symbol@)));
                }
                i
            },
            None => {
                let mut taken = TradeStorage { symbols: Vec::new(), histories: Vec::new() };
                std::mem::swap(self, &mut taken);
                let TradeStorage { mut symbols, mut histories } = taken;
                symbols.push(symbol.clone());
                histories.push(Vec::new());
                let slot: usize = symbols.len() - 1;
                proof {
                    assert(symbols@.take(old(self).symbols@.len() as int) =~= old(self).symbols@);
                    lemma_append(old(self).symbols@, symbols@, symbol@);
                    assert(trade_views(histories@.last()@) =~= Seq::<TradeView>::empty());
                }
                *self = TradeStorage { symbols, histories };
                assert(self@ =~= old(self)@.insert(symbol@, history(old(self)@, symbol@)));
                slot
            },
        }
    }

    /// Appends `trade` to the history of its symbol, then drops the oldest
    /// entries until at most `config.trade_storage_limit` are left.
    pub fn add_trade(&mut self, trade: TradeData, config: &OFIConfig)
        ensures
            final(self)@ == old(self)@.insert(
                trade.symbol@,
                retained(
                    history(old(self)@, trade.symbol@).push(trade@),
                    config.trade_storage_limit as nat,
                ),
            ),
    {
        let limit: usize = config.trade_storage_limit;
        let slot: usize = self.slot_for(&trade.symbol);
        proof {
            use_type_invariant(&*self);
            lemma_unique_slot(self.symbols@, trade.symbol@, slot as int);
        }
        let ghost start = *self;
        let ghost full = history(old(self)@, trade.symbol@).push(trade@);
        let ghost mut dropped: int = 0;
        let ghost before_push = self.histories[slot as int]@;
        assert(trade_views(before_push) == history(old(self)@, trade.symbol@)) by {
            assert(self@.dom().contains(trade.symbol@));
            assert(self@[trade.symbol@] == trade_views(before_push));
        }
        self.histories[slot].push(trade);
        assert(self.histories[slot as int]@ == before_push.push(trade));
        assert(trade_views(self.histories[slot as int]@) =~= full);
        while self.histories[slot].len() > limit
            invariant
                slot < self.histories.len(),
                self.symbols@ == start.symbols@,
                self.histories.len() == start.histories.len(),
                forall|j: int| 0 <= j < self.histories.len() && j != slot ==> self.histories[j] == start.histories[j],
                0 <= dropped <= full.len(),
                trade_views(self.histories[slot as int]@) == full.skip(dropped),
                dropped > 0 ==> full.len() - dropped >= limit,
            decreases self.histories[slot as int].len(),
        {
            proof {
                use_type_invariant(&*self);
            }
            let ghost before = self.histories[slot as int]@;
            self.histories[slot].remove(0);
            proof {
                assert(self.histories[slot as int]@ =~= before.skip(1));
                assert(trade_views(before.skip(1)) =~= trade_views(before).skip(1));
                assert(full.skip(dropped).skip(1) =~= full.skip(dropped + 1));
                dropped = dropped + 1;
            }
        }
        proof {
            let kept = retained(full, limit as nat);
            assert(trade_views(self.histories[slot as int]@) == kept);
            assert(self.histories@ =~= start.histories@.update(slot as int, self.histories[slot as int]));
            lemma_replace(self.symbols@, start.histories@, self.histories@, slot as int, trade.symbol@);
            assert(self@ =~= start@.insert(trade.symbol@, kept));
            assert(start@.insert(trade.symbol@, kept) =~= old(self)@.insert(trade.symbol@, kept));
        }
    }

    /// The stored trades of `symbol`, oldest first, if it has a history.
    pub fn get_trades(&self, symbol: &str) -> (r: Option<&Vec<TradeData>>)
        ensures
            r.is_some() == self@.dom().contains(symbol@),
            r.is_some() ==> trade_views(r.unwrap()@) == self@[symbol@],
    {
        proof {
            use_type_invariant(self);
        }
        match find_symbol(&self.symbols, symbol) {
            Some(i) => Some(&self.histories[i]),
            None => None,
        }
    }

    /// The newest `limit` trades of `symbol`, newest first; none for a symbol
    /// without a history.
    pub fn get_recent_trades(&self, symbol: &str, limit: usize) -> (r: Vec<&TradeData>)
        ensures
            borrowed_trade_views(r@) == recent(history(self@, symbol@), limit as nat),
    {
        let mut out: Vec<&TradeData> = Vec::new();
        match self.get_trades(symbol) {
            Some(trades) => {
                let n: usize = trades.len();
                let mut i: usize = 0;
                while i < n && i < limit
                    invariant
                        n == trades.len(),
                        i <= n,
                        i <= limit,
                        out.len() == i,
                        forall|k: int| 0 <= k < i ==> (#[trigger] out[k])@ == trades[n - 1 - k]@,
                    decreases n - i,
                {
                    out.push(&trades[n - 1 - i]);
                    i += 1;
                }
                assert(borrowed_trade_views(out@) =~= recent(trade_views(trades@), limit as nat));
            },
            None => {
                assert(borrowed_trade_views(out@) =~= recent(Seq::<TradeView>::empty(), limit as nat));
            },
        }
        out
    }
}

/// The view of a book store after a run of updates, applied oldest first.
pub open spec fn books_after(start: Map<Seq<char>, BookView>, updates: Seq<BookView>) -> Map<
    Seq<char>,
    BookView,
>
    decreases updates.len(),
{
    if updates.len() == 0 {
        start
    } else {
        books_after(start, updates.drop_last()).insert(updates.last().symbol, updates.last())
    }
}

/// After any run of updates the book store holds, for a symbol, the last
/// update of the run that names it; a symbol that the run does not name keeps
/// what it had.
pub proof fn lemma_store_holds_latest_book(
    start: Map<Seq<char>, BookView>,
    updates: Seq<BookView>,
    symbol: Seq<char>,
)
    ensures
        forall|i: int|
            0 <= i < updates.len() && (#[trigger] updates[i]).symbol == symbol && (forall|j: int|
                i < j < updates.len() ==> (#[trigger] updates[j]).symbol != symbol) ==> {
                &&& books_after(start, updates).dom().contains(symbol)
                &&& books_after(start, updates)[symbol] == updates[i]
            },
        (forall|j: int| 0 <= j < updates.len() ==> (#[trigger] updates[j]).symbol != symbol) ==> {
            &&& books_after(start, updates).dom().contains(symbol) == start.dom().contains(symbol)
            &&& start.dom().contains(symbol) ==> books_after(start, updates)[symbol] == start[symbol]
        },
    decreases updates.len(),
{
    if updates.len() > 0 {
        let shorter = updates.drop_last();
        lemma_store_holds_latest_book(start, shorter, symbol);
        assert forall|i: int|
            0 <= i < updates.len() && (#[trigger] updates[i]).symbol == symbol && (forall|j: int|
                i < j < updates.len() ==> (#[trigger] updates[j]).symbol != symbol) implies {
            &&& books_after(start, updates).dom().contains(symbol)
            &&& books_after(start, updates)[symbol] == updates[i]
        } by {
            if i < updates.len() - 1 {
                assert(updates.last() == updates[updates.len() - 1]);
                assert(shorter[i] == updates[i]);
                assert forall|j: int| i < j < shorter.len() implies (#[trigger] shorter[j]).symbol != symbol by {
                    assert(shorter[j] == updates[j]);
                }
            }
        }
        if forall|j: int| 0 <= j < updates.len() ==> (#[trigger] updates[j]).symbol != symbol {
            assert(updates.last() == updates[updates.len() - 1]);
            assert forall|j: int| 0 <= j < shorter.len() implies (#[trigger] shorter[j]).symbol != symbol by {
                assert(shorter[j] == updates[j]);
            }
        }
    }
}

/// The view of a trade store after a run of arrivals, added oldest first
/// under one storage limit.
pub open spec fn trades_after(
    start: Map<Seq<char>, Seq<TradeView>>,
    arrivals: Seq<TradeView>,
    limit: nat,
) -> Map<Seq<char>, Seq<TradeView>>
    decreases arrivals.len(),
{
    if arrivals.len() == 0 {
        start
    } else {
        let before = trades_after(start, arrivals.drop_last(), limit);
        let trade = arrivals.last();
        before.insert(trade.symbol, retained(history(before, trade.symbol).push(trade), limit))
    }
}

/// After any run of arrivals into an empty trade store, the history of a
/// symbol is the newest `limit` of the arrivals that name it, in arrival
/// order: `min(n, limit)` trades where `n` of the arrivals name the symbol.
pub proof fn lemma_store_holds_newest_trades(arrivals: Seq<TradeView>, limit: nat, symbol: Seq<char>)
    ensures
        history(trades_after(Map::empty(), arrivals, limit), symbol) == retained(
            arrivals.filter(|t: TradeView| t.symbol == symbol),
            limit,
        ),
        retained(arrivals.filter(|t: TradeView| t.symbol == symbol), limit).len() == if arrivals.filter(
            |t: TradeView| t.symbol == symbol,
        ).len() <= limit {
            arrivals.filter(|t: TradeView| t.symbol == symbol).len()
        } else {
            limit
        },
    decreases arrivals.len(),
{
    reveal(Seq::filter);
    let named = |t: TradeView| t.symbol == symbol;
    if arrivals.len() > 0 {
        let shorter = arrivals.drop_last();
        let trade = arrivals.last();
        lemma_store_holds_newest_trades(shorter, limit, symbol);
        let before = trades_after(Map::empty(), shorter, limit);
        let earlier = shorter.filter(named);
        if trade.symbol == symbol {
            assert(arrivals.filter(named) == earlier.push(trade));
            let kept = retained(earlier, limit);
            assert(retained(kept.push(trade), limit) =~= retained(earlier.push(trade), limit));
        } else {
            assert(arrivals.filter(named) == earlier);
        }
    }
}

} // verus!
