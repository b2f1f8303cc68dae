//! The deduplication gate of a feed session: of the signals of one symbol
//! and type, it lets one through per window.

use vstd::prelude::*;
use crate::signals::SignalType;
use crate::text::text_eq;

verus! {

/// Length of the window in which a signal of one symbol and type is let
/// through once, in milliseconds.
pub const DEDUP_WINDOW_MS: u64 = 5_000;

/// What a gate tells signals apart by: symbol and signal type.
pub type SignalKey = (Seq<char>, SignalType);

/// One signal that a gate let through, and when.
#[derive(Debug)]
pub struct GateEntry {
    pub symbol: String,
    pub signal_type: SignalType,
    pub time_ms: u64,
}

impl GateEntry {
    /// The key of the entry.
    pub open spec fn key(self) -> SignalKey {
        (self.symbol@, self.signal_type)
    }
}

/// Whether an entry made at `last_ms` still counts at `now_ms`: it does
/// until it is older than the window.
pub open spec fn is_live(last_ms: u64, now_ms: u64) -> bool {
    now_ms <= last_ms || now_ms - last_ms <= DEDUP_WINDOW_MS
}

/// The entries that still count at `now_ms`.
pub open spec fn live(entries: Map<SignalKey, u64>, now_ms: u64) -> Map<SignalKey, u64> {
    Map::new(|k: SignalKey| entries.dom().contains(k) && is_live(entries[k], now_ms), |k: SignalKey| entries[k])
}

/// Whether a gate lets a candidate through: no entry for its key still
/// counts.
pub open spec fn lets_through(entries: Map<SignalKey, u64>, key: SignalKey, now_ms: u64) -> bool {
    !live(entries, now_ms).dom().contains(key)
}

/// The entries after a candidate: the stale ones are gone, and a candidate
/// that was let through is entered with its time.
pub open spec fn after_candidate(entries: Map<SignalKey, u64>, key: SignalKey, now_ms: u64) -> Map<
    SignalKey,
    u64,
> {
    if lets_through(entries, key, now_ms) {
        live(entries, now_ms).insert(key, now_ms)
    } else {
        live(entries, now_ms)
    }
}

/// The map that a run of entries stands for.
spec fn entry_map(entries: Seq<GateEntry>) -> Map<SignalKey, u64>
    decreases entries.len(),
{
    if entries.len() == 0 {
        Map::empty()
    } else {
        entry_map(entries.drop_last()).insert(entries.last().key(), entries.last().time_ms)
    }
}

spec fn distinct_keys(entries: Seq<GateEntry>) -> bool {
    forall|i: int, j: int| 0 <= i < j < entries.len() ==> (#[trigger] entries[i]).key() != (#[trigger] entries[j]).key()
}

/// The keys of the map are the keys of the entries.
proof fn lemma_entry_keys(entries: Seq<GateEntry>, key: SignalKey)
    ensures
        entry_map(entries).dom().contains(key) == exists|i: int|
            0 <= i < entries.len() && (#[trigger] entries[i]).key() == key,
    decreases entries.len(),
{
    if entries.len() > 0 {
        let shorter = entries.drop_last();
        lemma_entry_keys(shorter, key);
        if entry_map(entries).dom().contains(key) {
            if entries.last().key() == key {
                assert(entries[entries.len() - 1].key() == key);
            } else {
                let i = choose|i: int| 0 <= i < shorter.len() && (#[trigger] shorter[i]).key() == key;
                assert(entries[i].key() == key);
            }
        }
        if exists|i: int| 0 <= i < entries.len() && (#[trigger] entries[i]).key() == key {
            let i = choose|i: int| 0 <= i < entries.len() && (#[trigger] entries[i]).key() == key;
            if i < entries.len() - 1 {
                assert(shorter[i].key() == key);
            }
        }
    }
}

/// The signals that were let through and still count, by symbol and type.
#[derive(Debug)]
pub struct DedupGate {
    entries: Vec<GateEntry>,
}

impl View for DedupGate {
    type V = Map<SignalKey, u64>;

    /// The time at which each key was last let through, for the keys that
    /// a gate still holds.
    closed spec fn view(&self) -> Map<SignalKey, u64> {
        entry_map(self.entries@)
    }
}

impl DedupGate {
    #[verifier::type_invariant]
    spec fn well_formed(self) -> bool {
        distinct_keys(self.entries@)
    }

    /// A gate that holds nothing.
    pub fn new() -> (r: Self)
        ensures
            r@ == Map::<SignalKey, u64>::empty(),
    {
        DedupGate { entries: Vec::new() }
    }

    /// Offers a candidate to this gate at `now_ms`. Entries older than the
    /// window are dropped first; the candidate is let through, and entered,
    /// unless an entry of its symbol and type is left.
    pub fn offer(&mut self, symbol: &str, signal_type: SignalType, now_ms: u64) -> (passed: bool)
        ensures
            passed == lets_through(old(self)@, (symbol@, signal_type), now_ms),
            final(self)@ == after_candidate(old(self)@, (symbol@, signal_type), now_ms),
    {
        proof {
            use_type_invariant(&*self);
        }
        let ghost key: SignalKey = (symbol@, signal_type);
        let mut taken = DedupGate { entries: Vec::new() };
        std::mem::swap(self, &mut taken);
        let DedupGate { entries: mut before } = taken;
        let ghost all = before@;
        let mut kept: Vec<GateEntry> = Vec::new();
        let mut present = false;
        let mut done: Ghost<int> = Ghost(0);
        while before.len() > 0
            invariant
                distinct_keys(all),
                0 <= done@ <= all.len(),
                before@ == all.skip(done@),
                key == (symbol@, signal_type),
                distinct_keys(kept@),
                entry_map(kept@) == live(entry_map(all.take(done@)), now_ms),
                present == entry_map(kept@).dom().contains(key),
            decreases before.len(),
        {
            let entry = before.remove(0);
            proof {
                let i = done@;
                let seen = all.take(i);
                assert(entry == all[i]);
                assert(all.skip(i).remove(0) =~= all.skip(i + 1));
                assert(all.take(i + 1).drop_last() =~= seen);
                assert(all.take(i + 1).last() == entry);
                lemma_entry_keys(seen, entry.key());
                if entry_map(seen).dom().contains(entry.key()) {
                    let j = choose|j: int| 0 <= j < seen.len() && (#[trigger] seen[j]).key() == entry.key();
                    assert(all[j].key() == all[i].key());
                }
                assert(live(entry_map(seen).insert(entry.key(), entry.time_ms), now_ms) =~= if is_live(
                    entry.time_ms,
                    now_ms,
                ) {
                    live(entry_map(seen), now_ms).insert(entry.key(), entry.time_ms)
                } else {
                    live(entry_map(seen), now_ms)
                });
                lemma_entry_keys(kept@, entry.key());
            }
            let age_ok = now_ms <= entry.time_ms || now_ms - entry.time_ms <= DEDUP_WINDOW_MS;
            if age_ok {
                if entry.signal_type == signal_type && text_eq(entry.symbol.as_str(), symbol) {
                    present = true;
                }
                let ghost old_kept = kept@;
                kept.push(entry);
                proof {
                    assert(kept@.drop_last() =~= old_kept);
                    assert forall|a: int, b: int| 0 <= a < b < kept@.len() implies (#[trigger] kept@[a]).key() != (
                    #[trigger] kept@[b]).key() by {
                        if b == kept@.len() - 1 {
                            assert(old_kept[a].key() == kept@[a].key());
                        } else {
                            assert(old_kept[a].key() == kept@[a].key());
                            assert(old_kept[b].key() == kept@[b].key());
                        }
                    }
                }
            }
            proof {
                done@ = done@ + 1;
            }
        }
        proof {
            assert(all.take(done@) =~= all);
        }
        if !present {
            let ghost old_kept = kept@;
            proof {
                lemma_entry_keys(old_kept, key);
            }
            kept.push(GateEntry { symbol: String::from_str(symbol), signal_type, time_ms: now_ms });
            proof {
                assert(kept@.drop_last() =~= old_kept);
                assert forall|a: int, b: int| 0 <= a < b < kept@.len() implies (#[trigger] kept@[a]).key() != (
                #[trigger] kept@[b]).key() by {
                    if b == kept@.len() - 1 {
                        assert(old_kept[a].key() == kept@[a].key());
                    } else {
                        assert(old_kept[a].key() == kept@[a].key());
                        assert(old_kept[b].key() == kept@[b].key());
                    }
                }
            }
        }
        *self = DedupGate { entries: kept };
        !present
    }
}

/// A signal offered to a gate: its key and the time of the offer.
pub struct Candidate {
    pub key: SignalKey,
    pub now_ms: u64,
}

/// The entries of a gate after a run of candidates, offered in order.
pub open spec fn gate_after(entries: Map<SignalKey, u64>, candidates: Seq<Candidate>) -> Map<SignalKey, u64>
    decreases candidates.len(),
{
    if candidates.len() == 0 {
        entries
    } else {
        after_candidate(
            gate_after(entries, candidates.drop_last()),
            candidates.last().key,
            candidates.last().now_ms,
        )
    }
}

/// Whether a gate lets the candidate at position `i` of a run through.
pub open spec fn passed_at(entries: Map<SignalKey, u64>, candidates: Seq<Candidate>, i: int) -> bool {
    lets_through(gate_after(entries, candidates.take(i)), candidates[i].key, candidates[i].now_ms)
}

/// Whether the times of a run of candidates never go back.
pub open spec fn in_time_order(candidates: Seq<Candidate>) -> bool {
    forall|i: int, j: int|
        0 <= i <= j < candidates.len() ==> (#[trigger] candidates[i]).now_ms <= (#[trigger] candidates[j]).now_ms
}

/// While an entry counts, a candidate of its key is dropped and the entry
/// stays as it is.
pub proof fn lemma_repeat_in_window_is_dropped(entries: Map<SignalKey, u64>, key: SignalKey, now_ms: u64)
    requires
        entries.dom().contains(key),
        is_live(entries[key], now_ms),
    ensures
        !lets_through(entries, key, now_ms),
        after_candidate(entries, key, now_ms).dom().contains(key),
        after_candidate(entries, key, now_ms)[key] == entries[key],
{
}

/// A candidate whose key has no entry, or one older than the window, is let
/// through and entered with its time.
pub proof fn lemma_tail_is_let_through(entries: Map<SignalKey, u64>, key: SignalKey, now_ms: u64)
    requires
        entries.dom().contains(key) ==> now_ms > entries[key] + DEDUP_WINDOW_MS,
    ensures
        lets_through(entries, key, now_ms),
        after_candidate(entries, key, now_ms).dom().contains(key),
        after_candidate(entries, key, now_ms)[key] == now_ms,
{
}

/// What holds of a key from the moment it was let through at `since_ms`
/// until a later offer at `last_ms`: the map holds it with a time between
/// the two, or it has gone stale and more than a window has passed.
spec fn held_or_stale(entries: Map<SignalKey, u64>, key: SignalKey, since_ms: u64, last_ms: u64) -> bool {
    if entries.dom().contains(key) {
        since_ms <= entries[key] <= last_ms
    } else {
        last_ms > since_ms + DEDUP_WINDOW_MS
    }
}

proof fn lemma_held_or_stale(entries: Map<SignalKey, u64>, candidates: Seq<Candidate>, i: int, k: int)
    requires
        in_time_order(candidates),
        0 <= i < k <= candidates.len(),
        passed_at(entries, candidates, i),
    ensures
        held_or_stale(
            gate_after(entries, candidates.take(k)),
            candidates[i].key,
            candidates[i].now_ms,
            candidates[k - 1].now_ms,
        ),
    decreases k - i,
{
    let run = candidates.take(k);
    assert(run.drop_last() =~= candidates.take(k - 1));
    assert(run.last() == candidates[k - 1]);
    if k > i + 1 {
        lemma_held_or_stale(entries, candidates, i, k - 1);
        assert(candidates[k - 2].now_ms <= candidates[k - 1].now_ms);
        assert(candidates[i].now_ms <= candidates[k - 1].now_ms);
    }
}

/// Of the candidates of one symbol and type that a gate lets through,
/// any two lie more than a window apart: within any window at most one
/// passes.
pub proof fn lemma_one_per_window(entries: Map<SignalKey, u64>, candidates: Seq<Candidate>, i: int, j: int)
    requires
        in_time_order(candidates),
        0 <= i < j < candidates.len(),
        candidates[i].key == candidates[j].key,
        passed_at(entries, candidates, i),
        passed_at(entries, candidates, j),
    ensures
        candidates[j].now_ms - candidates[i].now_ms > DEDUP_WINDOW_MS,
{
    lemma_held_or_stale(entries, candidates, i, j);
    assert(candidates[j - 1].now_ms <= candidates[j].now_ms);
    assert(candidates[i].now_ms <= candidates[j].now_ms);
}

} // verus!
