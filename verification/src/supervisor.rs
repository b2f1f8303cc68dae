//! The supervisor of the sessions: how the running symbols are brought in
//! line with a refreshed watchlist, and how the replies of the
//! collaborators are read.

use vstd::prelude::*;
use crate::config::OFIConfig;
use crate::text::text_eq;

verus! {

/// Sessions that may run at once where the configuration sets no ceiling.
pub const DEFAULT_MAX_SESSIONS: usize = 20;

/// Time between two refreshes of the watchlist.
pub const WATCHLIST_REFRESH_MS: u64 = 900_000;

/// Time between two checks of the open positions.
pub const POSITION_CHECK_MS: u64 = 60_000;

/// Time that a stopped session is given to end.
pub const STOP_TIMEOUT_MS: u64 = 5_000;

/// Time that a collaborator is given to answer.
pub const COLLABORATOR_DEADLINE_MS: u64 = 30_000;

/// Room of the channel that takes the signals of all sessions.
pub const SIGNAL_QUEUE_CAPACITY: usize = 100;

/// The ceiling on sessions that run at once.
pub fn max_sessions(config: &OFIConfig) -> (r: usize)
    ensures
        r == match config.max_concurrent_websocket_connections {
            Some(n) => n,
            None => DEFAULT_MAX_SESSIONS,
        },
{
    match config.max_concurrent_websocket_connections {
        Some(n) => n,
        None => DEFAULT_MAX_SESSIONS,
    }
}

/// The texts of a sequence of strings.
pub open spec fn texts(strings: Seq<String>) -> Seq<Seq<char>> {
    strings.map_values(|s: String| s@)
}

/// The texts of `items` that do not occur in `others`, in their order.
pub open spec fn without(items: Seq<Seq<char>>, others: Seq<Seq<char>>) -> Seq<Seq<char>> {
    items.filter(|s: Seq<char>| !others.contains(s))
}

/// The texts of `items`, each at the place where it occurs first.
pub open spec fn first_occurrences(items: Seq<Seq<char>>) -> Seq<Seq<char>>
    decreases items.len(),
{
    if items.len() == 0 {
        items
    } else {
        let earlier = first_occurrences(items.drop_last());
        if earlier.contains(items.last()) {
            earlier
        } else {
            earlier.push(items.last())
        }
    }
}

/// What a refresh of the watchlist asks for.
#[derive(Debug)]
pub struct Reconciliation {
    /// Symbols whose sessions are to stop.
    pub to_stop: Vec<String>,
    /// Symbols that are to get a session.
    pub to_start: Vec<String>,
}

fn contains_symbol(symbols: &Vec<String>, symbol: &str) -> (r: bool)
    ensures
        r == texts(symbols@).contains(symbol@),
{
    let mut i: usize = 0;
    while i < symbols.len()
        invariant
            i <= symbols.len(),
            forall|k: int| 0 <= k < i ==> (#[trigger] symbols[k])@ != symbol@,
        decreases symbols.len() - i,
    {
        if text_eq(symbols[i].as_str(), symbol) {
            assert(texts(symbols@)[i as int] == symbol@);
            return true;
        }
        i += 1;
    }
    assert forall|k: int| 0 <= k < texts(symbols@).len() implies texts(symbols@)[k] != symbol@ by {
        assert(texts(symbols@)[k] == symbols[k]@);
    }
    false
}

/// Compares the running symbols with the candidates of a watchlist: the
/// running symbols that are no candidates are to stop, the candidates that
/// do not run are to start, each once.
pub fn reconcile(running: &Vec<String>, candidates: &Vec<String>) -> (plan: Reconciliation)
    ensures
        texts(plan.to_stop@) == without(texts(running@), texts(candidates@)),
        texts(plan.to_start@) == first_occurrences(without(texts(candidates@), texts(running@))),
{
    let ghost run = texts(running@);
    let ghost want = texts(candidates@);
    let ghost gone = |s: Seq<char>| !want.contains(s);
    let ghost fresh = |s: Seq<char>| !run.contains(s);
    let mut to_stop: Vec<String> = Vec::new();
    let mut i: usize = 0;
    while i < running.len()
        invariant
            i <= running.len(),
            run == texts(running@),
            want == texts(candidates@),
            gone == |s: Seq<char>| !want.contains(s),
            texts(to_stop@) == run.take(i as int).filter(gone),
        decreases running.len() - i,
    {
        proof {
            reveal(Seq::filter);
            assert(run.take(i + 1).drop_last() =~= run.take(i as int));
            assert(run.take(i + 1).last() == running[i as int]@);
        }
        if !contains_symbol(candidates, running[i].as_str()) {
            let ghost before = to_stop@;
            to_stop.push(running[i].clone());
            assert(texts(to_stop@) =~= texts(before).push(running[i as int]@));
        }
        i += 1;
    }
    assert(run.take(i as int) =~= run);
    let mut to_start: Vec<String> = Vec::new();
    let mut j: usize = 0;
    while j < candidates.len()
        invariant
            j <= candidates.len(),
            run == texts(running@),
            want == texts(candidates@),
            fresh == |s: Seq<char>| !run.contains(s),
            texts(to_start@) == first_occurrences(want.take(j as int).filter(fresh)),
        decreases candidates.len() - j,
    {
        proof {
            reveal(Seq::filter);
            let seen = want.take(j as int).filter(fresh);
            assert(want.take(j + 1).drop_last() =~= want.take(j as int));
            assert(want.take(j + 1).last() == candidates[j as int]@);
            assert(seen.push(candidates[j as int]@).drop_last() =~= seen);
        }
        let candidate = candidates[j].as_str();
        if !contains_symbol(running, candidate) && !contains_symbol(&to_start, candidate) {
            let ghost before = to_start@;
            to_start.push(candidates[j].clone());
            assert(texts(to_start@) =~= texts(before).push(candidates[j as int]@));
        }
        j += 1;
    }
    assert(want.take(j as int) =~= want);
    Reconciliation { to_stop, to_start }
}

/// What a refresh asks for, given what the watchlist producer returned: a
/// producer that failed leaves the running symbols as they are.
pub fn plan_refresh(running: &Vec<String>, watchlist: Option<&Vec<String>>) -> (plan: Reconciliation)
    ensures
        match watchlist {
            Some(candidates) => {
                &&& texts(plan.to_stop@) == without(texts(running@), texts(candidates@))
                &&& texts(plan.to_start@) == first_occurrences(without(texts(candidates@), texts(running@)))
            },
            None => plan.to_stop@.len() == 0 && plan.to_start@.len() == 0,
        },
{
    match watchlist {
        Some(candidates) => reconcile(running, candidates),
        None => Reconciliation { to_stop: Vec::new(), to_start: Vec::new() },
    }
}

/// The texts of a sequence are those of its first occurrences.
pub proof fn lemma_first_occurrences(items: Seq<Seq<char>>, s: Seq<char>)
    ensures
        first_occurrences(items).contains(s) == items.contains(s),
        first_occurrences(items).no_duplicates(),
    decreases items.len(),
{
    if items.len() > 0 {
        let shorter = items.drop_last();
        let last = items.last();
        let earlier = first_occurrences(shorter);
        let r = first_occurrences(items);
        lemma_first_occurrences(shorter, s);
        lemma_first_occurrences(shorter, last);
        assert(items[items.len() - 1] == last);
        if r.contains(s) {
            let i = choose|i: int| 0 <= i < r.len() && r[i] == s;
            if i < earlier.len() {
                assert(earlier[i] == s);
                assert(earlier.contains(s));
                let k = choose|k: int| 0 <= k < shorter.len() && shorter[k] == s;
                assert(items[k] == s);
            }
            assert(items.contains(s));
        }
        if items.contains(s) {
            let i = choose|i: int| 0 <= i < items.len() && items[i] == s;
            if i < items.len() - 1 {
                assert(shorter[i] == s);
                assert(earlier.contains(s));
                let k = choose|k: int| 0 <= k < earlier.len() && earlier[k] == s;
                assert(r[k] == s);
            } else {
                if earlier.contains(last) {
                    let k = choose|k: int| 0 <= k < earlier.len() && earlier[k] == last;
                    assert(r[k] == s);
                } else {
                    assert(r[earlier.len() as int] == s);
                }
            }
            assert(r.contains(s));
        }
        if !earlier.contains(last) {
            assert forall|a: int, b: int| 0 <= a < r.len() && 0 <= b < r.len() && a != b implies r[a] != r[b] by {
                if a < earlier.len() && b < earlier.len() {
                    assert(earlier[a] != earlier[b]);
                } else if a < earlier.len() {
                    assert(earlier[a] != last);
                } else {
                    assert(earlier[b] != last);
                }
            }
        }
    }
}

/// After a refresh that succeeded, the symbols that run are the candidates:
/// a symbol runs afterwards, by having run and not been stopped or by being
/// started, exactly if the watchlist names it. No symbol is both stopped
/// and started, and none is started twice.
pub proof fn lemma_reconcile_reaches_watchlist(running: Seq<Seq<char>>, candidates: Seq<Seq<char>>, s: Seq<char>)
    ensures
        ((running.contains(s) && !without(running, candidates).contains(s)) || first_occurrences(
            without(candidates, running),
        ).contains(s)) == candidates.contains(s),
        !(without(running, candidates).contains(s) && first_occurrences(without(candidates, running)).contains(s)),
        first_occurrences(without(candidates, running)).no_duplicates(),
{
    let gone = |t: Seq<char>| !candidates.contains(t);
    let fresh = |t: Seq<char>| !running.contains(t);
    lemma_first_occurrences(without(candidates, running), s);
    lemma_filter_members(running, gone, s);
    lemma_filter_members(candidates, fresh, s);
}

proof fn lemma_filter_members(items: Seq<Seq<char>>, keep: spec_fn(Seq<char>) -> bool, s: Seq<char>)
    ensures
        items.filter(keep).contains(s) == (items.contains(s) && keep(s)),
    decreases items.len(),
{
    reveal(Seq::filter);
    if items.len() > 0 {
        let shorter = items.drop_last();
        lemma_filter_members(shorter, keep, s);
        let sub = shorter.filter(keep);
        if items.contains(s) {
            let i = choose|i: int| 0 <= i < items.len() && items[i] == s;
            if i < items.len() - 1 {
                assert(shorter[i] == s);
            }
        }
        if shorter.contains(s) {
            let k = choose|k: int| 0 <= k < shorter.len() && shorter[k] == s;
            assert(items[k] == s);
        }
        if keep(items.last()) {
            assert(items.filter(keep) == sub.push(items.last()));
            if sub.contains(s) {
                let k = choose|k: int| 0 <= k < sub.len() && sub[k] == s;
                assert(sub.push(items.last())[k] == s);
            }
            if items.last() == s {
                assert(sub.push(items.last())[sub.len() as int] == s);
                assert(items[items.len() - 1] == s);
            }
            if items.filter(keep).contains(s) {
                let r = items.filter(keep);
                let k = choose|k: int| 0 <= k < r.len() && r[k] == s;
                if k < sub.len() {
                    assert(sub[k] == s);
                }
            }
        } else {
            assert(items.filter(keep) == sub);
        }
    }
}

/// What a collaborator's reply holds under the key of the reason.
#[derive(Debug)]
pub enum ReplyReason {
    /// A text.
    Text(String),
    /// Something that is no text.
    NotText,
    /// Nothing: the reply has no such key.
    Absent,
    /// The reply could not be asked for the key.
    Unavailable,
}

/// The reason that a reply gives for a failure, in words.
pub open spec fn reason_text(reason: ReplyReason) -> Seq<char> {
    match reason {
        ReplyReason::Text(text) => text@,
        ReplyReason::NotText => "Could not extract reason"@,
        ReplyReason::Absent => "No reason provided"@,
        ReplyReason::Unavailable => "Failed to get reason key from Python dict"@,
    }
}

/// Reads the reply of a collaborator: a reply whose status is `error`
/// reports a failure, whose reason is returned; any other reply, with or
/// without a status, reports none.
pub fn collaborator_failure(status: Option<&str>, reason: ReplyReason) -> (r: Option<String>)
    ensures
        r.is_some() == (status.is_some() && status.unwrap()@ == "error"@),
        r.is_some() ==> r.unwrap()@ == reason_text(reason),
{
    match status {
        Some(text) => {
            if text_eq(text, "error") {
                Some(
                    match reason {
                        ReplyReason::Text(text) => text,
                        ReplyReason::NotText => String::from_str("Could not extract reason"),
                        ReplyReason::Absent => String::from_str("No reason provided"),
                        ReplyReason::Unavailable => String::from_str("Failed to get reason key from Python dict"),
                    },
                )
            } else {
                None
            }
        },
        None => None,
    }
}

} // verus!
