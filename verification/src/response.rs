//! What is done with a parsed reply before it is handed to the caller: picking the one
//! requested item, and keeping the collection items that suit a number of players.
use vstd::prelude::*;

use crate::error::Error;
use crate::text::{decimal, owned, push_str, write_decimal};

verus! {

broadcast use vstd::string::group_string_axioms;

/// The message of the error for a reply with `len` items where one was expected.
pub open spec fn unexpected_count_message(what: Seq<char>, len: nat) -> Seq<char> {
    "expected 1 "@ + what + " but got "@ + decimal(len)
}

/// The single item of a reply to a request for one item: no item is the not found error, and
/// more than one is an unexpected response, naming `what` was expected and how many came.
pub fn single_item<T>(items: Vec<T>, what: &str) -> (r: Result<T, Error>)
    ensures
        items@.len() == 0 ==> r matches Err(Error::ItemNotFound),
        items@.len() == 1 ==> r == Ok::<T, Error>(items@[0]),
        items@.len() > 1 ==> (r matches Err(Error::UnexpectedResponseError(m)) && m@
            == unexpected_count_message(what@, items@.len())),
{
    let mut items = items;
    let len = items.len();
    if len == 0 {
        return Err(Error::ItemNotFound);
    }
    if len == 1 {
        let item = items.remove(0);
        return Ok(item);
    }
    let mut m = owned("expected 1 ");
    push_str(&mut m, what);
    push_str(&mut m, " but got ");
    write_decimal(&mut m, len as u64);
    Err(Error::UnexpectedResponseError(m))
}

/// Whether an item playable by `min_players` to `max_players` supports some number of players
/// from `low` to `high`.
pub open spec fn supports_players(range: (u32, u32), low: u32, high: u32) -> bool {
    low <= range.1 && high >= range.0
}

/// The items, in their order, whose player range overlaps `low` to `high`.
pub open spec fn kept_for_players<T>(items: Seq<T>, ranges: Seq<(u32, u32)>, low: u32, high: u32) -> Seq<T>
    decreases items.len(),
{
    if items.len() == 0 {
        seq![]
    } else {
        let rest = kept_for_players(items.drop_last(), ranges.drop_last(), low, high);
        if supports_players(ranges[items.len() - 1], low, high) {
            rest.push(items.last())
        } else {
            rest
        }
    }
}

/// Keeps, in order, the items that support some number of players from `low` to `high`, where
/// `ranges[i]` is the minimum and maximum number of players of `items[i]`.
pub fn retain_by_player_counts<T>(items: Vec<T>, ranges: &Vec<(u32, u32)>, low: u32, high: u32) -> (r: Vec<T>)
    requires
        items@.len() == ranges@.len(),
    ensures
        r@ == kept_for_players(items@, ranges@, low, high),
{
    let mut items = items;
    let ghost all = items@;
    let mut kept: Vec<T> = Vec::new();
    let n = items.len();
    let mut i: usize = 0;
    proof {
        assert(items@ =~= all.subrange(0, n as int));
    }
    while i < n
        invariant
            i <= n,
            n == all.len(),
            n == ranges@.len(),
            items@ =~= all.subrange(i as int, n as int),
            kept@ == kept_for_players(all.take(i as int), ranges@.take(i as int), low, high),
        decreases n - i,
    {
        let item = items.remove(0);
        proof {
            assert(item == all[i as int]);
            assert(items@ =~= all.subrange(i + 1, n as int));
            assert(all.take(i + 1).drop_last() =~= all.take(i as int));
            assert(ranges@.take(i + 1).drop_last() =~= ranges@.take(i as int));
        }
        let range = ranges[i];
        if low <= range.1 && high >= range.0 {
            kept.push(item);
        }
        i = i + 1;
    }
    proof {
        assert(all.take(n as int) =~= all);
        assert(ranges@.take(n as int) =~= ranges@);
    }
    kept
}

/// Law: keeping the items for a single player count `n`, as a range from `n` to `n`, keeps
/// exactly those whose minimum is at most `n` and whose maximum is at least `n`.
pub proof fn law_single_player_count(range: (u32, u32), n: u32)
    ensures
        supports_players(range, n, n) <==> (range.0 <= n && n <= range.1),
{
}

/// Law: the kept items are never more than the items, and are all of them when every item
/// supports the player counts, none when no item does.
pub proof fn law_kept_for_players_bounds<T>(items: Seq<T>, ranges: Seq<(u32, u32)>, low: u32, high: u32)
    requires
        items.len() == ranges.len(),
    ensures
        kept_for_players(items, ranges, low, high).len() <= items.len(),
        (forall|i: int| 0 <= i < ranges.len() ==> supports_players(#[trigger] ranges[i], low, high))
            ==> kept_for_players(items, ranges, low, high) == items,
        (forall|i: int| 0 <= i < ranges.len() ==> !supports_players(#[trigger] ranges[i], low, high))
            ==> kept_for_players(items, ranges, low, high).len() == 0,
    decreases items.len(),
{
    if items.len() > 0 {
        let (i0, r0) = (items.drop_last(), ranges.drop_last());
        law_kept_for_players_bounds(i0, r0, low, high);
        if forall|i: int| 0 <= i < ranges.len() ==> supports_players(#[trigger] ranges[i], low, high) {
            assert forall|i: int| 0 <= i < r0.len() implies supports_players(#[trigger] r0[i], low, high) by {
                assert(r0[i] == ranges[i]);
            }
            assert(supports_players(ranges[items.len() - 1], low, high));
            assert(i0.push(items.last()) =~= items);
        }
        if forall|i: int| 0 <= i < ranges.len() ==> !supports_players(#[trigger] ranges[i], low, high) {
            assert forall|i: int| 0 <= i < r0.len() implies !supports_players(#[trigger] r0[i], low, high) by {
                assert(r0[i] == ranges[i]);
            }
            assert(!supports_players(ranges[items.len() - 1], low, high));
        }
    }
}

/// Whether an item playable by `range.0` to `range.1` players can be played by `n`.
pub open spec fn plays_with(range: (u32, u32), n: int) -> bool {
    range.0 <= n <= range.1
}

/// Law: for a query range `low..=high` and a player range `min..=max`, both non-empty, an item
/// is kept exactly when some number of players lies in both ranges.
pub proof fn law_supports_players_shares_a_count(range: (u32, u32), low: u32, high: u32)
    requires
        low <= high,
        range.0 <= range.1,
    ensures
        supports_players(range, low, high) <==> exists|n: int|
            low <= n <= high && #[trigger] plays_with(range, n),
{
    if supports_players(range, low, high) {
        let n: int = if low <= range.0 {
            range.0 as int
        } else {
            low as int
        };
        assert(low <= n <= high && plays_with(range, n));
    }
}

/// Law: an item whose player range lies within the query range is kept, and so is one whose
/// player range holds the whole query range.
pub proof fn law_nested_ranges_kept(range: (u32, u32), low: u32, high: u32)
    requires
        range.0 <= range.1,
        low <= high,
    ensures
        (low <= range.0 && range.1 <= high) ==> supports_players(range, low, high),
        (range.0 <= low && high <= range.1) ==> supports_players(range, low, high),
{
}

/// Law: an item is left out exactly when its players are all fewer than `low` or all more than
/// `high`.
pub proof fn law_dropped_items_lie_outside(range: (u32, u32), low: u32, high: u32)
    ensures
        !supports_players(range, low, high) <==> (range.1 < low || high < range.0),
{
}

/// Law: the kept items are those, in their order, whose player range meets the query range:
/// the `i`-th item is kept exactly when `low <= max` and `min <= high` for its range, and
/// nothing else is kept.
pub proof fn law_kept_for_players_members<T>(items: Seq<T>, ranges: Seq<(u32, u32)>, low: u32, high: u32, x: T)
    requires
        items.len() == ranges.len(),
    ensures
        kept_for_players(items, ranges, low, high).contains(x) <==> exists|i: int|
            0 <= i < items.len() && items[i] == x && low <= (#[trigger] ranges[i]).1 && ranges[i].0 <= high,
    decreases items.len(),
{
    if items.len() > 0 {
        let last = items.len() - 1;
        let (i0, r0) = (items.drop_last(), ranges.drop_last());
        law_kept_for_players_members(i0, r0, low, high, x);
        let rest = kept_for_players(i0, r0, low, high);
        if exists|i: int| 0 <= i < items.len() && items[i] == x && low <= (#[trigger] ranges[i]).1 && ranges[i].0 <= high {
            let i = choose|i: int| 0 <= i < items.len() && items[i] == x && low <= (#[trigger] ranges[i]).1 && ranges[i].0 <= high;
            if i < last {
                assert(i0[i] == x && r0[i] == ranges[i]);
                assert(rest.contains(x));
                if supports_players(ranges[last], low, high) {
                    let k = choose|k: int| 0 <= k < rest.len() && rest[k] == x;
                    assert(rest.push(items.last())[k] == x);
                }
            } else {
                assert(items.last() == x);
                assert(rest.push(items.last())[rest.len() as int] == x);
            }
        }
        if kept_for_players(items, ranges, low, high).contains(x) {
            let out = kept_for_players(items, ranges, low, high);
            let k = choose|k: int| 0 <= k < out.len() && out[k] == x;
            if supports_players(ranges[last], low, high) && k == rest.len() {
                assert(items[last] == x);
            } else {
                assert(rest[k] == x);
                assert(rest.contains(x));
                let i = choose|i: int| 0 <= i < i0.len() && i0[i] == x && low <= (#[trigger] r0[i]).1 && r0[i].0 <= high;
                assert(items[i] == x && ranges[i] == r0[i]);
            }
        }
    }
}

} // verus!
