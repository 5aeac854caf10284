//! The ranks of an item on the site: its rank among all items of its kind, and its ranks
//! within narrower families.
use vstd::prelude::*;

use crate::decode::{FieldError, FieldErrorView};
use crate::models::{GameFamilyType, RankValue};

verus! {

/// An item's rank within a family of items, as the API lists it, with the type of the family.
///
/// `F` is the type of the rating: the API gives it as a floating point number.
#[derive(Clone, Debug)]
pub struct GameFamilyRank<F> {
    /// `Subtype` for the family of all items of the kind, `Family` for a narrower one.
    pub game_family_type: GameFamilyType,
    /// ID of the family.
    pub id: u64,
    /// Name of the family, `boardgame` for the family of all board games.
    pub name: String,
    /// User friendly name such as "Party Game Rank".
    pub friendly_name: String,
    /// The rank within the family.
    pub value: RankValue,
    /// The score out of 10 as a bayesian average, the Geek rating.
    pub bayesian_average: F,
}

/// An item's rank within a family of items.
#[derive(Clone, Debug)]
pub struct ItemFamilyRank<F> {
    /// ID of the family.
    pub id: u64,
    /// Name of the family, `boardgame` for the family of all board games.
    pub name: String,
    /// User friendly name such as "Party Game Rank".
    pub friendly_name: String,
    /// The rank within the family.
    pub value: RankValue,
    /// The score out of 10 as a bayesian average, the Geek rating.
    pub bayesian_average: F,
}

/// A listed rank without the type of its family.
pub open spec fn item_rank_of<F>(r: GameFamilyRank<F>) -> ItemFamilyRank<F> {
    ItemFamilyRank {
        id: r.id,
        name: r.name,
        friendly_name: r.friendly_name,
        value: r.value,
        bayesian_average: r.bayesian_average,
    }
}

/// The name under which the rank among all items is refused when doubled or missing.
pub open spec fn subtype_rank_name() -> Seq<char> {
    "rank type=\"subtype\""@
}

/// The ranks read so far: the rank among all items if met, and the narrower ranks in order;
/// or the error for a second rank among all items.
pub open spec fn rank_fold<F>(rs: Seq<GameFamilyRank<F>>) -> Result<
    (Option<ItemFamilyRank<F>>, Seq<ItemFamilyRank<F>>),
    FieldErrorView,
>
    decreases rs.len(),
{
    if rs.len() == 0 {
        Ok((None, seq![]))
    } else {
        match rank_fold(rs.drop_last()) {
            Err(e) => Err(e),
            Ok(acc) => {
                let r = rs.last();
                match r.game_family_type {
                    GameFamilyType::Subtype => if acc.0 is Some {
                        Err(FieldErrorView::Duplicate(subtype_rank_name()))
                    } else {
                        Ok((Some(item_rank_of(r)), acc.1))
                    },
                    GameFamilyType::Family => Ok((acc.0, acc.1.push(item_rank_of(r)))),
                }
            },
        }
    }
}

/// The rank among all items and the narrower ranks that a list of ranks gives: exactly one
/// rank of the `Subtype` family is needed.
pub open spec fn split_ranks_spec<F>(rs: Seq<GameFamilyRank<F>>) -> Result<
    (ItemFamilyRank<F>, Seq<ItemFamilyRank<F>>),
    FieldErrorView,
> {
    match rank_fold(rs) {
        Err(e) => Err(e),
        Ok(acc) => match acc.0 {
            Some(main) => Ok((main, acc.1)),
            None => Err(FieldErrorView::Missing(subtype_rank_name())),
        },
    }
}

/// A prefix of ranks that holds two ranks among all items makes the whole fail alike.
pub proof fn lemma_rank_prefix_err<F>(rs: Seq<GameFamilyRank<F>>, k: int)
    requires
        0 <= k <= rs.len(),
        rank_fold(rs.take(k)) is Err,
    ensures
        rank_fold(rs) == rank_fold(rs.take(k)),
    decreases rs.len() - k,
{
    if k == rs.len() {
        assert(rs.take(k) =~= rs);
    } else {
        assert(rs.take(k + 1).drop_last() =~= rs.take(k));
        lemma_rank_prefix_err(rs, k + 1);
    }
}

/// Splits a list of ranks into the rank among all items of the kind and the ranks within
/// narrower families, which keep their order.
///
/// A second rank of the `Subtype` family is refused as a duplicate, and none at all as missing.
pub fn xml_ranks_to_ranks<F>(ranks: Vec<GameFamilyRank<F>>) -> (r: Result<
    (ItemFamilyRank<F>, Vec<ItemFamilyRank<F>>),
    FieldError,
>)
    ensures
        match split_ranks_spec(ranks@) {
            Ok(v) => r matches Ok(p) && p.0 == v.0 && p.1@ == v.1,
            Err(e) => r matches Err(x) && x@ == e,
        },
{
    let ghost all = ranks@;
    let mut rank: Option<ItemFamilyRank<F>> = None;
    let mut subs: Vec<ItemFamilyRank<F>> = Vec::new();
    for fr in it: ranks
        invariant
            all == it.seq(),
            rank_fold(it.seq().take(it.index())) == Ok::<
                (Option<ItemFamilyRank<F>>, Seq<ItemFamilyRank<F>>),
                FieldErrorView,
            >((rank, subs@)),
    {
        let ghost k = it.index();
        assert(it.seq().take(k + 1).drop_last() =~= it.seq().take(k));
        assert(it.seq().take(k + 1).last() == fr);
        let item = ItemFamilyRank {
            id: fr.id,
            name: fr.name,
            friendly_name: fr.friendly_name,
            value: fr.value,
            bayesian_average: fr.bayesian_average,
        };
        match fr.game_family_type {
            GameFamilyType::Subtype => {
                if rank.is_some() {
                    proof {
                        lemma_rank_prefix_err(all, k + 1);
                    }
                    return Err(FieldError::Duplicate("rank type=\"subtype\""));
                }
                rank = Some(item);
            },
            GameFamilyType::Family => {
                subs.push(item);
            },
        }
    }
    assert(all.take(all.len() as int) =~= all);
    match rank {
        Some(main) => Ok((main, subs)),
        None => Err(FieldError::Missing("rank type=\"subtype\"")),
    }
}

/// Whether every rank of a list is within a narrower family.
pub open spec fn all_family<F>(rs: Seq<GameFamilyRank<F>>) -> bool {
    forall|i: int| 0 <= i < rs.len() ==> (#[trigger] rs[i]).game_family_type == GameFamilyType::Family
}

/// Ranks within narrower families only add themselves, in order, to the narrower ranks.
pub proof fn lemma_fold_families<F>(p: Seq<GameFamilyRank<F>>, q: Seq<GameFamilyRank<F>>)
    requires
        all_family(q),
    ensures
        rank_fold(p + q) == match rank_fold(p) {
            Ok(acc) => Ok((acc.0, acc.1 + q.map_values(|r: GameFamilyRank<F>| item_rank_of(r)))),
            Err(e) => Err(e),
        },
    decreases q.len(),
{
    if q.len() == 0 {
        assert(p + q =~= p);
        match rank_fold(p) {
            Ok(acc) => {
                assert(acc.1 + q.map_values(|r: GameFamilyRank<F>| item_rank_of(r)) =~= acc.1);
            },
            Err(_) => {},
        }
    } else {
        let q0 = q.drop_last();
        assert(all_family(q0)) by {
            assert forall|i: int| 0 <= i < q0.len() implies (#[trigger] q0[i]).game_family_type
                == GameFamilyType::Family by {
                assert(q0[i] == q[i]);
            }
        }
        lemma_fold_families(p, q0);
        assert((p + q).drop_last() =~= p + q0);
        assert((p + q).last() == q.last());
        assert(q.last().game_family_type == GameFamilyType::Family) by {
            assert(q[q.len() - 1] == q.last());
        }
        match rank_fold(p) {
            Ok(acc) => {
                assert((acc.1 + q0.map_values(|r: GameFamilyRank<F>| item_rank_of(r))).push(
                    item_rank_of(q.last()),
                ) =~= acc.1 + q.map_values(|r: GameFamilyRank<F>| item_rank_of(r)));
            },
            Err(_) => {},
        }
    }
}

/// Law: a list of ranks with exactly one rank among all items splits into that rank and the
/// other ranks, all within narrower families, in their order.
pub proof fn law_single_subtype_rank<F>(
    before: Seq<GameFamilyRank<F>>,
    main: GameFamilyRank<F>,
    after: Seq<GameFamilyRank<F>>,
)
    requires
        main.game_family_type == GameFamilyType::Subtype,
        all_family(before),
        all_family(after),
    ensures
        split_ranks_spec(before.push(main) + after) == Ok::<
            (ItemFamilyRank<F>, Seq<ItemFamilyRank<F>>),
            FieldErrorView,
        >(
            (
                item_rank_of(main),
                before.map_values(|r: GameFamilyRank<F>| item_rank_of(r)) + after.map_values(
                    |r: GameFamilyRank<F>| item_rank_of(r),
                ),
            ),
        ),
{
    let empty = Seq::<GameFamilyRank<F>>::empty();
    lemma_fold_families(empty, before);
    assert(empty + before =~= before);
    assert(before.map_values(|r: GameFamilyRank<F>| item_rank_of(r)) =~= Seq::<ItemFamilyRank<F>>::empty()
        + before.map_values(|r: GameFamilyRank<F>| item_rank_of(r)));
    assert(before.push(main).drop_last() =~= before);
    lemma_fold_families(before.push(main), after);
}

/// Law: a list of ranks without a rank among all items is refused as missing it.
pub proof fn law_no_subtype_rank<F>(rs: Seq<GameFamilyRank<F>>)
    requires
        all_family(rs),
    ensures
        split_ranks_spec(rs) == Err::<(ItemFamilyRank<F>, Seq<ItemFamilyRank<F>>), FieldErrorView>(
            FieldErrorView::Missing(subtype_rank_name()),
        ),
{
    let empty = Seq::<GameFamilyRank<F>>::empty();
    lemma_fold_families(empty, rs);
    assert(empty + rs =~= rs);
}

} // verus!
