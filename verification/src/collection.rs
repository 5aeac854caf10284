//! The collection endpoint's query: whose collection, and which of its items to return.
use vstd::prelude::*;

use crate::date::{short_date_text, NaiveDate};
use crate::models::{collection_item_type_text_spec, CollectionItemType};
use crate::query::{
    bool_text, ids_param, ids_text, opt_bool, opt_entry, opt_u64, params_view, push_bool,
    push_opt_bool, push_opt_u64, push_param, push_text, values_of, given_text, given_number, given_flag, QueryParam,
};
use crate::wishlist::{priority_text, WishlistPriority};
use vstd::seq_lib::lemma_concat_associative;

verus! {

/// All optional query parameters for making a request to the collection endpoint.
///
/// When every status parameter is unset, items of all statuses are returned; once any is set
/// to true, the items of the unset ones are left out.
#[derive(Clone, Debug)]
pub struct CollectionQueryParams {
    item_ids: Vec<u64>,
    item_type: Option<CollectionItemType>,
    exclude_item_type: Option<CollectionItemType>,
    include_version_info: Option<bool>,
    include_owned: Option<bool>,
    include_previously_owned: Option<bool>,
    include_for_trade: Option<bool>,
    include_want_in_trade: Option<bool>,
    include_want_to_play: Option<bool>,
    include_want_to_buy: Option<bool>,
    include_preordered: Option<bool>,
    include_wishlist: Option<bool>,
    wishlist_priority: Option<WishlistPriority>,
    modified_since: Option<NaiveDate>,
    include_rated_by_user: Option<bool>,
    include_played_by_user: Option<bool>,
    include_commented: Option<bool>,
    has_parts: Option<bool>,
    want_parts: Option<bool>,
    min_rating: Option<String>,
    max_rating: Option<String>,
    min_bgg_rating: Option<String>,
    max_bgg_rating: Option<String>,
    min_plays: Option<u64>,
    max_plays: Option<u64>,
    show_private: Option<bool>,
    collection_id: Option<u64>,
}

/// The settings of a [`CollectionQueryParams`], as mathematical values.
#[verifier::ext_equal]
pub ghost struct CollectionQueryParamsView {
    /// Only the items with these IDs are returned, when there are any.
    pub item_ids: Seq<u64>,
    /// Only items of this type are included.
    pub item_type: Option<CollectionItemType>,
    /// Items of this type are left out.
    pub exclude_item_type: Option<CollectionItemType>,
    /// Whether version information is included.
    pub include_version_info: Option<bool>,
    /// Whether items the user owns are included.
    pub include_owned: Option<bool>,
    /// Whether items the user owned before are included.
    pub include_previously_owned: Option<bool>,
    /// Whether items the user wants to trade away are included.
    pub include_for_trade: Option<bool>,
    /// Whether items the user wants in a trade are included.
    pub include_want_in_trade: Option<bool>,
    /// Whether items the user wants to play are included.
    pub include_want_to_play: Option<bool>,
    /// Whether items the user wants to buy are included.
    pub include_want_to_buy: Option<bool>,
    /// Whether items the user has pre-ordered are included.
    pub include_preordered: Option<bool>,
    /// Whether items on the user's wishlist are included.
    pub include_wishlist: Option<bool>,
    /// Only items with this wishlist priority are included.
    pub wishlist_priority: Option<WishlistPriority>,
    /// Only items modified since this date are included.
    pub modified_since: Option<NaiveDate>,
    /// Only items the user has rated are included.
    pub include_rated_by_user: Option<bool>,
    /// Only items the user has played are included.
    pub include_played_by_user: Option<bool>,
    /// Only items the user has commented on are included.
    pub include_commented: Option<bool>,
    /// Only items with a comment in the `Has Parts` field are included.
    pub has_parts: Option<bool>,
    /// Only items with a comment in the `Want Parts` field are included.
    pub want_parts: Option<bool>,
    /// Only items the user rated at least this, as the text of the rating.
    pub min_rating: Option<Seq<char>>,
    /// Only items the user rated at most this, as the text of the rating.
    pub max_rating: Option<Seq<char>>,
    /// Only items with a Geek rating of at least this, as its text.
    pub min_bgg_rating: Option<Seq<char>>,
    /// Only items with a Geek rating of at most this, as its text.
    pub max_bgg_rating: Option<Seq<char>>,
    /// Only items the user played at least this many times.
    pub min_plays: Option<u64>,
    /// Only items the user played at most this many times.
    pub max_plays: Option<u64>,
    /// Whether private collection information is shown.
    pub show_private: Option<bool>,
    /// Only the item with this collection ID.
    pub collection_id: Option<u64>,
}

impl View for CollectionQueryParams {
    type V = CollectionQueryParamsView;

    closed spec fn view(&self) -> CollectionQueryParamsView {
        CollectionQueryParamsView {
            item_ids: self.item_ids@,
            item_type: self.item_type,
            exclude_item_type: self.exclude_item_type,
            include_version_info: self.include_version_info,
            include_owned: self.include_owned,
            include_previously_owned: self.include_previously_owned,
            include_for_trade: self.include_for_trade,
            include_want_in_trade: self.include_want_in_trade,
            include_want_to_play: self.include_want_to_play,
            include_want_to_buy: self.include_want_to_buy,
            include_preordered: self.include_preordered,
            include_wishlist: self.include_wishlist,
            wishlist_priority: self.wishlist_priority,
            modified_since: self.modified_since,
            include_rated_by_user: self.include_rated_by_user,
            include_played_by_user: self.include_played_by_user,
            include_commented: self.include_commented,
            has_parts: self.has_parts,
            want_parts: self.want_parts,
            min_rating: match self.min_rating { Some(t) => Some(t@), None => None },
            max_rating: match self.max_rating { Some(t) => Some(t@), None => None },
            min_bgg_rating: match self.min_bgg_rating { Some(t) => Some(t@), None => None },
            max_bgg_rating: match self.max_bgg_rating { Some(t) => Some(t@), None => None },
            min_plays: self.min_plays,
            max_plays: self.max_plays,
            show_private: self.show_private,
            collection_id: self.collection_id,
        }
    }
}

impl CollectionQueryParams {
    /// Constructs a collection query with no parameters set.
    pub fn new() -> (r: Self)
        ensures
            r@ == (CollectionQueryParamsView {
                item_ids: Seq::empty(),
                item_type: None,
                exclude_item_type: None,
                include_version_info: None,
                include_owned: None,
                include_previously_owned: None,
                include_for_trade: None,
                include_want_in_trade: None,
                include_want_to_play: None,
                include_want_to_buy: None,
                include_preordered: None,
                include_wishlist: None,
                wishlist_priority: None,
                modified_since: None,
                include_rated_by_user: None,
                include_played_by_user: None,
                include_commented: None,
                has_parts: None,
                want_parts: None,
                min_rating: None,
                max_rating: None,
                min_bgg_rating: None,
                max_bgg_rating: None,
                min_plays: None,
                max_plays: None,
                show_private: None,
                collection_id: None,
            }),
    {
        CollectionQueryParams {
            item_ids: Vec::new(),
            item_type: None,
            exclude_item_type: None,
            include_version_info: None,
            include_owned: None,
            include_previously_owned: None,
            include_for_trade: None,
            include_want_in_trade: None,
            include_want_to_play: None,
            include_want_to_buy: None,
            include_preordered: None,
            include_wishlist: None,
            wishlist_priority: None,
            modified_since: None,
            include_rated_by_user: None,
            include_played_by_user: None,
            include_commented: None,
            has_parts: None,
            want_parts: None,
            min_rating: None,
            max_rating: None,
            min_bgg_rating: None,
            max_bgg_rating: None,
            min_plays: None,
            max_plays: None,
            show_private: None,
            collection_id: None,
        }
    }

    /// Adds an ID to the list of item IDs to retrieve.
    pub fn item_id(self, id: u64) -> (r: Self)
        ensures
            r@ == (CollectionQueryParamsView { item_ids: self@.item_ids.push(id), ..self@ }),
    {
        let mut s = self;
        s.item_ids.push(id);
        s
    }

    /// Adds a list of IDs to the list of item IDs to retrieve.
    pub fn item_ids(self, ids: Vec<u64>) -> (r: Self)
        ensures
            r@ == (CollectionQueryParamsView { item_ids: self@.item_ids + ids@, ..self@ }),
    {
        let mut s = self;
        let mut ids = ids;
        s.item_ids.append(&mut ids);
        s
    }

    /// Sets the `item_type` parameter, so that only that type of item is returned.
    ///
    /// If this is [`CollectionItemType::BoardGame`], expansions are returned too, typed as
    /// board games; exclude [`CollectionItemType::BoardGameExpansion`] to avoid this.
    pub fn item_type(self, item_type: CollectionItemType) -> (r: Self)
        ensures
            r@ == (CollectionQueryParamsView { item_type: Some(item_type), ..self@ }),
    {
        CollectionQueryParams { item_type: Some(item_type), ..self }
    }

    /// Sets the `exclude_item_type` parameter, so that that type of item is left out.
    pub fn exclude_item_type(self, exclude_item_type: CollectionItemType) -> (r: Self)
        ensures
            r@ == (CollectionQueryParamsView { exclude_item_type: Some(exclude_item_type), ..self@ }),
    {
        CollectionQueryParams { exclude_item_type: Some(exclude_item_type), ..self }
    }

    /// Sets the `include_version_info` parameter: whether version information is included
    /// for the items that have it.
    pub fn include_version_info(self, include_version_info: bool) -> (r: Self)
        ensures
            r@ == (CollectionQueryParamsView { include_version_info: Some(include_version_info), ..self@ }),
    {
        CollectionQueryParams { include_version_info: Some(include_version_info), ..self }
    }

    /// Sets the `include_owned` parameter. Unless all status parameters are unset, items of
    /// unset statuses are left out.
    pub fn include_owned(self, include_owned: bool) -> (r: Self)
        ensures
            r@ == (CollectionQueryParamsView { include_owned: Some(include_owned), ..self@ }),
    {
        CollectionQueryParams { include_owned: Some(include_owned), ..self }
    }

    /// Sets the `include_previously_owned` parameter.
    pub fn include_previously_owned(self, include_previously_owned: bool) -> (r: Self)
        ensures
            r@ == (CollectionQueryParamsView { include_previously_owned: Some(include_previously_owned), ..self@ }),
    {
        CollectionQueryParams { include_previously_owned: Some(include_previously_owned), ..self }
    }

    /// Sets the `include_for_trade` parameter.
    pub fn include_for_trade(self, include_for_trade: bool) -> (r: Self)
        ensures
            r@ == (CollectionQueryParamsView { include_for_trade: Some(include_for_trade), ..self@ }),
    {
        CollectionQueryParams { include_for_trade: Some(include_for_trade), ..self }
    }

    /// Sets the `include_want_in_trade` parameter.
    pub fn include_want_in_trade(self, include_want_in_trade: bool) -> (r: Self)
        ensures
            r@ == (CollectionQueryParamsView { include_want_in_trade: Some(include_want_in_trade), ..self@ }),
    {
        CollectionQueryParams { include_want_in_trade: Some(include_want_in_trade), ..self }
    }

    /// Sets the `include_want_to_play` parameter.
    pub fn include_want_to_play(self, include_want_to_play: bool) -> (r: Self)
        ensures
            r@ == (CollectionQueryParamsView { include_want_to_play: Some(include_want_to_play), ..self@ }),
    {
        CollectionQueryParams { include_want_to_play: Some(include_want_to_play), ..self }
    }

    /// Sets the `include_want_to_buy` parameter.
    pub fn include_want_to_buy(self, include_want_to_buy: bool) -> (r: Self)
        ensures
            r@ == (CollectionQueryParamsView { include_want_to_buy: Some(include_want_to_buy), ..self@ }),
    {
        CollectionQueryParams { include_want_to_buy: Some(include_want_to_buy), ..self }
    }

    /// Sets the `include_preordered` parameter.
    pub fn include_preordered(self, include_preordered: bool) -> (r: Self)
        ensures
            r@ == (CollectionQueryParamsView { include_preordered: Some(include_preordered), ..self@ }),
    {
        CollectionQueryParams { include_preordered: Some(include_preordered), ..self }
    }

    /// Sets the `include_wishlist` parameter.
    pub fn include_wishlist(self, include_wishlist: bool) -> (r: Self)
        ensures
            r@ == (CollectionQueryParamsView { include_wishlist: Some(include_wishlist), ..self@ }),
    {
        CollectionQueryParams { include_wishlist: Some(include_wishlist), ..self }
    }

    /// Sets the `wishlist_priority` parameter: only items with that priority are returned.
    pub fn wishlist_priority(self, wishlist_priority: WishlistPriority) -> (r: Self)
        ensures
            r@ == (CollectionQueryParamsView { wishlist_priority: Some(wishlist_priority), ..self@ }),
    {
        CollectionQueryParams { wishlist_priority: Some(wishlist_priority), ..self }
    }

    /// Sets the `modified_since` parameter: only items modified since that date are returned.
    /// The date is sent with a two digit year, as `%y-%m-%d` writes it.
    pub fn modified_since(self, modified_since: NaiveDate) -> (r: Self)
        ensures
            r@ == (CollectionQueryParamsView { modified_since: Some(modified_since), ..self@ }),
    {
        CollectionQueryParams { modified_since: Some(modified_since), ..self }
    }

    /// Sets the `include_rated_by_user` parameter.
    pub fn include_rated_by_user(self, include_rated_by_user: bool) -> (r: Self)
        ensures
            r@ == (CollectionQueryParamsView { include_rated_by_user: Some(include_rated_by_user), ..self@ }),
    {
        CollectionQueryParams { include_rated_by_user: Some(include_rated_by_user), ..self }
    }

    /// Sets the `include_played_by_user` parameter.
    pub fn include_played_by_user(self, include_played_by_user: bool) -> (r: Self)
        ensures
            r@ == (CollectionQueryParamsView { include_played_by_user: Some(include_played_by_user), ..self@ }),
    {
        CollectionQueryParams { include_played_by_user: Some(include_played_by_user), ..self }
    }

    /// Sets the `include_commented` parameter.
    pub fn include_commented(self, include_commented: bool) -> (r: Self)
        ensures
            r@ == (CollectionQueryParamsView { include_commented: Some(include_commented), ..self@ }),
    {
        CollectionQueryParams { include_commented: Some(include_commented), ..self }
    }

    /// Sets the `has_parts` parameter.
    pub fn has_parts(self, has_parts: bool) -> (r: Self)
        ensures
            r@ == (CollectionQueryParamsView { has_parts: Some(has_parts), ..self@ }),
    {
        CollectionQueryParams { has_parts: Some(has_parts), ..self }
    }

    /// Sets the `want_parts` parameter.
    pub fn want_parts(self, want_parts: bool) -> (r: Self)
        ensures
            r@ == (CollectionQueryParamsView { want_parts: Some(want_parts), ..self@ }),
    {
        CollectionQueryParams { want_parts: Some(want_parts), ..self }
    }

    /// Sets the `min_rating` parameter, given as the text of the rating (as `f32::to_string`
    /// writes it): only items the user rated at least that are returned.
    pub fn min_rating(self, min_rating: String) -> (r: Self)
        ensures
            r@ == (CollectionQueryParamsView { min_rating: Some(min_rating@), ..self@ }),
    {
        CollectionQueryParams { min_rating: Some(min_rating), ..self }
    }

    /// Sets the `max_rating` parameter, given as the text of the rating: only items the user
    /// rated at most that are returned.
    pub fn max_rating(self, max_rating: String) -> (r: Self)
        ensures
            r@ == (CollectionQueryParamsView { max_rating: Some(max_rating@), ..self@ }),
    {
        CollectionQueryParams { max_rating: Some(max_rating), ..self }
    }

    /// Sets the `min_bgg_rating` parameter, given as the text of the rating: only items with
    /// a Geek rating of at least that are returned.
    pub fn min_bgg_rating(self, min_bgg_rating: String) -> (r: Self)
        ensures
            r@ == (CollectionQueryParamsView { min_bgg_rating: Some(min_bgg_rating@), ..self@ }),
    {
        CollectionQueryParams { min_bgg_rating: Some(min_bgg_rating), ..self }
    }

    /// Sets the `max_bgg_rating` parameter, given as the text of the rating: only items with
    /// a Geek rating of at most that are returned.
    pub fn max_bgg_rating(self, max_bgg_rating: String) -> (r: Self)
        ensures
            r@ == (CollectionQueryParamsView { max_bgg_rating: Some(max_bgg_rating@), ..self@ }),
    {
        CollectionQueryParams { max_bgg_rating: Some(max_bgg_rating), ..self }
    }

    /// Sets the `min_plays` parameter: only items played at least that often are returned.
    pub fn min_plays(self, min_plays: u64) -> (r: Self)
        ensures
            r@ == (CollectionQueryParamsView { min_plays: Some(min_plays), ..self@ }),
    {
        CollectionQueryParams { min_plays: Some(min_plays), ..self }
    }

    /// Sets the `max_plays` parameter: only items played at most that often are returned.
    pub fn max_plays(self, max_plays: u64) -> (r: Self)
        ensures
            r@ == (CollectionQueryParamsView { max_plays: Some(max_plays), ..self@ }),
    {
        CollectionQueryParams { max_plays: Some(max_plays), ..self }
    }

    /// Sets the `show_private` parameter. Only works for a logged in user's own collection,
    /// which this library cannot log in for, so it stays private.
    fn show_private(self, show_private: bool) -> (r: Self)
        ensures
            r@ == (CollectionQueryParamsView { show_private: Some(show_private), ..self@ }),
    {
        CollectionQueryParams { show_private: Some(show_private), ..self }
    }

    /// Sets the `collection_id` parameter: only the item with that collection ID is returned.
    pub fn collection_id(self, collection_id: u64) -> (r: Self)
        ensures
            r@ == (CollectionQueryParamsView { collection_id: Some(collection_id), ..self@ }),
    {
        CollectionQueryParams { collection_id: Some(collection_id), ..self }
    }
}

/// The parameters that every collection query has: whose collection, and whether the items come
/// in brief form.
#[derive(Clone, Copy, Debug)]
pub struct BaseCollectionQuery<'q> {
    username: &'q str,
    brief: bool,
}

impl<'q> BaseCollectionQuery<'q> {
    /// The name of the user whose collection is requested.
    pub closed spec fn user(&self) -> Seq<char> {
        self.username@
    }

    /// Whether the items come in brief form.
    pub closed spec fn is_brief(&self) -> bool {
        self.brief
    }

    /// The base query for the collection of the user with this name, in brief form or not.
    pub fn new(username: &'q str, brief: bool) -> (b: Self)
        ensures
            b.user() == username@,
            b.is_brief() == brief,
    {
        BaseCollectionQuery { username, brief }
    }
}


/// The status parameters of a collection query that are set, in a fixed order.
pub open spec fn collection_status_spec(p: CollectionQueryParamsView) -> Seq<(Seq<char>, Seq<char>)> {
    opt_entry("subtype"@, p.item_type, |t: CollectionItemType| collection_item_type_text_spec(t))
        + opt_entry("excludesubtype"@, p.exclude_item_type, |t: CollectionItemType| collection_item_type_text_spec(t))
        + opt_bool("version"@, p.include_version_info)
        + opt_bool("own"@, p.include_owned)
        + opt_bool("prevowned"@, p.include_previously_owned)
        + opt_bool("trade"@, p.include_for_trade)
        + opt_bool("want"@, p.include_want_in_trade)
        + opt_bool("wanttoplay"@, p.include_want_to_play)
        + opt_bool("wanttobuy"@, p.include_want_to_buy)
        + opt_bool("preordered"@, p.include_preordered)
        + opt_bool("wishlist"@, p.include_wishlist)
        + opt_entry("wishlistpriority"@, p.wishlist_priority, |w: WishlistPriority| priority_text(w))
}

/// The filter parameters of a collection query that are set, in a fixed order.
pub open spec fn collection_filter_spec(p: CollectionQueryParamsView) -> Seq<(Seq<char>, Seq<char>)> {
    opt_entry("modifiedsince"@, p.modified_since, |d: NaiveDate| short_date_text(d.year_of(), d.month_of(), d.day_of()))
        + opt_bool("rated"@, p.include_rated_by_user)
        + opt_bool("played"@, p.include_played_by_user)
        + opt_bool("comment"@, p.include_commented)
        + opt_bool("hasparts"@, p.has_parts)
        + opt_bool("wantparts"@, p.want_parts)
        + opt_entry("minrating"@, p.min_rating, |t: Seq<char>| t)
        + opt_entry("rating"@, p.max_rating, |t: Seq<char>| t)
        + opt_entry("minbggrating"@, p.min_bgg_rating, |t: Seq<char>| t)
        + opt_entry("bggrating"@, p.max_bgg_rating, |t: Seq<char>| t)
        + opt_u64("minplays"@, p.min_plays)
        + opt_u64("maxplays"@, p.max_plays)
        + opt_bool("showprivate"@, p.show_private)
        + opt_u64("collid"@, p.collection_id)
}

/// The query for a collection: the user, statistics always, the brief flag, then the item IDs
/// when there are any, then each parameter that is set, in a fixed order.
pub open spec fn collection_query_spec(
    username: Seq<char>,
    brief: bool,
    p: CollectionQueryParamsView,
) -> Seq<(Seq<char>, Seq<char>)> {
    let ids = if p.item_ids.len() > 0 {
        seq![("id"@, ids_text(p.item_ids))]
    } else {
        seq![]
    };
    seq![("username"@, username), ("stats"@, bool_text(true)), ("brief"@, bool_text(brief))] + ids
        + collection_status_spec(p) + collection_filter_spec(p)
}

/// Appends the status parameters that are set.
fn push_status_params(q: &mut Vec<QueryParam>, params: &CollectionQueryParams)
    ensures
        params_view(final(q)@) == params_view(old(q)@) + collection_status_spec(params@),
{
    let ghost start = params_view(q@);
    let ghost mut part: Seq<(Seq<char>, Seq<char>)> = Seq::empty();
    let ghost before = params_view(q@);
    if let Some(v) = params.item_type {
        push_text(q, "subtype", v.to_text());
    }
    proof {
        let e = opt_entry("subtype"@, params@.item_type, |t: CollectionItemType| collection_item_type_text_spec(t));
        assert(params_view(q@) =~= before + e);
        part = e;
    }
    let ghost before = params_view(q@);
    if let Some(v) = params.exclude_item_type {
        push_text(q, "excludesubtype", v.to_text());
    }
    proof {
        let e = opt_entry("excludesubtype"@, params@.exclude_item_type, |t: CollectionItemType| collection_item_type_text_spec(t));
        assert(params_view(q@) =~= before + e);
        lemma_concat_associative(start, part, e);
        part = part + e;
    }
    let ghost before = params_view(q@);
    push_opt_bool(q, "version", params.include_version_info);
    proof {
        let e = opt_bool("version"@, params@.include_version_info);
        assert(params_view(q@) =~= before + e);
        lemma_concat_associative(start, part, e);
        part = part + e;
    }
    let ghost before = params_view(q@);
    push_opt_bool(q, "own", params.include_owned);
    proof {
        let e = opt_bool("own"@, params@.include_owned);
        assert(params_view(q@) =~= before + e);
        lemma_concat_associative(start, part, e);
        part = part + e;
    }
    let ghost before = params_view(q@);
    push_opt_bool(q, "prevowned", params.include_previously_owned);
    proof {
        let e = opt_bool("prevowned"@, params@.include_previously_owned);
        assert(params_view(q@) =~= before + e);
        lemma_concat_associative(start, part, e);
        part = part + e;
    }
    let ghost before = params_view(q@);
    push_opt_bool(q, "trade", params.include_for_trade);
    proof {
        let e = opt_bool("trade"@, params@.include_for_trade);
        assert(params_view(q@) =~= before + e);
        lemma_concat_associative(start, part, e);
        part = part + e;
    }
    let ghost before = params_view(q@);
    push_opt_bool(q, "want", params.include_want_in_trade);
    proof {
        let e = opt_bool("want"@, params@.include_want_in_trade);
        assert(params_view(q@) =~= before + e);
        lemma_concat_associative(start, part, e);
        part = part + e;
    }
    let ghost before = params_view(q@);
    push_opt_bool(q, "wanttoplay", params.include_want_to_play);
    proof {
        let e = opt_bool("wanttoplay"@, params@.include_want_to_play);
        assert(params_view(q@) =~= before + e);
        lemma_concat_associative(start, part, e);
        part = part + e;
    }
    let ghost before = params_view(q@);
    push_opt_bool(q, "wanttobuy", params.include_want_to_buy);
    proof {
        let e = opt_bool("wanttobuy"@, params@.include_want_to_buy);
        assert(params_view(q@) =~= before + e);
        lemma_concat_associative(start, part, e);
        part = part + e;
    }
    let ghost before = params_view(q@);
    push_opt_bool(q, "preordered", params.include_preordered);
    proof {
        let e = opt_bool("preordered"@, params@.include_preordered);
        assert(params_view(q@) =~= before + e);
        lemma_concat_associative(start, part, e);
        part = part + e;
    }
    let ghost before = params_view(q@);
    push_opt_bool(q, "wishlist", params.include_wishlist);
    proof {
        let e = opt_bool("wishlist"@, params@.include_wishlist);
        assert(params_view(q@) =~= before + e);
        lemma_concat_associative(start, part, e);
        part = part + e;
    }
    let ghost before = params_view(q@);
    if let Some(v) = params.wishlist_priority {
        push_text(q, "wishlistpriority", v.to_text());
    }
    proof {
        let e = opt_entry("wishlistpriority"@, params@.wishlist_priority, |w: WishlistPriority| priority_text(w));
        assert(params_view(q@) =~= before + e);
        lemma_concat_associative(start, part, e);
        part = part + e;
    }
    assert(part == collection_status_spec(params@));
}

/// Appends the filter parameters that are set.
fn push_filter_params(q: &mut Vec<QueryParam>, params: &CollectionQueryParams)
    ensures
        params_view(final(q)@) == params_view(old(q)@) + collection_filter_spec(params@),
{
    let ghost start = params_view(q@);
    let ghost mut part: Seq<(Seq<char>, Seq<char>)> = Seq::empty();
    let ghost before = params_view(q@);
    if let Some(v) = params.modified_since {
        push_text(q, "modifiedsince", v.to_short_text());
    }
    proof {
        let e = opt_entry("modifiedsince"@, params@.modified_since, |d: NaiveDate| short_date_text(d.year_of(), d.month_of(), d.day_of()));
        assert(params_view(q@) =~= before + e);
        part = e;
    }
    let ghost before = params_view(q@);
    push_opt_bool(q, "rated", params.include_rated_by_user);
    proof {
        let e = opt_bool("rated"@, params@.include_rated_by_user);
        assert(params_view(q@) =~= before + e);
        lemma_concat_associative(start, part, e);
        part = part + e;
    }
    let ghost before = params_view(q@);
    push_opt_bool(q, "played", params.include_played_by_user);
    proof {
        let e = opt_bool("played"@, params@.include_played_by_user);
        assert(params_view(q@) =~= before + e);
        lemma_concat_associative(start, part, e);
        part = part + e;
    }
    let ghost before = params_view(q@);
    push_opt_bool(q, "comment", params.include_commented);
    proof {
        let e = opt_bool("comment"@, params@.include_commented);
        assert(params_view(q@) =~= before + e);
        lemma_concat_associative(start, part, e);
        part = part + e;
    }
    let ghost before = params_view(q@);
    push_opt_bool(q, "hasparts", params.has_parts);
    proof {
        let e = opt_bool("hasparts"@, params@.has_parts);
        assert(params_view(q@) =~= before + e);
        lemma_concat_associative(start, part, e);
        part = part + e;
    }
    let ghost before = params_view(q@);
    push_opt_bool(q, "wantparts", params.want_parts);
    proof {
        let e = opt_bool("wantparts"@, params@.want_parts);
        assert(params_view(q@) =~= before + e);
        lemma_concat_associative(start, part, e);
        part = part + e;
    }
    let ghost before = params_view(q@);
    if let Some(v) = &params.min_rating {
        push_text(q, "minrating", crate::text::owned(v.as_str()));
    }
    proof {
        let e = opt_entry("minrating"@, params@.min_rating, |t: Seq<char>| t);
        assert(params_view(q@) =~= before + e);
        lemma_concat_associative(start, part, e);
        part = part + e;
    }
    let ghost before = params_view(q@);
    if let Some(v) = &params.max_rating {
        push_text(q, "rating", crate::text::owned(v.as_str()));
    }
    proof {
        let e = opt_entry("rating"@, params@.max_rating, |t: Seq<char>| t);
        assert(params_view(q@) =~= before + e);
        lemma_concat_associative(start, part, e);
        part = part + e;
    }
    let ghost before = params_view(q@);
    if let Some(v) = &params.min_bgg_rating {
        push_text(q, "minbggrating", crate::text::owned(v.as_str()));
    }
    proof {
        let e = opt_entry("minbggrating"@, params@.min_bgg_rating, |t: Seq<char>| t);
        assert(params_view(q@) =~= before + e);
        lemma_concat_associative(start, part, e);
        part = part + e;
    }
    let ghost before = params_view(q@);
    if let Some(v) = &params.max_bgg_rating {
        push_text(q, "bggrating", crate::text::owned(v.as_str()));
    }
    proof {
        let e = opt_entry("bggrating"@, params@.max_bgg_rating, |t: Seq<char>| t);
        assert(params_view(q@) =~= before + e);
        lemma_concat_associative(start, part, e);
        part = part + e;
    }
    let ghost before = params_view(q@);
    push_opt_u64(q, "minplays", params.min_plays);
    proof {
        let e = opt_u64("minplays"@, params@.min_plays);
        assert(params_view(q@) =~= before + e);
        lemma_concat_associative(start, part, e);
        part = part + e;
    }
    let ghost before = params_view(q@);
    push_opt_u64(q, "maxplays", params.max_plays);
    proof {
        let e = opt_u64("maxplays"@, params@.max_plays);
        assert(params_view(q@) =~= before + e);
        lemma_concat_associative(start, part, e);
        part = part + e;
    }
    let ghost before = params_view(q@);
    push_opt_bool(q, "showprivate", params.show_private);
    proof {
        let e = opt_bool("showprivate"@, params@.show_private);
        assert(params_view(q@) =~= before + e);
        lemma_concat_associative(start, part, e);
        part = part + e;
    }
    let ghost before = params_view(q@);
    push_opt_u64(q, "collid", params.collection_id);
    proof {
        let e = opt_u64("collid"@, params@.collection_id);
        assert(params_view(q@) =~= before + e);
        lemma_concat_associative(start, part, e);
        part = part + e;
    }
    assert(part == collection_filter_spec(params@));
}

/// Builds the query for a request to the collection endpoint.
#[derive(Clone, Debug)]
pub struct CollectionQueryBuilder<'q> {
    base: BaseCollectionQuery<'q>,
    params: CollectionQueryParams,
}

impl<'q> CollectionQueryBuilder<'q> {
    /// The required parameters of the query.
    pub closed spec fn base_query(&self) -> BaseCollectionQuery<'q> {
        self.base
    }

    /// The settings of the query.
    pub closed spec fn settings(&self) -> CollectionQueryParamsView {
        self.params@
    }

    /// A builder from the required parameters and the optional ones.
    pub fn new(base: BaseCollectionQuery<'q>, params: CollectionQueryParams) -> (b: Self)
        ensures
            b.base_query() == base,
            b.settings() == params@,
    {
        CollectionQueryBuilder { base, params }
    }

    /// The key and value pairs of the query.
    ///
    /// Statistics are always asked for: the API is inconsistent about returning them when the
    /// parameter is left out.
    pub fn build(self) -> (q: Vec<QueryParam>)
        ensures
            params_view(q@) == collection_query_spec(
                self.base_query().user(),
                self.base_query().is_brief(),
                self.settings(),
            ),
    {
        let mut q: Vec<QueryParam> = Vec::new();
        push_text(&mut q, "username", crate::text::owned(self.base.username));
        push_bool(&mut q, "stats", true);
        push_bool(&mut q, "brief", self.base.brief);
        if self.params.item_ids.len() > 0 {
            push_param(&mut q, ids_param("id", &self.params.item_ids));
        }
        push_status_params(&mut q, &self.params);
        push_filter_params(&mut q, &self.params);
        proof {
            assert(params_view(q@) =~= collection_query_spec(
                self.base_query().user(),
                self.base_query().is_brief(),
                self.settings(),
            ));
        }
        q
    }
}

/// A user's collection: the items in it, each not necessarily owned but, for example, on the
/// wishlist or owned before.
///
/// Accessories and games never come together in one collection; games and their expansions can.
#[derive(Clone, Debug)]
pub struct Collection<T> {
    /// The games, expansions or accessories in the collection.
    pub items: Vec<T>,
}

/// Law: the status part of a collection query gives each status setting under its own key:
/// the item type under `subtype`, the excluded type under `excludesubtype`, each status flag
/// under its key (`own`, `prevowned`, `trade`, `want`, `wanttoplay`, `wanttobuy`,
/// `preordered`, `wishlist`, `version`) as `1` or `0`, and the wishlist priority under
/// `wishlistpriority`; each once when set and never when not.
#[verifier::rlimit(40)]
pub proof fn law_collection_status_keys(p: CollectionQueryParamsView)
    ensures
        values_of(collection_status_spec(p), "subtype"@) == match p.item_type { Some(t) => seq![collection_item_type_text_spec(t)], None => Seq::<Seq<char>>::empty() },
        values_of(collection_status_spec(p), "excludesubtype"@) == match p.exclude_item_type { Some(t) => seq![collection_item_type_text_spec(t)], None => Seq::<Seq<char>>::empty() },
        values_of(collection_status_spec(p), "version"@) == given_flag(p.include_version_info),
        values_of(collection_status_spec(p), "own"@) == given_flag(p.include_owned),
        values_of(collection_status_spec(p), "prevowned"@) == given_flag(p.include_previously_owned),
        values_of(collection_status_spec(p), "trade"@) == given_flag(p.include_for_trade),
        values_of(collection_status_spec(p), "want"@) == given_flag(p.include_want_in_trade),
        values_of(collection_status_spec(p), "wanttoplay"@) == given_flag(p.include_want_to_play),
        values_of(collection_status_spec(p), "wanttobuy"@) == given_flag(p.include_want_to_buy),
        values_of(collection_status_spec(p), "preordered"@) == given_flag(p.include_preordered),
        values_of(collection_status_spec(p), "wishlist"@) == given_flag(p.include_wishlist),
        values_of(collection_status_spec(p), "wishlistpriority"@) == match p.wishlist_priority { Some(w) => seq![priority_text(w)], None => Seq::<Seq<char>>::empty() },
{
    broadcast use crate::query::group_values_of;
    reveal_strlit("excludesubtype");
    reveal_strlit("own");
    reveal_strlit("preordered");
    reveal_strlit("prevowned");
    reveal_strlit("subtype");
    reveal_strlit("trade");
    reveal_strlit("version");
    reveal_strlit("want");
    reveal_strlit("wanttobuy");
    reveal_strlit("wanttoplay");
    reveal_strlit("wishlist");
    reveal_strlit("wishlistpriority");
    assert("excludesubtype"@.len() == 14);
    assert("own"@.len() == 3);
    assert("preordered"@.len() == 10);
    assert("prevowned"@.len() == 9);
    assert("subtype"@.len() == 7);
    assert("trade"@.len() == 5);
    assert("version"@.len() == 7);
    assert("want"@.len() == 4);
    assert("wanttobuy"@.len() == 9);
    assert("wanttoplay"@.len() == 10);
    assert("wishlist"@.len() == 8);
    assert("wishlistpriority"@.len() == 16);
    assert("preordered"@[0] != "wanttoplay"@[0]);
    assert("prevowned"@[0] != "wanttobuy"@[0]);
    assert("subtype"@[0] != "version"@[0]);
    assert(values_of(opt_entry("subtype"@, p.item_type, |t: CollectionItemType| collection_item_type_text_spec(t)) + opt_entry("excludesubtype"@, p.exclude_item_type, |t: CollectionItemType| collection_item_type_text_spec(t)) + opt_bool("version"@, p.include_version_info) + opt_bool("own"@, p.include_owned) + opt_bool("prevowned"@, p.include_previously_owned) + opt_bool("trade"@, p.include_for_trade) + opt_bool("want"@, p.include_want_in_trade), "subtype"@) == match p.item_type { Some(t) => seq![collection_item_type_text_spec(t)], None => Seq::<Seq<char>>::empty() });
    assert(values_of(opt_entry("subtype"@, p.item_type, |t: CollectionItemType| collection_item_type_text_spec(t)) + opt_entry("excludesubtype"@, p.exclude_item_type, |t: CollectionItemType| collection_item_type_text_spec(t)) + opt_bool("version"@, p.include_version_info) + opt_bool("own"@, p.include_owned) + opt_bool("prevowned"@, p.include_previously_owned) + opt_bool("trade"@, p.include_for_trade) + opt_bool("want"@, p.include_want_in_trade), "excludesubtype"@) == match p.exclude_item_type { Some(t) => seq![collection_item_type_text_spec(t)], None => Seq::<Seq<char>>::empty() });
    assert(values_of(opt_entry("subtype"@, p.item_type, |t: CollectionItemType| collection_item_type_text_spec(t)) + opt_entry("excludesubtype"@, p.exclude_item_type, |t: CollectionItemType| collection_item_type_text_spec(t)) + opt_bool("version"@, p.include_version_info) + opt_bool("own"@, p.include_owned) + opt_bool("prevowned"@, p.include_previously_owned) + opt_bool("trade"@, p.include_for_trade) + opt_bool("want"@, p.include_want_in_trade), "version"@) == given_flag(p.include_version_info));
    assert(values_of(opt_entry("subtype"@, p.item_type, |t: CollectionItemType| collection_item_type_text_spec(t)) + opt_entry("excludesubtype"@, p.exclude_item_type, |t: CollectionItemType| collection_item_type_text_spec(t)) + opt_bool("version"@, p.include_version_info) + opt_bool("own"@, p.include_owned) + opt_bool("prevowned"@, p.include_previously_owned) + opt_bool("trade"@, p.include_for_trade) + opt_bool("want"@, p.include_want_in_trade), "own"@) == given_flag(p.include_owned));
    assert(values_of(opt_entry("subtype"@, p.item_type, |t: CollectionItemType| collection_item_type_text_spec(t)) + opt_entry("excludesubtype"@, p.exclude_item_type, |t: CollectionItemType| collection_item_type_text_spec(t)) + opt_bool("version"@, p.include_version_info) + opt_bool("own"@, p.include_owned) + opt_bool("prevowned"@, p.include_previously_owned) + opt_bool("trade"@, p.include_for_trade) + opt_bool("want"@, p.include_want_in_trade), "prevowned"@) == given_flag(p.include_previously_owned));
    assert(values_of(opt_entry("subtype"@, p.item_type, |t: CollectionItemType| collection_item_type_text_spec(t)) + opt_entry("excludesubtype"@, p.exclude_item_type, |t: CollectionItemType| collection_item_type_text_spec(t)) + opt_bool("version"@, p.include_version_info) + opt_bool("own"@, p.include_owned) + opt_bool("prevowned"@, p.include_previously_owned) + opt_bool("trade"@, p.include_for_trade) + opt_bool("want"@, p.include_want_in_trade), "trade"@) == given_flag(p.include_for_trade));
    assert(values_of(opt_entry("subtype"@, p.item_type, |t: CollectionItemType| collection_item_type_text_spec(t)) + opt_entry("excludesubtype"@, p.exclude_item_type, |t: CollectionItemType| collection_item_type_text_spec(t)) + opt_bool("version"@, p.include_version_info) + opt_bool("own"@, p.include_owned) + opt_bool("prevowned"@, p.include_previously_owned) + opt_bool("trade"@, p.include_for_trade) + opt_bool("want"@, p.include_want_in_trade), "want"@) == given_flag(p.include_want_in_trade));
}

/// Law: the filter part of a collection query gives each filter under its own key: the date
/// as `%y-%m-%d` under `modifiedsince`, the lowest and highest rating under `minrating` and
/// `rating`, the lowest and highest BGG rating under `minbggrating` and `bggrating`, the play
/// counts under `minplays` and `maxplays`, the collection ID under `collid`, and each flag
/// under its key; each once when set and never when not.
#[verifier::rlimit(40)]
pub proof fn law_collection_filter_keys(p: CollectionQueryParamsView)
    ensures
        values_of(collection_filter_spec(p), "modifiedsince"@) == match p.modified_since { Some(d) => seq![short_date_text(d.year_of(), d.month_of(), d.day_of())], None => Seq::<Seq<char>>::empty() },
        values_of(collection_filter_spec(p), "rated"@) == given_flag(p.include_rated_by_user),
        values_of(collection_filter_spec(p), "played"@) == given_flag(p.include_played_by_user),
        values_of(collection_filter_spec(p), "comment"@) == given_flag(p.include_commented),
        values_of(collection_filter_spec(p), "hasparts"@) == given_flag(p.has_parts),
        values_of(collection_filter_spec(p), "wantparts"@) == given_flag(p.want_parts),
        values_of(collection_filter_spec(p), "minrating"@) == given_text(p.min_rating),
        values_of(collection_filter_spec(p), "rating"@) == given_text(p.max_rating),
        values_of(collection_filter_spec(p), "minbggrating"@) == given_text(p.min_bgg_rating),
        values_of(collection_filter_spec(p), "bggrating"@) == given_text(p.max_bgg_rating),
        values_of(collection_filter_spec(p), "minplays"@) == given_number(p.min_plays),
        values_of(collection_filter_spec(p), "maxplays"@) == given_number(p.max_plays),
        values_of(collection_filter_spec(p), "showprivate"@) == given_flag(p.show_private),
        values_of(collection_filter_spec(p), "collid"@) == given_number(p.collection_id),
{
    broadcast use crate::query::group_values_of;
    reveal_strlit("bggrating");
    reveal_strlit("collid");
    reveal_strlit("comment");
    reveal_strlit("hasparts");
    reveal_strlit("maxplays");
    reveal_strlit("minbggrating");
    reveal_strlit("minplays");
    reveal_strlit("minrating");
    reveal_strlit("modifiedsince");
    reveal_strlit("played");
    reveal_strlit("rated");
    reveal_strlit("rating");
    reveal_strlit("showprivate");
    reveal_strlit("wantparts");
    assert("bggrating"@.len() == 9);
    assert("collid"@.len() == 6);
    assert("comment"@.len() == 7);
    assert("hasparts"@.len() == 8);
    assert("maxplays"@.len() == 8);
    assert("minbggrating"@.len() == 12);
    assert("minplays"@.len() == 8);
    assert("minrating"@.len() == 9);
    assert("modifiedsince"@.len() == 13);
    assert("played"@.len() == 6);
    assert("rated"@.len() == 5);
    assert("rating"@.len() == 6);
    assert("showprivate"@.len() == 11);
    assert("wantparts"@.len() == 9);
    assert("bggrating"@[0] != "minrating"@[0]);
    assert("bggrating"@[0] != "wantparts"@[0]);
    assert("collid"@[0] != "played"@[0]);
    assert("collid"@[0] != "rating"@[0]);
    assert("hasparts"@[0] != "maxplays"@[0]);
    assert("hasparts"@[0] != "minplays"@[0]);
    assert("maxplays"@[1] != "minplays"@[1]);
    assert("minrating"@[0] != "wantparts"@[0]);
    assert("played"@[0] != "rating"@[0]);
    assert(values_of(opt_entry("modifiedsince"@, p.modified_since, |d: NaiveDate| short_date_text(d.year_of(), d.month_of(), d.day_of())) + opt_bool("rated"@, p.include_rated_by_user) + opt_bool("played"@, p.include_played_by_user) + opt_bool("comment"@, p.include_commented) + opt_bool("hasparts"@, p.has_parts) + opt_bool("wantparts"@, p.want_parts) + opt_entry("minrating"@, p.min_rating, |t: Seq<char>| t) + opt_entry("rating"@, p.max_rating, |t: Seq<char>| t), "modifiedsince"@) == match p.modified_since { Some(d) => seq![short_date_text(d.year_of(), d.month_of(), d.day_of())], None => Seq::<Seq<char>>::empty() });
    assert(values_of(opt_entry("modifiedsince"@, p.modified_since, |d: NaiveDate| short_date_text(d.year_of(), d.month_of(), d.day_of())) + opt_bool("rated"@, p.include_rated_by_user) + opt_bool("played"@, p.include_played_by_user) + opt_bool("comment"@, p.include_commented) + opt_bool("hasparts"@, p.has_parts) + opt_bool("wantparts"@, p.want_parts) + opt_entry("minrating"@, p.min_rating, |t: Seq<char>| t) + opt_entry("rating"@, p.max_rating, |t: Seq<char>| t), "rated"@) == given_flag(p.include_rated_by_user));
    assert(values_of(opt_entry("modifiedsince"@, p.modified_since, |d: NaiveDate| short_date_text(d.year_of(), d.month_of(), d.day_of())) + opt_bool("rated"@, p.include_rated_by_user) + opt_bool("played"@, p.include_played_by_user) + opt_bool("comment"@, p.include_commented) + opt_bool("hasparts"@, p.has_parts) + opt_bool("wantparts"@, p.want_parts) + opt_entry("minrating"@, p.min_rating, |t: Seq<char>| t) + opt_entry("rating"@, p.max_rating, |t: Seq<char>| t), "played"@) == given_flag(p.include_played_by_user));
    assert(values_of(opt_entry("modifiedsince"@, p.modified_since, |d: NaiveDate| short_date_text(d.year_of(), d.month_of(), d.day_of())) + opt_bool("rated"@, p.include_rated_by_user) + opt_bool("played"@, p.include_played_by_user) + opt_bool("comment"@, p.include_commented) + opt_bool("hasparts"@, p.has_parts) + opt_bool("wantparts"@, p.want_parts) + opt_entry("minrating"@, p.min_rating, |t: Seq<char>| t) + opt_entry("rating"@, p.max_rating, |t: Seq<char>| t), "comment"@) == given_flag(p.include_commented));
    assert(values_of(opt_entry("modifiedsince"@, p.modified_since, |d: NaiveDate| short_date_text(d.year_of(), d.month_of(), d.day_of())) + opt_bool("rated"@, p.include_rated_by_user) + opt_bool("played"@, p.include_played_by_user) + opt_bool("comment"@, p.include_commented) + opt_bool("hasparts"@, p.has_parts) + opt_bool("wantparts"@, p.want_parts) + opt_entry("minrating"@, p.min_rating, |t: Seq<char>| t) + opt_entry("rating"@, p.max_rating, |t: Seq<char>| t), "hasparts"@) == given_flag(p.has_parts));
    assert(values_of(opt_entry("modifiedsince"@, p.modified_since, |d: NaiveDate| short_date_text(d.year_of(), d.month_of(), d.day_of())) + opt_bool("rated"@, p.include_rated_by_user) + opt_bool("played"@, p.include_played_by_user) + opt_bool("comment"@, p.include_commented) + opt_bool("hasparts"@, p.has_parts) + opt_bool("wantparts"@, p.want_parts) + opt_entry("minrating"@, p.min_rating, |t: Seq<char>| t) + opt_entry("rating"@, p.max_rating, |t: Seq<char>| t), "wantparts"@) == given_flag(p.want_parts));
    assert(values_of(opt_entry("modifiedsince"@, p.modified_since, |d: NaiveDate| short_date_text(d.year_of(), d.month_of(), d.day_of())) + opt_bool("rated"@, p.include_rated_by_user) + opt_bool("played"@, p.include_played_by_user) + opt_bool("comment"@, p.include_commented) + opt_bool("hasparts"@, p.has_parts) + opt_bool("wantparts"@, p.want_parts) + opt_entry("minrating"@, p.min_rating, |t: Seq<char>| t) + opt_entry("rating"@, p.max_rating, |t: Seq<char>| t), "minrating"@) == given_text(p.min_rating));
    assert(values_of(opt_entry("modifiedsince"@, p.modified_since, |d: NaiveDate| short_date_text(d.year_of(), d.month_of(), d.day_of())) + opt_bool("rated"@, p.include_rated_by_user) + opt_bool("played"@, p.include_played_by_user) + opt_bool("comment"@, p.include_commented) + opt_bool("hasparts"@, p.has_parts) + opt_bool("wantparts"@, p.want_parts) + opt_entry("minrating"@, p.min_rating, |t: Seq<char>| t) + opt_entry("rating"@, p.max_rating, |t: Seq<char>| t), "rating"@) == given_text(p.max_rating));
}

/// Law: a collection query gives the user name under `username`, `1` under `stats`, the brief
/// flag under `brief`, the item IDs joined with commas under `id` when there are any, and
/// under every status and filter key what the status and filter parts give under it, so
/// that no key of one part is given by another.
#[verifier::rlimit(40)]
pub proof fn law_collection_query_keys(username: Seq<char>, brief: bool, p: CollectionQueryParamsView)
    ensures
        values_of(collection_query_spec(username, brief, p), "username"@) == seq![username],
        values_of(collection_query_spec(username, brief, p), "stats"@) == seq![bool_text(true)],
        values_of(collection_query_spec(username, brief, p), "brief"@) == seq![bool_text(brief)],
        values_of(collection_query_spec(username, brief, p), "id"@) == if p.item_ids.len() > 0 { seq![ids_text(p.item_ids)] } else { Seq::<Seq<char>>::empty() },
        values_of(collection_query_spec(username, brief, p), "subtype"@) == values_of(collection_status_spec(p), "subtype"@),
        values_of(collection_query_spec(username, brief, p), "excludesubtype"@) == values_of(collection_status_spec(p), "excludesubtype"@),
        values_of(collection_query_spec(username, brief, p), "version"@) == values_of(collection_status_spec(p), "version"@),
        values_of(collection_query_spec(username, brief, p), "own"@) == values_of(collection_status_spec(p), "own"@),
        values_of(collection_query_spec(username, brief, p), "prevowned"@) == values_of(collection_status_spec(p), "prevowned"@),
        values_of(collection_query_spec(username, brief, p), "trade"@) == values_of(collection_status_spec(p), "trade"@),
        values_of(collection_query_spec(username, brief, p), "want"@) == values_of(collection_status_spec(p), "want"@),
        values_of(collection_query_spec(username, brief, p), "wanttoplay"@) == values_of(collection_status_spec(p), "wanttoplay"@),
        values_of(collection_query_spec(username, brief, p), "wanttobuy"@) == values_of(collection_status_spec(p), "wanttobuy"@),
        values_of(collection_query_spec(username, brief, p), "preordered"@) == values_of(collection_status_spec(p), "preordered"@),
        values_of(collection_query_spec(username, brief, p), "wishlist"@) == values_of(collection_status_spec(p), "wishlist"@),
        values_of(collection_query_spec(username, brief, p), "wishlistpriority"@) == values_of(collection_status_spec(p), "wishlistpriority"@),
        values_of(collection_query_spec(username, brief, p), "modifiedsince"@) == values_of(collection_filter_spec(p), "modifiedsince"@),
        values_of(collection_query_spec(username, brief, p), "rated"@) == values_of(collection_filter_spec(p), "rated"@),
        values_of(collection_query_spec(username, brief, p), "played"@) == values_of(collection_filter_spec(p), "played"@),
        values_of(collection_query_spec(username, brief, p), "comment"@) == values_of(collection_filter_spec(p), "comment"@),
        values_of(collection_query_spec(username, brief, p), "hasparts"@) == values_of(collection_filter_spec(p), "hasparts"@),
        values_of(collection_query_spec(username, brief, p), "wantparts"@) == values_of(collection_filter_spec(p), "wantparts"@),
        values_of(collection_query_spec(username, brief, p), "minrating"@) == values_of(collection_filter_spec(p), "minrating"@),
        values_of(collection_query_spec(username, brief, p), "rating"@) == values_of(collection_filter_spec(p), "rating"@),
        values_of(collection_query_spec(username, brief, p), "minbggrating"@) == values_of(collection_filter_spec(p), "minbggrating"@),
        values_of(collection_query_spec(username, brief, p), "bggrating"@) == values_of(collection_filter_spec(p), "bggrating"@),
        values_of(collection_query_spec(username, brief, p), "minplays"@) == values_of(collection_filter_spec(p), "minplays"@),
        values_of(collection_query_spec(username, brief, p), "maxplays"@) == values_of(collection_filter_spec(p), "maxplays"@),
        values_of(collection_query_spec(username, brief, p), "showprivate"@) == values_of(collection_filter_spec(p), "showprivate"@),
        values_of(collection_query_spec(username, brief, p), "collid"@) == values_of(collection_filter_spec(p), "collid"@),
{
    broadcast use crate::query::group_values_of;
    reveal_strlit("bggrating");
    reveal_strlit("brief");
    reveal_strlit("collid");
    reveal_strlit("comment");
    reveal_strlit("excludesubtype");
    reveal_strlit("hasparts");
    reveal_strlit("id");
    reveal_strlit("maxplays");
    reveal_strlit("minbggrating");
    reveal_strlit("minplays");
    reveal_strlit("minrating");
    reveal_strlit("modifiedsince");
    reveal_strlit("own");
    reveal_strlit("played");
    reveal_strlit("preordered");
    reveal_strlit("prevowned");
    reveal_strlit("rated");
    reveal_strlit("rating");
    reveal_strlit("showprivate");
    reveal_strlit("stats");
    reveal_strlit("subtype");
    reveal_strlit("trade");
    reveal_strlit("username");
    reveal_strlit("version");
    reveal_strlit("want");
    reveal_strlit("wantparts");
    reveal_strlit("wanttobuy");
    reveal_strlit("wanttoplay");
    reveal_strlit("wishlist");
    reveal_strlit("wishlistpriority");
    assert("bggrating"@.len() == 9);
    assert("brief"@.len() == 5);
    assert("collid"@.len() == 6);
    assert("comment"@.len() == 7);
    assert("excludesubtype"@.len() == 14);
    assert("hasparts"@.len() == 8);
    assert("id"@.len() == 2);
    assert("maxplays"@.len() == 8);
    assert("minbggrating"@.len() == 12);
    assert("minplays"@.len() == 8);
    assert("minrating"@.len() == 9);
    assert("modifiedsince"@.len() == 13);
    assert("own"@.len() == 3);
    assert("played"@.len() == 6);
    assert("preordered"@.len() == 10);
    assert("prevowned"@.len() == 9);
    assert("rated"@.len() == 5);
    assert("rating"@.len() == 6);
    assert("showprivate"@.len() == 11);
    assert("stats"@.len() == 5);
    assert("subtype"@.len() == 7);
    assert("trade"@.len() == 5);
    assert("username"@.len() == 8);
    assert("version"@.len() == 7);
    assert("want"@.len() == 4);
    assert("wantparts"@.len() == 9);
    assert("wanttobuy"@.len() == 9);
    assert("wanttoplay"@.len() == 10);
    assert("wishlist"@.len() == 8);
    assert("wishlistpriority"@.len() == 16);
    assert("bggrating"@[0] != "minrating"@[0]);
    assert("bggrating"@[0] != "prevowned"@[0]);
    assert("bggrating"@[0] != "wantparts"@[0]);
    assert("bggrating"@[0] != "wanttobuy"@[0]);
    assert("brief"@[0] != "rated"@[0]);
    assert("brief"@[0] != "stats"@[0]);
    assert("brief"@[0] != "trade"@[0]);
    assert("collid"@[0] != "played"@[0]);
    assert("collid"@[0] != "rating"@[0]);
    assert("comment"@[0] != "subtype"@[0]);
    assert("comment"@[0] != "version"@[0]);
    assert("hasparts"@[0] != "maxplays"@[0]);
    assert("hasparts"@[0] != "minplays"@[0]);
    assert("hasparts"@[0] != "username"@[0]);
    assert("hasparts"@[0] != "wishlist"@[0]);
    assert("maxplays"@[1] != "minplays"@[1]);
    assert("maxplays"@[0] != "username"@[0]);
    assert("maxplays"@[0] != "wishlist"@[0]);
    assert("minplays"@[0] != "username"@[0]);
    assert("minplays"@[0] != "wishlist"@[0]);
    assert("minrating"@[0] != "prevowned"@[0]);
    assert("minrating"@[0] != "wantparts"@[0]);
    assert("minrating"@[0] != "wanttobuy"@[0]);
    assert("played"@[0] != "rating"@[0]);
    assert("preordered"@[0] != "wanttoplay"@[0]);
    assert("prevowned"@[0] != "wantparts"@[0]);
    assert("prevowned"@[0] != "wanttobuy"@[0]);
    assert("rated"@[0] != "stats"@[0]);
    assert("rated"@[0] != "trade"@[0]);
    assert("stats"@[0] != "trade"@[0]);
    assert("subtype"@[0] != "version"@[0]);
    assert("username"@[0] != "wishlist"@[0]);
    assert("wantparts"@[4] != "wanttobuy"@[4]);
    assert(values_of(collection_query_spec(username, brief, p), "username"@) == seq![username]) by {
        assert(values_of(seq![("username"@, username)], "username"@) == seq![username]);
        assert(values_of(seq![("username"@, username)].push(("stats"@, bool_text(true))), "username"@) == seq![username]);
        assert(values_of(seq![("username"@, username)].push(("stats"@, bool_text(true))).push(("brief"@, bool_text(brief))), "username"@) == seq![username]);
        assert(seq![("username"@, username), ("stats"@, bool_text(true)), ("brief"@, bool_text(brief))] =~= seq![("username"@, username)].push(("stats"@, bool_text(true))).push(("brief"@, bool_text(brief))));
        assert(values_of(seq![("username"@, username), ("stats"@, bool_text(true)), ("brief"@, bool_text(brief))], "username"@) == seq![username]);
        assert(values_of((if p.item_ids.len() > 0 { seq![("id"@, ids_text(p.item_ids))] } else { Seq::<(Seq<char>, Seq<char>)>::empty() }), "username"@) == Seq::<Seq<char>>::empty());
        assert(values_of(collection_status_spec(p), "username"@) == Seq::<Seq<char>>::empty());
        assert(values_of(collection_filter_spec(p), "username"@) == Seq::<Seq<char>>::empty());
    }
    assert(values_of(collection_query_spec(username, brief, p), "stats"@) == seq![bool_text(true)]) by {
        assert(values_of(seq![("username"@, username)], "stats"@) == Seq::<Seq<char>>::empty());
        assert(values_of(seq![("username"@, username)].push(("stats"@, bool_text(true))), "stats"@) == seq![bool_text(true)]);
        assert(values_of(seq![("username"@, username)].push(("stats"@, bool_text(true))).push(("brief"@, bool_text(brief))), "stats"@) == seq![bool_text(true)]);
        assert(seq![("username"@, username), ("stats"@, bool_text(true)), ("brief"@, bool_text(brief))] =~= seq![("username"@, username)].push(("stats"@, bool_text(true))).push(("brief"@, bool_text(brief))));
        assert(values_of(seq![("username"@, username), ("stats"@, bool_text(true)), ("brief"@, bool_text(brief))], "stats"@) == seq![bool_text(true)]);
        assert(values_of((if p.item_ids.len() > 0 { seq![("id"@, ids_text(p.item_ids))] } else { Seq::<(Seq<char>, Seq<char>)>::empty() }), "stats"@) == Seq::<Seq<char>>::empty());
        assert(values_of(collection_status_spec(p), "stats"@) == Seq::<Seq<char>>::empty());
        assert(values_of(collection_filter_spec(p), "stats"@) == Seq::<Seq<char>>::empty());
    }
    assert(values_of(collection_query_spec(username, brief, p), "brief"@) == seq![bool_text(brief)]) by {
        assert(values_of(seq![("username"@, username)], "brief"@) == Seq::<Seq<char>>::empty());
        assert(values_of(seq![("username"@, username)].push(("stats"@, bool_text(true))), "brief"@) == Seq::<Seq<char>>::empty());
        assert(values_of(seq![("username"@, username)].push(("stats"@, bool_text(true))).push(("brief"@, bool_text(brief))), "brief"@) == seq![bool_text(brief)]);
        assert(seq![("username"@, username), ("stats"@, bool_text(true)), ("brief"@, bool_text(brief))] =~= seq![("username"@, username)].push(("stats"@, bool_text(true))).push(("brief"@, bool_text(brief))));
        assert(values_of(seq![("username"@, username), ("stats"@, bool_text(true)), ("brief"@, bool_text(brief))], "brief"@) == seq![bool_text(brief)]);
        assert(values_of((if p.item_ids.len() > 0 { seq![("id"@, ids_text(p.item_ids))] } else { Seq::<(Seq<char>, Seq<char>)>::empty() }), "brief"@) == Seq::<Seq<char>>::empty());
        assert(values_of(collection_status_spec(p), "brief"@) == Seq::<Seq<char>>::empty());
        assert(values_of(collection_filter_spec(p), "brief"@) == Seq::<Seq<char>>::empty());
    }
    assert(values_of(collection_query_spec(username, brief, p), "id"@) == if p.item_ids.len() > 0 { seq![ids_text(p.item_ids)] } else { Seq::<Seq<char>>::empty() }) by {
        assert(values_of(seq![("username"@, username)], "id"@) == Seq::<Seq<char>>::empty());
        assert(values_of(seq![("username"@, username)].push(("stats"@, bool_text(true))), "id"@) == Seq::<Seq<char>>::empty());
        assert(values_of(seq![("username"@, username)].push(("stats"@, bool_text(true))).push(("brief"@, bool_text(brief))), "id"@) == Seq::<Seq<char>>::empty());
        assert(seq![("username"@, username), ("stats"@, bool_text(true)), ("brief"@, bool_text(brief))] =~= seq![("username"@, username)].push(("stats"@, bool_text(true))).push(("brief"@, bool_text(brief))));
        assert(values_of(seq![("username"@, username), ("stats"@, bool_text(true)), ("brief"@, bool_text(brief))], "id"@) == Seq::<Seq<char>>::empty());
        assert(values_of((if p.item_ids.len() > 0 { seq![("id"@, ids_text(p.item_ids))] } else { Seq::<(Seq<char>, Seq<char>)>::empty() }), "id"@) == if p.item_ids.len() > 0 { seq![ids_text(p.item_ids)] } else { Seq::<Seq<char>>::empty() });
        assert(values_of(collection_status_spec(p), "id"@) == Seq::<Seq<char>>::empty());
        assert(values_of(collection_filter_spec(p), "id"@) == Seq::<Seq<char>>::empty());
    }
    assert(values_of(collection_query_spec(username, brief, p), "subtype"@) == values_of(collection_status_spec(p), "subtype"@)) by {
        assert(values_of(seq![("username"@, username)], "subtype"@) == Seq::<Seq<char>>::empty());
        assert(values_of(seq![("username"@, username)].push(("stats"@, bool_text(true))), "subtype"@) == Seq::<Seq<char>>::empty());
        assert(values_of(seq![("username"@, username)].push(("stats"@, bool_text(true))).push(("brief"@, bool_text(brief))), "subtype"@) == Seq::<Seq<char>>::empty());
        assert(seq![("username"@, username), ("stats"@, bool_text(true)), ("brief"@, bool_text(brief))] =~= seq![("username"@, username)].push(("stats"@, bool_text(true))).push(("brief"@, bool_text(brief))));
        assert(values_of(seq![("username"@, username), ("stats"@, bool_text(true)), ("brief"@, bool_text(brief))], "subtype"@) == Seq::<Seq<char>>::empty());
        assert(values_of((if p.item_ids.len() > 0 { seq![("id"@, ids_text(p.item_ids))] } else { Seq::<(Seq<char>, Seq<char>)>::empty() }), "subtype"@) == Seq::<Seq<char>>::empty());
        assert(values_of(collection_status_spec(p), "subtype"@) == values_of(collection_status_spec(p), "subtype"@));
        assert(values_of(collection_filter_spec(p), "subtype"@) == Seq::<Seq<char>>::empty());
    }
    assert(values_of(collection_query_spec(username, brief, p), "excludesubtype"@) == values_of(collection_status_spec(p), "excludesubtype"@)) by {
        assert(values_of(seq![("username"@, username)], "excludesubtype"@) == Seq::<Seq<char>>::empty());
        assert(values_of(seq![("username"@, username)].push(("stats"@, bool_text(true))), "excludesubtype"@) == Seq::<Seq<char>>::empty());
        assert(values_of(seq![("username"@, username)].push(("stats"@, bool_text(true))).push(("brief"@, bool_text(brief))), "excludesubtype"@) == Seq::<Seq<char>>::empty());
        assert(seq![("username"@, username), ("stats"@, bool_text(true)), ("brief"@, bool_text(brief))] =~= seq![("username"@, username)].push(("stats"@, bool_text(true))).push(("brief"@, bool_text(brief))));
        assert(values_of(seq![("username"@, username), ("stats"@, bool_text(true)), ("brief"@, bool_text(brief))], "excludesubtype"@) == Seq::<Seq<char>>::empty());
        assert(values_of((if p.item_ids.len() > 0 { seq![("id"@, ids_text(p.item_ids))] } else { Seq::<(Seq<char>, Seq<char>)>::empty() }), "excludesubtype"@) == Seq::<Seq<char>>::empty());
        assert(values_of(collection_status_spec(p), "excludesubtype"@) == values_of(collection_status_spec(p), "excludesubtype"@));
        assert(values_of(collection_filter_spec(p), "excludesubtype"@) == Seq::<Seq<char>>::empty());
    }
    assert(values_of(collection_query_spec(username, brief, p), "version"@) == values_of(collection_status_spec(p), "version"@)) by {
        assert(values_of(seq![("username"@, username)], "version"@) == Seq::<Seq<char>>::empty());
        assert(values_of(seq![("username"@, username)].push(("stats"@, bool_text(true))), "version"@) == Seq::<Seq<char>>::empty());
        assert(values_of(seq![("username"@, username)].push(("stats"@, bool_text(true))).push(("brief"@, bool_text(brief))), "version"@) == Seq::<Seq<char>>::empty());
        assert(seq![("username"@, username), ("stats"@, bool_text(true)), ("brief"@, bool_text(brief))] =~= seq![("username"@, username)].push(("stats"@, bool_text(true))).push(("brief"@, bool_text(brief))));
        assert(values_of(seq![("username"@, username), ("stats"@, bool_text(true)), ("brief"@, bool_text(brief))], "version"@) == Seq::<Seq<char>>::empty());
        assert(values_of((if p.item_ids.len() > 0 { seq![("id"@, ids_text(p.item_ids))] } else { Seq::<(Seq<char>, Seq<char>)>::empty() }), "version"@) == Seq::<Seq<char>>::empty());
        assert(values_of(collection_status_spec(p), "version"@) == values_of(collection_status_spec(p), "version"@));
        assert(values_of(collection_filter_spec(p), "version"@) == Seq::<Seq<char>>::empty());
    }
    assert(values_of(collection_query_spec(username, brief, p), "own"@) == values_of(collection_status_spec(p), "own"@)) by {
        assert(values_of(seq![("username"@, username)], "own"@) == Seq::<Seq<char>>::empty());
        assert(values_of(seq![("username"@, username)].push(("stats"@, bool_text(true))), "own"@) == Seq::<Seq<char>>::empty());
        assert(values_of(seq![("username"@, username)].push(("stats"@, bool_text(true))).push(("brief"@, bool_text(brief))), "own"@) == Seq::<Seq<char>>::empty());
        assert(seq![("username"@, username), ("stats"@, bool_text(true)), ("brief"@, bool_text(brief))] =~= seq![("username"@, username)].push(("stats"@, bool_text(true))).push(("brief"@, bool_text(brief))));
        assert(values_of(seq![("username"@, username), ("stats"@, bool_text(true)), ("brief"@, bool_text(brief))], "own"@) == Seq::<Seq<char>>::empty());
        assert(values_of((if p.item_ids.len() > 0 { seq![("id"@, ids_text(p.item_ids))] } else { Seq::<(Seq<char>, Seq<char>)>::empty() }), "own"@) == Seq::<Seq<char>>::empty());
        assert(values_of(collection_status_spec(p), "own"@) == values_of(collection_status_spec(p), "own"@));
        assert(values_of(collection_filter_spec(p), "own"@) == Seq::<Seq<char>>::empty());
    }
    assert(values_of(collection_query_spec(username, brief, p), "prevowned"@) == values_of(collection_status_spec(p), "prevowned"@)) by {
        assert(values_of(seq![("username"@, username)], "prevowned"@) == Seq::<Seq<char>>::empty());
        assert(values_of(seq![("username"@, username)].push(("stats"@, bool_text(true))), "prevowned"@) == Seq::<Seq<char>>::empty());
        assert(values_of(seq![("username"@, username)].push(("stats"@, bool_text(true))).push(("brief"@, bool_text(brief))), "prevowned"@) == Seq::<Seq<char>>::empty());
        assert(seq![("username"@, username), ("stats"@, bool_text(true)), ("brief"@, bool_text(brief))] =~= seq![("username"@, username)].push(("stats"@, bool_text(true))).push(("brief"@, bool_text(brief))));
        assert(values_of(seq![("username"@, username), ("stats"@, bool_text(true)), ("brief"@, bool_text(brief))], "prevowned"@) == Seq::<Seq<char>>::empty());
        assert(values_of((if p.item_ids.len() > 0 { seq![("id"@, ids_text(p.item_ids))] } else { Seq::<(Seq<char>, Seq<char>)>::empty() }), "prevowned"@) == Seq::<Seq<char>>::empty());
        assert(values_of(collection_status_spec(p), "prevowned"@) == values_of(collection_status_spec(p), "prevowned"@));
        assert(values_of(collection_filter_spec(p), "prevowned"@) == Seq::<Seq<char>>::empty());
    }
    assert(values_of(collection_query_spec(username, brief, p), "trade"@) == values_of(collection_status_spec(p), "trade"@)) by {
        assert(values_of(seq![("username"@, username)], "trade"@) == Seq::<Seq<char>>::empty());
        assert(values_of(seq![("username"@, username)].push(("stats"@, bool_text(true))), "trade"@) == Seq::<Seq<char>>::empty());
        assert(values_of(seq![("username"@, username)].push(("stats"@, bool_text(true))).push(("brief"@, bool_text(brief))), "trade"@) == Seq::<Seq<char>>::empty());
        assert(seq![("username"@, username), ("stats"@, bool_text(true)), ("brief"@, bool_text(brief))] =~= seq![("username"@, username)].push(("stats"@, bool_text(true))).push(("brief"@, bool_text(brief))));
        assert(values_of(seq![("username"@, username), ("stats"@, bool_text(true)), ("brief"@, bool_text(brief))], "trade"@) == Seq::<Seq<char>>::empty());
        assert(values_of((if p.item_ids.len() > 0 { seq![("id"@, ids_text(p.item_ids))] } else { Seq::<(Seq<char>, Seq<char>)>::empty() }), "trade"@) == Seq::<Seq<char>>::empty());
        assert(values_of(collection_status_spec(p), "trade"@) == values_of(collection_status_spec(p), "trade"@));
        assert(values_of(collection_filter_spec(p), "trade"@) == Seq::<Seq<char>>::empty());
    }
    assert(values_of(collection_query_spec(username, brief, p), "want"@) == values_of(collection_status_spec(p), "want"@)) by {
        assert(values_of(seq![("username"@, username)], "want"@) == Seq::<Seq<char>>::empty());
        assert(values_of(seq![("username"@, username)].push(("stats"@, bool_text(true))), "want"@) == Seq::<Seq<char>>::empty());
        assert(values_of(seq![("username"@, username)].push(("stats"@, bool_text(true))).push(("brief"@, bool_text(brief))), "want"@) == Seq::<Seq<char>>::empty());
        assert(seq![("username"@, username), ("stats"@, bool_text(true)), ("brief"@, bool_text(brief))] =~= seq![("username"@, username)].push(("stats"@, bool_text(true))).push(("brief"@, bool_text(brief))));
        assert(values_of(seq![("username"@, username), ("stats"@, bool_text(true)), ("brief"@, bool_text(brief))], "want"@) == Seq::<Seq<char>>::empty());
        assert(values_of((if p.item_ids.len() > 0 { seq![("id"@, ids_text(p.item_ids))] } else { Seq::<(Seq<char>, Seq<char>)>::empty() }), "want"@) == Seq::<Seq<char>>::empty());
        assert(values_of(collection_status_spec(p), "want"@) == values_of(collection_status_spec(p), "want"@));
        assert(values_of(collection_filter_spec(p), "want"@) == Seq::<Seq<char>>::empty());
    }
    assert(values_of(collection_query_spec(username, brief, p), "wanttoplay"@) == values_of(collection_status_spec(p), "wanttoplay"@)) by {
        assert(values_of(seq![("username"@, username)], "wanttoplay"@) == Seq::<Seq<char>>::empty());
        assert(values_of(seq![("username"@, username)].push(("stats"@, bool_text(true))), "wanttoplay"@) == Seq::<Seq<char>>::empty());
        assert(values_of(seq![("username"@, username)].push(("stats"@, bool_text(true))).push(("brief"@, bool_text(brief))), "wanttoplay"@) == Seq::<Seq<char>>::empty());
        assert(seq![("username"@, username), ("stats"@, bool_text(true)), ("brief"@, bool_text(brief))] =~= seq![("username"@, username)].push(("stats"@, bool_text(true))).push(("brief"@, bool_text(brief))));
        assert(values_of(seq![("username"@, username), ("stats"@, bool_text(true)), ("brief"@, bool_text(brief))], "wanttoplay"@) == Seq::<Seq<char>>::empty());
        assert(values_of((if p.item_ids.len() > 0 { seq![("id"@, ids_text(p.item_ids))] } else { Seq::<(Seq<char>, Seq<char>)>::empty() }), "wanttoplay"@) == Seq::<Seq<char>>::empty());
        assert(values_of(collection_status_spec(p), "wanttoplay"@) == values_of(collection_status_spec(p), "wanttoplay"@));
        assert(values_of(collection_filter_spec(p), "wanttoplay"@) == Seq::<Seq<char>>::empty());
    }
    assert(values_of(collection_query_spec(username, brief, p), "wanttobuy"@) == values_of(collection_status_spec(p), "wanttobuy"@)) by {
        assert(values_of(seq![("username"@, username)], "wanttobuy"@) == Seq::<Seq<char>>::empty());
        assert(values_of(seq![("username"@, username)].push(("stats"@, bool_text(true))), "wanttobuy"@) == Seq::<Seq<char>>::empty());
        assert(values_of(seq![("username"@, username)].push(("stats"@, bool_text(true))).push(("brief"@, bool_text(brief))), "wanttobuy"@) == Seq::<Seq<char>>::empty());
        assert(seq![("username"@, username), ("stats"@, bool_text(true)), ("brief"@, bool_text(brief))] =~= seq![("username"@, username)].push(("stats"@, bool_text(true))).push(("brief"@, bool_text(brief))));
        assert(values_of(seq![("username"@, username), ("stats"@, bool_text(true)), ("brief"@, bool_text(brief))], "wanttobuy"@) == Seq::<Seq<char>>::empty());
        assert(values_of((if p.item_ids.len() > 0 { seq![("id"@, ids_text(p.item_ids))] } else { Seq::<(Seq<char>, Seq<char>)>::empty() }), "wanttobuy"@) == Seq::<Seq<char>>::empty());
        assert(values_of(collection_status_spec(p), "wanttobuy"@) == values_of(collection_status_spec(p), "wanttobuy"@));
        assert(values_of(collection_filter_spec(p), "wanttobuy"@) == Seq::<Seq<char>>::empty());
    }
    assert(values_of(collection_query_spec(username, brief, p), "preordered"@) == values_of(collection_status_spec(p), "preordered"@)) by {
        assert(values_of(seq![("username"@, username)], "preordered"@) == Seq::<Seq<char>>::empty());
        assert(values_of(seq![("username"@, username)].push(("stats"@, bool_text(true))), "preordered"@) == Seq::<Seq<char>>::empty());
        assert(values_of(seq![("username"@, username)].push(("stats"@, bool_text(true))).push(("brief"@, bool_text(brief))), "preordered"@) == Seq::<Seq<char>>::empty());
        assert(seq![("username"@, username), ("stats"@, bool_text(true)), ("brief"@, bool_text(brief))] =~= seq![("username"@, username)].push(("stats"@, bool_text(true))).push(("brief"@, bool_text(brief))));
        assert(values_of(seq![("username"@, username), ("stats"@, bool_text(true)), ("brief"@, bool_text(brief))], "preordered"@) == Seq::<Seq<char>>::empty());
        assert(values_of((if p.item_ids.len() > 0 { seq![("id"@, ids_text(p.item_ids))] } else { Seq::<(Seq<char>, Seq<char>)>::empty() }), "preordered"@) == Seq::<Seq<char>>::empty());
        assert(values_of(collection_status_spec(p), "preordered"@) == values_of(collection_status_spec(p), "preordered"@));
        assert(values_of(collection_filter_spec(p), "preordered"@) == Seq::<Seq<char>>::empty());
    }
    assert(values_of(collection_query_spec(username, brief, p), "wishlist"@) == values_of(collection_status_spec(p), "wishlist"@)) by {
        assert(values_of(seq![("username"@, username)], "wishlist"@) == Seq::<Seq<char>>::empty());
        assert(values_of(seq![("username"@, username)].push(("stats"@, bool_text(true))), "wishlist"@) == Seq::<Seq<char>>::empty());
        assert(values_of(seq![("username"@, username)].push(("stats"@, bool_text(true))).push(("brief"@, bool_text(brief))), "wishlist"@) == Seq::<Seq<char>>::empty());
        assert(seq![("username"@, username), ("stats"@, bool_text(true)), ("brief"@, bool_text(brief))] =~= seq![("username"@, username)].push(("stats"@, bool_text(true))).push(("brief"@, bool_text(brief))));
        assert(values_of(seq![("username"@, username), ("stats"@, bool_text(true)), ("brief"@, bool_text(brief))], "wishlist"@) == Seq::<Seq<char>>::empty());
        assert(values_of((if p.item_ids.len() > 0 { seq![("id"@, ids_text(p.item_ids))] } else { Seq::<(Seq<char>, Seq<char>)>::empty() }), "wishlist"@) == Seq::<Seq<char>>::empty());
        assert(values_of(collection_status_spec(p), "wishlist"@) == values_of(collection_status_spec(p), "wishlist"@));
        assert(values_of(collection_filter_spec(p), "wishlist"@) == Seq::<Seq<char>>::empty());
    }
    assert(values_of(collection_query_spec(username, brief, p), "wishlistpriority"@) == values_of(collection_status_spec(p), "wishlistpriority"@)) by {
        assert(values_of(seq![("username"@, username)], "wishlistpriority"@) == Seq::<Seq<char>>::empty());
        assert(values_of(seq![("username"@, username)].push(("stats"@, bool_text(true))), "wishlistpriority"@) == Seq::<Seq<char>>::empty());
        assert(values_of(seq![("username"@, username)].push(("stats"@, bool_text(true))).push(("brief"@, bool_text(brief))), "wishlistpriority"@) == Seq::<Seq<char>>::empty());
        assert(seq![("username"@, username), ("stats"@, bool_text(true)), ("brief"@, bool_text(brief))] =~= seq![("username"@, username)].push(("stats"@, bool_text(true))).push(("brief"@, bool_text(brief))));
        assert(values_of(seq![("username"@, username), ("stats"@, bool_text(true)), ("brief"@, bool_text(brief))], "wishlistpriority"@) == Seq::<Seq<char>>::empty());
        assert(values_of((if p.item_ids.len() > 0 { seq![("id"@, ids_text(p.item_ids))] } else { Seq::<(Seq<char>, Seq<char>)>::empty() }), "wishlistpriority"@) == Seq::<Seq<char>>::empty());
        assert(values_of(collection_status_spec(p), "wishlistpriority"@) == values_of(collection_status_spec(p), "wishlistpriority"@));
        assert(values_of(collection_filter_spec(p), "wishlistpriority"@) == Seq::<Seq<char>>::empty());
    }
    assert(values_of(collection_query_spec(username, brief, p), "modifiedsince"@) == values_of(collection_filter_spec(p), "modifiedsince"@)) by {
        assert(values_of(seq![("username"@, username)], "modifiedsince"@) == Seq::<Seq<char>>::empty());
        assert(values_of(seq![("username"@, username)].push(("stats"@, bool_text(true))), "modifiedsince"@) == Seq::<Seq<char>>::empty());
        assert(values_of(seq![("username"@, username)].push(("stats"@, bool_text(true))).push(("brief"@, bool_text(brief))), "modifiedsince"@) == Seq::<Seq<char>>::empty());
        assert(seq![("username"@, username), ("stats"@, bool_text(true)), ("brief"@, bool_text(brief))] =~= seq![("username"@, username)].push(("stats"@, bool_text(true))).push(("brief"@, bool_text(brief))));
        assert(values_of(seq![("username"@, username), ("stats"@, bool_text(true)), ("brief"@, bool_text(brief))], "modifiedsince"@) == Seq::<Seq<char>>::empty());
        assert(values_of((if p.item_ids.len() > 0 { seq![("id"@, ids_text(p.item_ids))] } else { Seq::<(Seq<char>, Seq<char>)>::empty() }), "modifiedsince"@) == Seq::<Seq<char>>::empty());
        assert(values_of(collection_status_spec(p), "modifiedsince"@) == Seq::<Seq<char>>::empty());
        assert(values_of(collection_filter_spec(p), "modifiedsince"@) == values_of(collection_filter_spec(p), "modifiedsince"@));
    }
    assert(values_of(collection_query_spec(username, brief, p), "rated"@) == values_of(collection_filter_spec(p), "rated"@)) by {
        assert(values_of(seq![("username"@, username)], "rated"@) == Seq::<Seq<char>>::empty());
        assert(values_of(seq![("username"@, username)].push(("stats"@, bool_text(true))), "rated"@) == Seq::<Seq<char>>::empty());
        assert(values_of(seq![("username"@, username)].push(("stats"@, bool_text(true))).push(("brief"@, bool_text(brief))), "rated"@) == Seq::<Seq<char>>::empty());
        assert(seq![("username"@, username), ("stats"@, bool_text(true)), ("brief"@, bool_text(brief))] =~= seq![("username"@, username)].push(("stats"@, bool_text(true))).push(("brief"@, bool_text(brief))));
        assert(values_of(seq![("username"@, username), ("stats"@, bool_text(true)), ("brief"@, bool_text(brief))], "rated"@) == Seq::<Seq<char>>::empty());
        assert(values_of((if p.item_ids.len() > 0 { seq![("id"@, ids_text(p.item_ids))] } else { Seq::<(Seq<char>, Seq<char>)>::empty() }), "rated"@) == Seq::<Seq<char>>::empty());
        assert(values_of(collection_status_spec(p), "rated"@) == Seq::<Seq<char>>::empty());
        assert(values_of(collection_filter_spec(p), "rated"@) == values_of(collection_filter_spec(p), "rated"@));
    }
    assert(values_of(collection_query_spec(username, brief, p), "played"@) == values_of(collection_filter_spec(p), "played"@)) by {
        assert(values_of(seq![("username"@, username)], "played"@) == Seq::<Seq<char>>::empty());
        assert(values_of(seq![("username"@, username)].push(("stats"@, bool_text(true))), "played"@) == Seq::<Seq<char>>::empty());
        assert(values_of(seq![("username"@, username)].push(("stats"@, bool_text(true))).push(("brief"@, bool_text(brief))), "played"@) == Seq::<Seq<char>>::empty());
        assert(seq![("username"@, username), ("stats"@, bool_text(true)), ("brief"@, bool_text(brief))] =~= seq![("username"@, username)].push(("stats"@, bool_text(true))).push(("brief"@, bool_text(brief))));
        assert(values_of(seq![("username"@, username), ("stats"@, bool_text(true)), ("brief"@, bool_text(brief))], "played"@) == Seq::<Seq<char>>::empty());
        assert(values_of((if p.item_ids.len() > 0 { seq![("id"@, ids_text(p.item_ids))] } else { Seq::<(Seq<char>, Seq<char>)>::empty() }), "played"@) == Seq::<Seq<char>>::empty());
        assert(values_of(collection_status_spec(p), "played"@) == Seq::<Seq<char>>::empty());
        assert(values_of(collection_filter_spec(p), "played"@) == values_of(collection_filter_spec(p), "played"@));
    }
    assert(values_of(collection_query_spec(username, brief, p), "comment"@) == values_of(collection_filter_spec(p), "comment"@)) by {
        assert(values_of(seq![("username"@, username)], "comment"@) == Seq::<Seq<char>>::empty());
        assert(values_of(seq![("username"@, username)].push(("stats"@, bool_text(true))), "comment"@) == Seq::<Seq<char>>::empty());
        assert(values_of(seq![("username"@, username)].push(("stats"@, bool_text(true))).push(("brief"@, bool_text(brief))), "comment"@) == Seq::<Seq<char>>::empty());
        assert(seq![("username"@, username), ("stats"@, bool_text(true)), ("brief"@, bool_text(brief))] =~= seq![("username"@, username)].push(("stats"@, bool_text(true))).push(("brief"@, bool_text(brief))));
        assert(values_of(seq![("username"@, username), ("stats"@, bool_text(true)), ("brief"@, bool_text(brief))], "comment"@) == Seq::<Seq<char>>::empty());
        assert(values_of((if p.item_ids.len() > 0 { seq![("id"@, ids_text(p.item_ids))] } else { Seq::<(Seq<char>, Seq<char>)>::empty() }), "comment"@) == Seq::<Seq<char>>::empty());
        assert(values_of(collection_status_spec(p), "comment"@) == Seq::<Seq<char>>::empty());
        assert(values_of(collection_filter_spec(p), "comment"@) == values_of(collection_filter_spec(p), "comment"@));
    }
    assert(values_of(collection_query_spec(username, brief, p), "hasparts"@) == values_of(collection_filter_spec(p), "hasparts"@)) by {
        assert(values_of(seq![("username"@, username)], "hasparts"@) == Seq::<Seq<char>>::empty());
        assert(values_of(seq![("username"@, username)].push(("stats"@, bool_text(true))), "hasparts"@) == Seq::<Seq<char>>::empty());
        assert(values_of(seq![("username"@, username)].push(("stats"@, bool_text(true))).push(("brief"@, bool_text(brief))), "hasparts"@) == Seq::<Seq<char>>::empty());
        assert(seq![("username"@, username), ("stats"@, bool_text(true)), ("brief"@, bool_text(brief))] =~= seq![("username"@, username)].push(("stats"@, bool_text(true))).push(("brief"@, bool_text(brief))));
        assert(values_of(seq![("username"@, username), ("stats"@, bool_text(true)), ("brief"@, bool_text(brief))], "hasparts"@) == Seq::<Seq<char>>::empty());
        assert(values_of((if p.item_ids.len() > 0 { seq![("id"@, ids_text(p.item_ids))] } else { Seq::<(Seq<char>, Seq<char>)>::empty() }), "hasparts"@) == Seq::<Seq<char>>::empty());
        assert(values_of(collection_status_spec(p), "hasparts"@) == Seq::<Seq<char>>::empty());
        assert(values_of(collection_filter_spec(p), "hasparts"@) == values_of(collection_filter_spec(p), "hasparts"@));
    }
    assert(values_of(collection_query_spec(username, brief, p), "wantparts"@) == values_of(collection_filter_spec(p), "wantparts"@)) by {
        assert(values_of(seq![("username"@, username)], "wantparts"@) == Seq::<Seq<char>>::empty());
        assert(values_of(seq![("username"@, username)].push(("stats"@, bool_text(true))), "wantparts"@) == Seq::<Seq<char>>::empty());
        assert(values_of(seq![("username"@, username)].push(("stats"@, bool_text(true))).push(("brief"@, bool_text(brief))), "wantparts"@) == Seq::<Seq<char>>::empty());
        assert(seq![("username"@, username), ("stats"@, bool_text(true)), ("brief"@, bool_text(brief))] =~= seq![("username"@, username)].push(("stats"@, bool_text(true))).push(("brief"@, bool_text(brief))));
        assert(values_of(seq![("username"@, username), ("stats"@, bool_text(true)), ("brief"@, bool_text(brief))], "wantparts"@) == Seq::<Seq<char>>::empty());
        assert(values_of((if p.item_ids.len() > 0 { seq![("id"@, ids_text(p.item_ids))] } else { Seq::<(Seq<char>, Seq<char>)>::empty() }), "wantparts"@) == Seq::<Seq<char>>::empty());
        assert(values_of(collection_status_spec(p), "wantparts"@) == Seq::<Seq<char>>::empty());
        assert(values_of(collection_filter_spec(p), "wantparts"@) == values_of(collection_filter_spec(p), "wantparts"@));
    }
    assert(values_of(collection_query_spec(username, brief, p), "minrating"@) == values_of(collection_filter_spec(p), "minrating"@)) by {
        assert(values_of(seq![("username"@, username)], "minrating"@) == Seq::<Seq<char>>::empty());
        assert(values_of(seq![("username"@, username)].push(("stats"@, bool_text(true))), "minrating"@) == Seq::<Seq<char>>::empty());
        assert(values_of(seq![("username"@, username)].push(("stats"@, bool_text(true))).push(("brief"@, bool_text(brief))), "minrating"@) == Seq::<Seq<char>>::empty());
        assert(seq![("username"@, username), ("stats"@, bool_text(true)), ("brief"@, bool_text(brief))] =~= seq![("username"@, username)].push(("stats"@, bool_text(true))).push(("brief"@, bool_text(brief))));
        assert(values_of(seq![("username"@, username), ("stats"@, bool_text(true)), ("brief"@, bool_text(brief))], "minrating"@) == Seq::<Seq<char>>::empty());
        assert(values_of((if p.item_ids.len() > 0 { seq![("id"@, ids_text(p.item_ids))] } else { Seq::<(Seq<char>, Seq<char>)>::empty() }), "minrating"@) == Seq::<Seq<char>>::empty());
        assert(values_of(collection_status_spec(p), "minrating"@) == Seq::<Seq<char>>::empty());
        assert(values_of(collection_filter_spec(p), "minrating"@) == values_of(collection_filter_spec(p), "minrating"@));
    }
    assert(values_of(collection_query_spec(username, brief, p), "rating"@) == values_of(collection_filter_spec(p), "rating"@)) by {
        assert(values_of(seq![("username"@, username)], "rating"@) == Seq::<Seq<char>>::empty());
        assert(values_of(seq![("username"@, username)].push(("stats"@, bool_text(true))), "rating"@) == Seq::<Seq<char>>::empty());
        assert(values_of(seq![("username"@, username)].push(("stats"@, bool_text(true))).push(("brief"@, bool_text(brief))), "rating"@) == Seq::<Seq<char>>::empty());
        assert(seq![("username"@, username), ("stats"@, bool_text(true)), ("brief"@, bool_text(brief))] =~= seq![("username"@, username)].push(("stats"@, bool_text(true))).push(("brief"@, bool_text(brief))));
        assert(values_of(seq![("username"@, username), ("stats"@, bool_text(true)), ("brief"@, bool_text(brief))], "rating"@) == Seq::<Seq<char>>::empty());
        assert(values_of((if p.item_ids.len() > 0 { seq![("id"@, ids_text(p.item_ids))] } else { Seq::<(Seq<char>, Seq<char>)>::empty() }), "rating"@) == Seq::<Seq<char>>::empty());
        assert(values_of(collection_status_spec(p), "rating"@) == Seq::<Seq<char>>::empty());
        assert(values_of(collection_filter_spec(p), "rating"@) == values_of(collection_filter_spec(p), "rating"@));
    }
    assert(values_of(collection_query_spec(username, brief, p), "minbggrating"@) == values_of(collection_filter_spec(p), "minbggrating"@)) by {
        assert(values_of(seq![("username"@, username)], "minbggrating"@) == Seq::<Seq<char>>::empty());
        assert(values_of(seq![("username"@, username)].push(("stats"@, bool_text(true))), "minbggrating"@) == Seq::<Seq<char>>::empty());
        assert(values_of(seq![("username"@, username)].push(("stats"@, bool_text(true))).push(("brief"@, bool_text(brief))), "minbggrating"@) == Seq::<Seq<char>>::empty());
        assert(seq![("username"@, username), ("stats"@, bool_text(true)), ("brief"@, bool_text(brief))] =~= seq![("username"@, username)].push(("stats"@, bool_text(true))).push(("brief"@, bool_text(brief))));
        assert(values_of(seq![("username"@, username), ("stats"@, bool_text(true)), ("brief"@, bool_text(brief))], "minbggrating"@) == Seq::<Seq<char>>::empty());
        assert(values_of((if p.item_ids.len() > 0 { seq![("id"@, ids_text(p.item_ids))] } else { Seq::<(Seq<char>, Seq<char>)>::empty() }), "minbggrating"@) == Seq::<Seq<char>>::empty());
        assert(values_of(collection_status_spec(p), "minbggrating"@) == Seq::<Seq<char>>::empty());
        assert(values_of(collection_filter_spec(p), "minbggrating"@) == values_of(collection_filter_spec(p), "minbggrating"@));
    }
    assert(values_of(collection_query_spec(username, brief, p), "bggrating"@) == values_of(collection_filter_spec(p), "bggrating"@)) by {
        assert(values_of(seq![("username"@, username)], "bggrating"@) == Seq::<Seq<char>>::empty());
        assert(values_of(seq![("username"@, username)].push(("stats"@, bool_text(true))), "bggrating"@) == Seq::<Seq<char>>::empty());
        assert(values_of(seq![("username"@, username)].push(("stats"@, bool_text(true))).push(("brief"@, bool_text(brief))), "bggrating"@) == Seq::<Seq<char>>::empty());
        assert(seq![("username"@, username), ("stats"@, bool_text(true)), ("brief"@, bool_text(brief))] =~= seq![("username"@, username)].push(("stats"@, bool_text(true))).push(("brief"@, bool_text(brief))));
        assert(values_of(seq![("username"@, username), ("stats"@, bool_text(true)), ("brief"@, bool_text(brief))], "bggrating"@) == Seq::<Seq<char>>::empty());
        assert(values_of((if p.item_ids.len() > 0 { seq![("id"@, ids_text(p.item_ids))] } else { Seq::<(Seq<char>, Seq<char>)>::empty() }), "bggrating"@) == Seq::<Seq<char>>::empty());
        assert(values_of(collection_status_spec(p), "bggrating"@) == Seq::<Seq<char>>::empty());
        assert(values_of(collection_filter_spec(p), "bggrating"@) == values_of(collection_filter_spec(p), "bggrating"@));
    }
    assert(values_of(collection_query_spec(username, brief, p), "minplays"@) == values_of(collection_filter_spec(p), "minplays"@)) by {
        assert(values_of(seq![("username"@, username)], "minplays"@) == Seq::<Seq<char>>::empty());
        assert(values_of(seq![("username"@, username)].push(("stats"@, bool_text(true))), "minplays"@) == Seq::<Seq<char>>::empty());
        assert(values_of(seq![("username"@, username)].push(("stats"@, bool_text(true))).push(("brief"@, bool_text(brief))), "minplays"@) == Seq::<Seq<char>>::empty());
        assert(seq![("username"@, username), ("stats"@, bool_text(true)), ("brief"@, bool_text(brief))] =~= seq![("username"@, username)].push(("stats"@, bool_text(true))).push(("brief"@, bool_text(brief))));
        assert(values_of(seq![("username"@, username), ("stats"@, bool_text(true)), ("brief"@, bool_text(brief))], "minplays"@) == Seq::<Seq<char>>::empty());
        assert(values_of((if p.item_ids.len() > 0 { seq![("id"@, ids_text(p.item_ids))] } else { Seq::<(Seq<char>, Seq<char>)>::empty() }), "minplays"@) == Seq::<Seq<char>>::empty());
        assert(values_of(collection_status_spec(p), "minplays"@) == Seq::<Seq<char>>::empty());
        assert(values_of(collection_filter_spec(p), "minplays"@) == values_of(collection_filter_spec(p), "minplays"@));
    }
    assert(values_of(collection_query_spec(username, brief, p), "maxplays"@) == values_of(collection_filter_spec(p), "maxplays"@)) by {
        assert(values_of(seq![("username"@, username)], "maxplays"@) == Seq::<Seq<char>>::empty());
        assert(values_of(seq![("username"@, username)].push(("stats"@, bool_text(true))), "maxplays"@) == Seq::<Seq<char>>::empty());
        assert(values_of(seq![("username"@, username)].push(("stats"@, bool_text(true))).push(("brief"@, bool_text(brief))), "maxplays"@) == Seq::<Seq<char>>::empty());
        assert(seq![("username"@, username), ("stats"@, bool_text(true)), ("brief"@, bool_text(brief))] =~= seq![("username"@, username)].push(("stats"@, bool_text(true))).push(("brief"@, bool_text(brief))));
        assert(values_of(seq![("username"@, username), ("stats"@, bool_text(true)), ("brief"@, bool_text(brief))], "maxplays"@) == Seq::<Seq<char>>::empty());
        assert(values_of((if p.item_ids.len() > 0 { seq![("id"@, ids_text(p.item_ids))] } else { Seq::<(Seq<char>, Seq<char>)>::empty() }), "maxplays"@) == Seq::<Seq<char>>::empty());
        assert(values_of(collection_status_spec(p), "maxplays"@) == Seq::<Seq<char>>::empty());
        assert(values_of(collection_filter_spec(p), "maxplays"@) == values_of(collection_filter_spec(p), "maxplays"@));
    }
    assert(values_of(collection_query_spec(username, brief, p), "showprivate"@) == values_of(collection_filter_spec(p), "showprivate"@)) by {
        assert(values_of(seq![("username"@, username)], "showprivate"@) == Seq::<Seq<char>>::empty());
        assert(values_of(seq![("username"@, username)].push(("stats"@, bool_text(true))), "showprivate"@) == Seq::<Seq<char>>::empty());
        assert(values_of(seq![("username"@, username)].push(("stats"@, bool_text(true))).push(("brief"@, bool_text(brief))), "showprivate"@) == Seq::<Seq<char>>::empty());
        assert(seq![("username"@, username), ("stats"@, bool_text(true)), ("brief"@, bool_text(brief))] =~= seq![("username"@, username)].push(("stats"@, bool_text(true))).push(("brief"@, bool_text(brief))));
        assert(values_of(seq![("username"@, username), ("stats"@, bool_text(true)), ("brief"@, bool_text(brief))], "showprivate"@) == Seq::<Seq<char>>::empty());
        assert(values_of((if p.item_ids.len() > 0 { seq![("id"@, ids_text(p.item_ids))] } else { Seq::<(Seq<char>, Seq<char>)>::empty() }), "showprivate"@) == Seq::<Seq<char>>::empty());
        assert(values_of(collection_status_spec(p), "showprivate"@) == Seq::<Seq<char>>::empty());
        assert(values_of(collection_filter_spec(p), "showprivate"@) == values_of(collection_filter_spec(p), "showprivate"@));
    }
    assert(values_of(collection_query_spec(username, brief, p), "collid"@) == values_of(collection_filter_spec(p), "collid"@)) by {
        assert(values_of(seq![("username"@, username)], "collid"@) == Seq::<Seq<char>>::empty());
        assert(values_of(seq![("username"@, username)].push(("stats"@, bool_text(true))), "collid"@) == Seq::<Seq<char>>::empty());
        assert(values_of(seq![("username"@, username)].push(("stats"@, bool_text(true))).push(("brief"@, bool_text(brief))), "collid"@) == Seq::<Seq<char>>::empty());
        assert(seq![("username"@, username), ("stats"@, bool_text(true)), ("brief"@, bool_text(brief))] =~= seq![("username"@, username)].push(("stats"@, bool_text(true))).push(("brief"@, bool_text(brief))));
        assert(values_of(seq![("username"@, username), ("stats"@, bool_text(true)), ("brief"@, bool_text(brief))], "collid"@) == Seq::<Seq<char>>::empty());
        assert(values_of((if p.item_ids.len() > 0 { seq![("id"@, ids_text(p.item_ids))] } else { Seq::<(Seq<char>, Seq<char>)>::empty() }), "collid"@) == Seq::<Seq<char>>::empty());
        assert(values_of(collection_status_spec(p), "collid"@) == Seq::<Seq<char>>::empty());
        assert(values_of(collection_filter_spec(p), "collid"@) == values_of(collection_filter_spec(p), "collid"@));
    }
}

} // verus!
