//! The plays endpoint's query: recorded plays of a user, or of an item or family.
use vstd::prelude::*;

use crate::date::{date_text, NaiveDate};
use crate::models::{item_sub_type_text_spec, ItemSubType};
use crate::query::{
    lemma_values_of_concat, lemma_values_of_one, lemma_values_of_opt_entry, opt_entry, opt_u64,
    params_view, push_opt_u64, push_text, push_u64, values_of, QueryParam,
};
use crate::text::{decimal, owned};

verus! {

/// All optional query parameters for making a request to the plays endpoint.
#[derive(Clone, Copy, Debug)]
pub struct PlaysQueryParams {
    min_date: Option<NaiveDate>,
    max_date: Option<NaiveDate>,
    sub_type: Option<ItemSubType>,
    page: Option<u64>,
}

/// The settings of a [`PlaysQueryParams`], as plain values.
#[derive(Clone, Copy, Debug, PartialEq, Eq, Structural)]
pub struct PlaysQueryParamsView {
    /// Only plays on or after this date.
    pub min_date: Option<NaiveDate>,
    /// Only plays up to this date.
    pub max_date: Option<NaiveDate>,
    /// Only plays of items of this type.
    pub sub_type: Option<ItemSubType>,
    /// The page of plays to return.
    pub page: Option<u64>,
}

impl View for PlaysQueryParams {
    type V = PlaysQueryParamsView;

    closed spec fn view(&self) -> PlaysQueryParamsView {
        PlaysQueryParamsView {
            min_date: self.min_date,
            max_date: self.max_date,
            sub_type: self.sub_type,
            page: self.page,
        }
    }
}

impl PlaysQueryParams {
    /// Constructs a query with no parameters set.
    pub fn new() -> (r: Self)
        ensures
            r@ == (PlaysQueryParamsView {
                min_date: None,
                max_date: None,
                sub_type: None,
                page: None,
            }),
    {
        PlaysQueryParams {
            min_date: None,
            max_date: None,
            sub_type: None,
            page: None,
        }
    }

    /// Sets the `min_date` parameter: only plays from this date on are returned.
    pub fn min_date(self, min_date: NaiveDate) -> (r: Self)
        ensures
            r@ == (PlaysQueryParamsView { min_date: Some(min_date), ..self@ }),
    {
        PlaysQueryParams { min_date: Some(min_date), ..self }
    }

    /// Sets the `max_date` parameter: only plays up to this date are returned.
    pub fn max_date(self, max_date: NaiveDate) -> (r: Self)
        ensures
            r@ == (PlaysQueryParamsView { max_date: Some(max_date), ..self@ }),
    {
        PlaysQueryParams { max_date: Some(max_date), ..self }
    }

    /// Sets the `sub_type` parameter: only plays of items of this type are returned.
    pub fn sub_type(self, sub_type: ItemSubType) -> (r: Self)
        ensures
            r@ == (PlaysQueryParamsView { sub_type: Some(sub_type), ..self@ }),
    {
        PlaysQueryParams { sub_type: Some(sub_type), ..self }
    }

    /// Sets the `page` parameter: which page of plays to return, the first when unset.
    pub fn page(self, page: u64) -> (r: Self)
        ensures
            r@ == (PlaysQueryParamsView { page: Some(page), ..self@ }),
    {
        PlaysQueryParams { page: Some(page), ..self }
    }
}

/// Whether plays are requested for a single item or for a family of items.
#[derive(Clone, Copy, Debug, PartialEq, Eq, Structural)]
pub enum PlaysItemType {
    /// A single item, such as a game.
    Thing,
    /// A family of items.
    Family,
}

/// The text the API uses for a kind of item whose plays are requested.
pub open spec fn plays_item_type_text(t: PlaysItemType) -> Seq<char> {
    match t {
        PlaysItemType::Thing => "thing"@,
        PlaysItemType::Family => "family"@,
    }
}

/// Whose plays are requested: a user's, or those of an item or family by ID.
#[derive(Clone, Copy, Debug)]
pub enum PlaysQuery<'q> {
    /// The plays recorded by the user with this name.
    QueryByUser(&'q str),
    /// The plays of the item or family with this ID.
    QueryById {
        /// The ID of the item or family.
        id: u64,
        /// Whether the ID is of an item or a family.
        plays_item_type: PlaysItemType,
    },
}

/// The date text of an optional date parameter.
pub open spec fn opt_date(key: Seq<char>, d: Option<NaiveDate>) -> Seq<(Seq<char>, Seq<char>)> {
    opt_entry(key, d, |d: NaiveDate| date_text(d.year_of(), d.month_of(), d.day_of()))
}

/// The query for plays: whose plays, then the dates, the type and the page when set.
pub open spec fn plays_query_spec(query: PlaysQuery, p: PlaysQueryParamsView) -> Seq<
    (Seq<char>, Seq<char>),
> {
    let target = match query {
        PlaysQuery::QueryByUser(name) => seq![("username"@, name@)],
        PlaysQuery::QueryById { id, plays_item_type } => seq![
            ("id"@, decimal(id as nat)),
            ("type"@, plays_item_type_text(plays_item_type)),
        ],
    };
    target + opt_date("mindate"@, p.min_date) + opt_date("maxdate"@, p.max_date) + opt_entry(
        "subtype"@,
        p.sub_type,
        |t: ItemSubType| item_sub_type_text_spec(t),
    ) + opt_u64("page"@, p.page)
}

/// The values that the query for plays gives under a key that none of the other parameters
/// use: those of the two date parameters.
proof fn lemma_plays_date_key(query: PlaysQuery, p: PlaysQueryParamsView, key: Seq<char>)
    requires
        key != "username"@,
        key != "id"@,
        key != "type"@,
        key != "subtype"@,
        key != "page"@,
    ensures
        values_of(plays_query_spec(query, p), key) == values_of(opt_date("mindate"@, p.min_date), key)
            + values_of(opt_entry("maxdate"@, p.max_date, |d: NaiveDate| date_text(d.year_of(), d.month_of(), d.day_of())), key),
{
    let target = match query {
        PlaysQuery::QueryByUser(name) => seq![("username"@, name@)],
        PlaysQuery::QueryById { id, plays_item_type } => seq![
            ("id"@, decimal(id as nat)),
            ("type"@, plays_item_type_text(plays_item_type)),
        ],
    };
    let mins = opt_date("mindate"@, p.min_date);
    let maxs = opt_entry("maxdate"@, p.max_date, |d: NaiveDate| date_text(d.year_of(), d.month_of(), d.day_of()));
    let subs = opt_entry("subtype"@, p.sub_type, |t: ItemSubType| item_sub_type_text_spec(t));
    let pages = opt_u64("page"@, p.page);
    assert(values_of(target, key) == Seq::<Seq<char>>::empty()) by {
        match query {
            PlaysQuery::QueryByUser(name) => {
                lemma_values_of_one("username"@, name@, key);
            },
            PlaysQuery::QueryById { id, plays_item_type } => {
                let a = seq![("id"@, decimal(id as nat))];
                let b = seq![("type"@, plays_item_type_text(plays_item_type))];
                assert(target =~= a + b);
                lemma_values_of_concat(a, b, key);
                lemma_values_of_one("id"@, decimal(id as nat), key);
                lemma_values_of_one("type"@, plays_item_type_text(plays_item_type), key);
            },
        }
    }
    lemma_values_of_opt_entry("subtype"@, p.sub_type, |t: ItemSubType| item_sub_type_text_spec(t), key);
    lemma_values_of_opt_entry("page"@, p.page, |n: u64| decimal(n as nat), key);
    lemma_values_of_concat(target, mins, key);
    lemma_values_of_concat(target + mins, maxs, key);
    lemma_values_of_concat(target + mins + maxs, subs, key);
    lemma_values_of_concat(target + mins + maxs + subs, pages, key);
    assert(values_of(subs, key) == Seq::<Seq<char>>::empty());
    assert(values_of(pages, key) == Seq::<Seq<char>>::empty());
    let e = Seq::<Seq<char>>::empty();
    assert(e + values_of(mins, key) + values_of(maxs, key) + e + e =~= values_of(mins, key) + values_of(maxs, key));
}

/// Law: a query for plays gives the latest date, as `%Y-%m-%d`, under the key `maxdate` exactly
/// when a latest date is set, and the earliest date under `mindate` exactly when an earliest
/// date is set; neither key carries anything else.
pub proof fn law_plays_dates_under_their_keys(query: PlaysQuery, p: PlaysQueryParamsView)
    ensures
        values_of(plays_query_spec(query, p), "maxdate"@) == match p.max_date {
            Some(d) => seq![date_text(d.year_of(), d.month_of(), d.day_of())],
            None => Seq::<Seq<char>>::empty(),
        },
        values_of(plays_query_spec(query, p), "mindate"@) == match p.min_date {
            Some(d) => seq![date_text(d.year_of(), d.month_of(), d.day_of())],
            None => Seq::<Seq<char>>::empty(),
        },
{
    reveal_strlit("maxdate");
    reveal_strlit("mindate");
    reveal_strlit("username");
    reveal_strlit("id");
    reveal_strlit("type");
    reveal_strlit("subtype");
    reveal_strlit("page");
    assert("maxdate"@[1] != "mindate"@[1]);
    assert("maxdate"@[0] != "subtype"@[0]);
    assert("mindate"@[0] != "subtype"@[0]);
    let text = |d: NaiveDate| date_text(d.year_of(), d.month_of(), d.day_of());
    lemma_plays_date_key(query, p, "maxdate"@);
    lemma_plays_date_key(query, p, "mindate"@);
    lemma_values_of_opt_entry("mindate"@, p.min_date, text, "maxdate"@);
    lemma_values_of_opt_entry("maxdate"@, p.max_date, text, "maxdate"@);
    lemma_values_of_opt_entry("mindate"@, p.min_date, text, "mindate"@);
    lemma_values_of_opt_entry("maxdate"@, p.max_date, text, "mindate"@);
    let e = Seq::<Seq<char>>::empty();
    assert(forall|x: Seq<Seq<char>>| e + x =~= x && x + e =~= x);
}

/// Builds the query for a request to the plays endpoint.
pub struct PlaysQueryBuilder<'q> {
    query: PlaysQuery<'q>,
    params: PlaysQueryParams,
}

impl<'q> PlaysQueryBuilder<'q> {
    /// Whose plays are requested.
    pub closed spec fn target(&self) -> PlaysQuery<'q> {
        self.query
    }

    /// The settings of the query.
    pub closed spec fn settings(&self) -> PlaysQueryParamsView {
        self.params@
    }

    /// A builder for these plays with these settings.
    pub fn new(query: PlaysQuery<'q>, params: PlaysQueryParams) -> (b: Self)
        ensures
            b.target() == query,
            b.settings() == params@,
    {
        PlaysQueryBuilder { query, params }
    }

    /// The key and value pairs of the query.
    pub fn build(self) -> (q: Vec<QueryParam>)
        ensures
            params_view(q@) == plays_query_spec(self.target(), self.settings()),
    {
        let mut q: Vec<QueryParam> = Vec::new();
        match self.query {
            PlaysQuery::QueryByUser(username) => {
                push_text(&mut q, "username", owned(username));
            },
            PlaysQuery::QueryById { id, plays_item_type } => {
                push_u64(&mut q, "id", id);
                let t = match plays_item_type {
                    PlaysItemType::Thing => owned("thing"),
                    PlaysItemType::Family => owned("family"),
                };
                push_text(&mut q, "type", t);
            },
        }
        if let Some(d) = self.params.min_date {
            push_text(&mut q, "mindate", d.to_text());
        }
        if let Some(d) = self.params.max_date {
            push_text(&mut q, "maxdate", d.to_text());
        }
        if let Some(t) = self.params.sub_type {
            push_text(&mut q, "subtype", t.to_text());
        }
        push_opt_u64(&mut q, "page", self.params.page);
        proof {
            assert(params_view(q@) =~= plays_query_spec(self.target(), self.settings()));
        }
        q
    }
}

/// The item that a play was of.
#[derive(Clone, Debug)]
pub struct PlayedItem {
    /// The name of the item.
    pub name: String,
    /// The ID of the item.
    pub id: u64,
    /// The types of the item, such as board game and expansion.
    pub sub_types: Vec<ItemSubType>,
}

/// A player of a recorded play.
#[derive(Clone, Debug)]
pub struct Player {
    /// The player's user name, when the player is a user of the site.
    pub username: Option<String>,
    /// The player's user ID, when the player is a user of the site.
    pub user_id: Option<u64>,
    /// The player's name.
    pub name: String,
    /// The player's start position.
    pub start_position: String,
    /// The player's color.
    pub color: String,
    /// The player's score, as the text recorded.
    pub score: String,
    /// Whether it was the player's first play of the item.
    pub first_time_playing: bool,
    /// The player's rating of the item.
    pub rating: u64,
    /// Whether the player won.
    pub won: bool,
}

} // verus!
