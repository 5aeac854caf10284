//! The search endpoint's query: items by name, of some types, optionally exact matches only.
use vstd::prelude::*;

use crate::models::{item_type_text_spec, ItemType};
use crate::query::{
    bool_text, item_types_param_text, item_types_text, lemma_values_of_concat, lemma_values_of_one,
    lemma_values_of_opt_entry, opt_bool, params_view, push_opt_bool, push_text, values_of,
    QueryParam,
};
use crate::text::owned;

verus! {

/// Optional query parameters of the search endpoint.
#[derive(Clone, Debug)]
pub struct SearchQueryParams {
    item_types: Vec<ItemType>,
    exact: Option<bool>,
}

impl SearchQueryParams {
    /// The item types to search within.
    pub closed spec fn types(&self) -> Seq<ItemType> {
        self.item_types@
    }

    /// Whether only exact matches are wanted, if set.
    pub closed spec fn exact_of(&self) -> Option<bool> {
        self.exact
    }

    /// A search query with no types and no exact flag.
    pub fn new() -> (r: Self)
        ensures
            r.types() == Seq::<ItemType>::empty(),
            r.exact_of() is None,
    {
        SearchQueryParams { item_types: Vec::new(), exact: None }
    }

    /// Adds item types to search within. With none, board games are searched, which the API
    /// takes to include expansions.
    pub fn item_types(self, item_types: Vec<ItemType>) -> (r: Self)
        ensures
            r.types() == self.types() + item_types@,
            r.exact_of() == self.exact_of(),
    {
        let mut all = self.item_types;
        let mut more = item_types;
        all.append(&mut more);
        SearchQueryParams { item_types: all, exact: self.exact }
    }

    /// Sets the `exact` parameter: only exact matches of the query are returned when true.
    pub fn exact(self, exact: bool) -> (r: Self)
        ensures
            r.types() == self.types(),
            r.exact_of() == Some(exact),
    {
        SearchQueryParams { item_types: self.item_types, exact: Some(exact) }
    }
}

/// The query for a search: the search text, the exact flag when set, then the item types, or
/// board games when no type was given.
pub open spec fn search_query_spec(text: Seq<char>, types: Seq<ItemType>, exact: Option<bool>) -> Seq<
    (Seq<char>, Seq<char>),
> {
    seq![("query"@, text)] + opt_bool("exact"@, exact) + if types.len() == 0 {
        seq![("type"@, item_type_text_spec(ItemType::BoardGame))]
    } else {
        seq![("type"@, item_types_text(types))]
    }
}

/// The values under a key other than `exact` of a search query's three parts.
proof fn lemma_search_key(
    head: Seq<(Seq<char>, Seq<char>)>,
    flag: Seq<(Seq<char>, Seq<char>)>,
    tail: Seq<(Seq<char>, Seq<char>)>,
    exact: Option<bool>,
    key: Seq<char>,
)
    requires
        flag == opt_bool("exact"@, exact),
        key != "exact"@,
    ensures
        values_of(head + flag + tail, key) == values_of(head, key) + values_of(tail, key),
{
    lemma_values_of_concat(head, flag, key);
    lemma_values_of_concat(head + flag, tail, key);
    lemma_values_of_opt_entry("exact"@, exact, |b: bool| bool_text(b), key);
    assert(values_of(head, key) + Seq::<Seq<char>>::empty() =~= values_of(head, key));
}

/// Law: a search sends its text once under `query`, and exactly one `type`: `boardgame` when no
/// item type was asked for (which the API takes to include expansions), and otherwise the
/// asked types joined with commas.
pub proof fn law_search_query_and_type(text: Seq<char>, types: Seq<ItemType>, exact: Option<bool>)
    ensures
        values_of(search_query_spec(text, types, exact), "query"@) == seq![text],
        values_of(search_query_spec(text, types, exact), "type"@) == seq![
            if types.len() == 0 {
                "boardgame"@
            } else {
                item_types_text(types)
            },
        ],
{
    reveal_strlit("query");
    reveal_strlit("exact");
    reveal_strlit("type");
    reveal_strlit("boardgame");
    assert(item_type_text_spec(ItemType::BoardGame) == "boardgame"@);
    let head = seq![("query"@, text)];
    let flag = opt_bool("exact"@, exact);
    let ty = if types.len() == 0 {
        "boardgame"@
    } else {
        item_types_text(types)
    };
    let tail = seq![("type"@, ty)];
    assert(search_query_spec(text, types, exact) == head + flag + tail);
    let e = Seq::<Seq<char>>::empty();
    assert(forall|x: Seq<Seq<char>>| e + x =~= x && x + e =~= x);
    assert("exact"@[0] != "query"@[0]);
    assert("exact"@.len() != "type"@.len());
    lemma_search_key(head, flag, tail, exact, "query"@);
    lemma_search_key(head, flag, tail, exact, "type"@);
    lemma_values_of_one("query"@, text, "query"@);
    lemma_values_of_one("query"@, text, "type"@);
    lemma_values_of_one("type"@, ty, "query"@);
    lemma_values_of_one("type"@, ty, "type"@);
}

/// Builds the query for a request to the search endpoint.
pub struct SearchQueryBuilder<'q> {
    search_query: &'q str,
    params: SearchQueryParams,
}

impl<'q> SearchQueryBuilder<'q> {
    /// The text searched for.
    pub closed spec fn text(&self) -> Seq<char> {
        self.search_query@
    }

    /// The settings of the query.
    pub closed spec fn settings(&self) -> SearchQueryParams {
        self.params
    }

    /// A builder for a search for this text with these settings.
    pub fn new(search_query: &'q str, params: SearchQueryParams) -> (b: Self)
        ensures
            b.text() == search_query@,
            b.settings() == params,
    {
        SearchQueryBuilder { search_query, params }
    }

    /// The key and value pairs of the query.
    pub fn build(self) -> (q: Vec<QueryParam>)
        ensures
            params_view(q@) == search_query_spec(
                self.text(),
                self.settings().types(),
                self.settings().exact_of(),
            ),
    {
        let mut q: Vec<QueryParam> = Vec::new();
        push_text(&mut q, "query", owned(self.search_query));
        push_opt_bool(&mut q, "exact", self.params.exact);
        if self.params.item_types.len() == 0 {
            push_text(&mut q, "type", ItemType::BoardGame.to_text());
        } else {
            push_text(&mut q, "type", item_types_param_text(&self.params.item_types));
        }
        proof {
            assert(params_view(q@) =~= search_query_spec(
                self.text(),
                self.settings().types(),
                self.settings().exact_of(),
            ));
        }
        q
    }
}

} // verus!
