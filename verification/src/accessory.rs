//! The accessory endpoint's query: which accessories to return and what to include with them.
use vstd::prelude::*;

use crate::models::{item_type_text_spec, ItemType};
use crate::query::{
    ids_param, opt_bool, opt_u64, ids_text, params_view, push_opt_bool, push_opt_u64, push_param, push_text,
    QueryParam,
};

use crate::query::{values_of, given_flag, given_number};
verus! {

/// All optional query parameters for making a request to the accessory endpoint.
#[derive(Clone, Copy, Debug, Default)]
pub struct AccessoryQueryParams {
    include_versions: Option<bool>,
    include_marketplace_data: Option<bool>,
    include_comments: Option<bool>,
    include_rating_comments: Option<bool>,
    page: Option<u64>,
    page_size: Option<u64>,
}

/// The settings of an accessory query, as plain values.
#[derive(Clone, Copy, Debug, PartialEq, Eq, Structural)]
pub struct AccessoryQueryParamsView {
    /// Whether to include version information.
    pub include_versions: Option<bool>,
    /// Whether to include marketplace data.
    pub include_marketplace_data: Option<bool>,
    /// Whether to include a page of comments.
    pub include_comments: Option<bool>,
    /// Whether to include a page of rating comments.
    pub include_rating_comments: Option<bool>,
    /// Which page of comments to return.
    pub page: Option<u64>,
    /// The size of the comment pages.
    pub page_size: Option<u64>,
}

impl View for AccessoryQueryParams {
    type V = AccessoryQueryParamsView;

    closed spec fn view(&self) -> AccessoryQueryParamsView {
        AccessoryQueryParamsView {
            include_versions: self.include_versions,
            include_marketplace_data: self.include_marketplace_data,
            include_comments: self.include_comments,
            include_rating_comments: self.include_rating_comments,
            page: self.page,
            page_size: self.page_size,
        }
    }
}

/// The query for accessories by ID: the accessory type, the IDs, then each setting that is set.
pub open spec fn accessory_query_spec(ids: Seq<u64>, p: AccessoryQueryParamsView) -> Seq<
    (Seq<char>, Seq<char>),
> {
    seq![("type"@, item_type_text_spec(ItemType::BoardGameAccessory)), ("id"@, ids_text(ids))]
        + opt_bool("versions"@, p.include_versions) + opt_bool(
        "marketplace"@,
        p.include_marketplace_data,
    ) + opt_bool("comments"@, p.include_comments) + opt_bool(
        "ratingcomments"@,
        p.include_rating_comments,
    ) + opt_u64("page"@, p.page) + opt_u64("pagesize"@, p.page_size)
}

impl AccessoryQueryParams {
    /// Constructs a new accessory query with parameters set to None.
    pub fn new() -> (r: Self)
        ensures
            r@ == (AccessoryQueryParamsView {
                include_versions: None,
                include_marketplace_data: None,
                include_comments: None,
                include_rating_comments: None,
                page: None,
                page_size: None,
            }),
    {
        AccessoryQueryParams {
            include_versions: None,
            include_marketplace_data: None,
            include_comments: None,
            include_rating_comments: None,
            page: None,
            page_size: None,
        }
    }

    /// Sets the `include_versions` query parameter: include information about the versions
    /// of the accessory.
    pub fn include_versions(self, include_versions: bool) -> (r: Self)
        ensures
            r@ == (AccessoryQueryParamsView { include_versions: Some(include_versions), ..self@ }),
    {
        AccessoryQueryParams { include_versions: Some(include_versions), ..self }
    }

    /// Sets the `include_marketplace_data` query parameter: include where to buy the
    /// accessory and for what cost.
    pub fn include_marketplace_data(self, include_marketplace_data: bool) -> (r: Self)
        ensures
            r@ == (AccessoryQueryParamsView {
                include_marketplace_data: Some(include_marketplace_data),
                ..self@
            }),
    {
        AccessoryQueryParams { include_marketplace_data: Some(include_marketplace_data), ..self }
    }

    /// Sets the `include_comments` query parameter: include a page of comments, ordered by
    /// username. Not compatible with `include_rating_comments`.
    pub fn include_comments(self, include_comments: bool) -> (r: Self)
        ensures
            r@ == (AccessoryQueryParamsView { include_comments: Some(include_comments), ..self@ }),
    {
        AccessoryQueryParams { include_comments: Some(include_comments), ..self }
    }

    /// Sets the `include_rating_comments` query parameter: include a page of ratings, ordered
    /// by rating. Not compatible with `include_comments`.
    pub fn include_rating_comments(self, include_rating_comments: bool) -> (r: Self)
        ensures
            r@ == (AccessoryQueryParamsView {
                include_rating_comments: Some(include_rating_comments),
                ..self@
            }),
    {
        AccessoryQueryParams { include_rating_comments: Some(include_rating_comments), ..self }
    }

    /// Sets the `page` query parameter: which page of comments to return.
    pub fn page(self, page: u64) -> (r: Self)
        ensures
            r@ == (AccessoryQueryParamsView { page: Some(page), ..self@ }),
    {
        AccessoryQueryParams { page: Some(page), ..self }
    }

    /// Sets the `page_size` query parameter: the size of comment pages, from 10 to 100.
    pub fn page_size(self, page_size: u64) -> (r: Self)
        ensures
            r@ == (AccessoryQueryParamsView { page_size: Some(page_size), ..self@ }),
    {
        AccessoryQueryParams { page_size: Some(page_size), ..self }
    }
}

/// Builds the query for a request to the accessory endpoint.
pub struct AccessoryQueryBuilder {
    game_ids: Vec<u64>,
    params: AccessoryQueryParams,
}

impl AccessoryQueryBuilder {
    /// The IDs to request.
    pub closed spec fn ids(&self) -> Seq<u64> {
        self.game_ids@
    }

    /// The settings of the query.
    pub closed spec fn settings(&self) -> AccessoryQueryParamsView {
        self.params@
    }

    /// A builder for the accessories with these IDs and these settings.
    pub fn new(game_ids: Vec<u64>, params: &AccessoryQueryParams) -> (b: Self)
        ensures
            b.ids() == game_ids@,
            b.settings() == params@,
    {
        AccessoryQueryBuilder { game_ids, params: *params }
    }

    /// The key and value pairs of the query.
    pub fn build(self) -> (q: Vec<QueryParam>)
        ensures
            params_view(q@) == accessory_query_spec(self.ids(), self.settings()),
    {
        let mut q: Vec<QueryParam> = Vec::new();
        push_text(&mut q, "type", ItemType::BoardGameAccessory.to_text());
        push_param(&mut q, ids_param("id", &self.game_ids));
        push_opt_bool(&mut q, "versions", self.params.include_versions);
        push_opt_bool(&mut q, "marketplace", self.params.include_marketplace_data);
        push_opt_bool(&mut q, "comments", self.params.include_comments);
        push_opt_bool(&mut q, "ratingcomments", self.params.include_rating_comments);
        push_opt_u64(&mut q, "page", self.params.page);
        push_opt_u64(&mut q, "pagesize", self.params.page_size);
        proof {
            assert(params_view(q@) =~= accessory_query_spec(self.ids(), self.settings()));
        }
        q
    }
}

/// Law: a query for accessories gives `boardgameaccessory` under `type`, the IDs joined with
/// commas under `id`, and each setting under its own key: `versions`, `marketplace`,
/// `comments` and `ratingcomments` as `1` or `0`, the page under `page` and the page size
/// under `pagesize`; each setting once when set and never when not.
pub proof fn law_accessory_query_keys(ids: Seq<u64>, p: AccessoryQueryParamsView)
    ensures
        values_of(accessory_query_spec(ids, p), "type"@) == seq![item_type_text_spec(ItemType::BoardGameAccessory)],
        values_of(accessory_query_spec(ids, p), "id"@) == seq![ids_text(ids)],
        values_of(accessory_query_spec(ids, p), "versions"@) == given_flag(p.include_versions),
        values_of(accessory_query_spec(ids, p), "marketplace"@) == given_flag(p.include_marketplace_data),
        values_of(accessory_query_spec(ids, p), "comments"@) == given_flag(p.include_comments),
        values_of(accessory_query_spec(ids, p), "ratingcomments"@) == given_flag(p.include_rating_comments),
        values_of(accessory_query_spec(ids, p), "page"@) == given_number(p.page),
        values_of(accessory_query_spec(ids, p), "pagesize"@) == given_number(p.page_size),
{
    broadcast use crate::query::group_values_of;
    reveal_strlit("comments");
    reveal_strlit("id");
    reveal_strlit("marketplace");
    reveal_strlit("page");
    reveal_strlit("pagesize");
    reveal_strlit("ratingcomments");
    reveal_strlit("type");
    reveal_strlit("versions");
    assert("comments"@.len() == 8);
    assert("id"@.len() == 2);
    assert("marketplace"@.len() == 11);
    assert("page"@.len() == 4);
    assert("pagesize"@.len() == 8);
    assert("ratingcomments"@.len() == 14);
    assert("type"@.len() == 4);
    assert("versions"@.len() == 8);
    assert("comments"@[0] != "pagesize"@[0]);
    assert("comments"@[0] != "versions"@[0]);
    assert("page"@[0] != "type"@[0]);
    assert("pagesize"@[0] != "versions"@[0]);
    assert(values_of(accessory_query_spec(ids, p), "type"@) == seq![item_type_text_spec(ItemType::BoardGameAccessory)]) by {
        assert(values_of(seq![("type"@, item_type_text_spec(ItemType::BoardGameAccessory))], "type"@) == seq![item_type_text_spec(ItemType::BoardGameAccessory)]);
        assert(values_of(seq![("type"@, item_type_text_spec(ItemType::BoardGameAccessory))].push(("id"@, ids_text(ids))), "type"@) == seq![item_type_text_spec(ItemType::BoardGameAccessory)]);
        assert(seq![("type"@, item_type_text_spec(ItemType::BoardGameAccessory)), ("id"@, ids_text(ids))] =~= seq![("type"@, item_type_text_spec(ItemType::BoardGameAccessory))].push(("id"@, ids_text(ids))));
        assert(values_of(seq![("type"@, item_type_text_spec(ItemType::BoardGameAccessory)), ("id"@, ids_text(ids))], "type"@) == seq![item_type_text_spec(ItemType::BoardGameAccessory)]);
        assert(values_of(opt_bool("versions"@, p.include_versions), "type"@) == Seq::<Seq<char>>::empty());
        assert(values_of(opt_bool("marketplace"@, p.include_marketplace_data), "type"@) == Seq::<Seq<char>>::empty());
        assert(values_of(opt_bool("comments"@, p.include_comments), "type"@) == Seq::<Seq<char>>::empty());
        assert(values_of(opt_bool("ratingcomments"@, p.include_rating_comments), "type"@) == Seq::<Seq<char>>::empty());
        assert(values_of(opt_u64("page"@, p.page), "type"@) == Seq::<Seq<char>>::empty());
        assert(values_of(opt_u64("pagesize"@, p.page_size), "type"@) == Seq::<Seq<char>>::empty());
    }
    assert(values_of(accessory_query_spec(ids, p), "id"@) == seq![ids_text(ids)]) by {
        assert(values_of(seq![("type"@, item_type_text_spec(ItemType::BoardGameAccessory))], "id"@) == Seq::<Seq<char>>::empty());
        assert(values_of(seq![("type"@, item_type_text_spec(ItemType::BoardGameAccessory))].push(("id"@, ids_text(ids))), "id"@) == seq![ids_text(ids)]);
        assert(seq![("type"@, item_type_text_spec(ItemType::BoardGameAccessory)), ("id"@, ids_text(ids))] =~= seq![("type"@, item_type_text_spec(ItemType::BoardGameAccessory))].push(("id"@, ids_text(ids))));
        assert(values_of(seq![("type"@, item_type_text_spec(ItemType::BoardGameAccessory)), ("id"@, ids_text(ids))], "id"@) == seq![ids_text(ids)]);
        assert(values_of(opt_bool("versions"@, p.include_versions), "id"@) == Seq::<Seq<char>>::empty());
        assert(values_of(opt_bool("marketplace"@, p.include_marketplace_data), "id"@) == Seq::<Seq<char>>::empty());
        assert(values_of(opt_bool("comments"@, p.include_comments), "id"@) == Seq::<Seq<char>>::empty());
        assert(values_of(opt_bool("ratingcomments"@, p.include_rating_comments), "id"@) == Seq::<Seq<char>>::empty());
        assert(values_of(opt_u64("page"@, p.page), "id"@) == Seq::<Seq<char>>::empty());
        assert(values_of(opt_u64("pagesize"@, p.page_size), "id"@) == Seq::<Seq<char>>::empty());
    }
    assert(values_of(accessory_query_spec(ids, p), "versions"@) == given_flag(p.include_versions)) by {
        assert(values_of(seq![("type"@, item_type_text_spec(ItemType::BoardGameAccessory))], "versions"@) == Seq::<Seq<char>>::empty());
        assert(values_of(seq![("type"@, item_type_text_spec(ItemType::BoardGameAccessory))].push(("id"@, ids_text(ids))), "versions"@) == Seq::<Seq<char>>::empty());
        assert(seq![("type"@, item_type_text_spec(ItemType::BoardGameAccessory)), ("id"@, ids_text(ids))] =~= seq![("type"@, item_type_text_spec(ItemType::BoardGameAccessory))].push(("id"@, ids_text(ids))));
        assert(values_of(seq![("type"@, item_type_text_spec(ItemType::BoardGameAccessory)), ("id"@, ids_text(ids))], "versions"@) == Seq::<Seq<char>>::empty());
        assert(values_of(opt_bool("versions"@, p.include_versions), "versions"@) == given_flag(p.include_versions));
        assert(values_of(opt_bool("marketplace"@, p.include_marketplace_data), "versions"@) == Seq::<Seq<char>>::empty());
        assert(values_of(opt_bool("comments"@, p.include_comments), "versions"@) == Seq::<Seq<char>>::empty());
        assert(values_of(opt_bool("ratingcomments"@, p.include_rating_comments), "versions"@) == Seq::<Seq<char>>::empty());
        assert(values_of(opt_u64("page"@, p.page), "versions"@) == Seq::<Seq<char>>::empty());
        assert(values_of(opt_u64("pagesize"@, p.page_size), "versions"@) == Seq::<Seq<char>>::empty());
    }
    assert(values_of(accessory_query_spec(ids, p), "marketplace"@) == given_flag(p.include_marketplace_data)) by {
        assert(values_of(seq![("type"@, item_type_text_spec(ItemType::BoardGameAccessory))], "marketplace"@) == Seq::<Seq<char>>::empty());
        assert(values_of(seq![("type"@, item_type_text_spec(ItemType::BoardGameAccessory))].push(("id"@, ids_text(ids))), "marketplace"@) == Seq::<Seq<char>>::empty());
        assert(seq![("type"@, item_type_text_spec(ItemType::BoardGameAccessory)), ("id"@, ids_text(ids))] =~= seq![("type"@, item_type_text_spec(ItemType::BoardGameAccessory))].push(("id"@, ids_text(ids))));
        assert(values_of(seq![("type"@, item_type_text_spec(ItemType::BoardGameAccessory)), ("id"@, ids_text(ids))], "marketplace"@) == Seq::<Seq<char>>::empty());
        assert(values_of(opt_bool("versions"@, p.include_versions), "marketplace"@) == Seq::<Seq<char>>::empty());
        assert(values_of(opt_bool("marketplace"@, p.include_marketplace_data), "marketplace"@) == given_flag(p.include_marketplace_data));
        assert(values_of(opt_bool("comments"@, p.include_comments), "marketplace"@) == Seq::<Seq<char>>::empty());
        assert(values_of(opt_bool("ratingcomments"@, p.include_rating_comments), "marketplace"@) == Seq::<Seq<char>>::empty());
        assert(values_of(opt_u64("page"@, p.page), "marketplace"@) == Seq::<Seq<char>>::empty());
        assert(values_of(opt_u64("pagesize"@, p.page_size), "marketplace"@) == Seq::<Seq<char>>::empty());
    }
    assert(values_of(accessory_query_spec(ids, p), "comments"@) == given_flag(p.include_comments)) by {
        assert(values_of(seq![("type"@, item_type_text_spec(ItemType::BoardGameAccessory))], "comments"@) == Seq::<Seq<char>>::empty());
        assert(values_of(seq![("type"@, item_type_text_spec(ItemType::BoardGameAccessory))].push(("id"@, ids_text(ids))), "comments"@) == Seq::<Seq<char>>::empty());
        assert(seq![("type"@, item_type_text_spec(ItemType::BoardGameAccessory)), ("id"@, ids_text(ids))] =~= seq![("type"@, item_type_text_spec(ItemType::BoardGameAccessory))].push(("id"@, ids_text(ids))));
        assert(values_of(seq![("type"@, item_type_text_spec(ItemType::BoardGameAccessory)), ("id"@, ids_text(ids))], "comments"@) == Seq::<Seq<char>>::empty());
        assert(values_of(opt_bool("versions"@, p.include_versions), "comments"@) == Seq::<Seq<char>>::empty());
        assert(values_of(opt_bool("marketplace"@, p.include_marketplace_data), "comments"@) == Seq::<Seq<char>>::empty());
        assert(values_of(opt_bool("comments"@, p.include_comments), "comments"@) == given_flag(p.include_comments));
        assert(values_of(opt_bool("ratingcomments"@, p.include_rating_comments), "comments"@) == Seq::<Seq<char>>::empty());
        assert(values_of(opt_u64("page"@, p.page), "comments"@) == Seq::<Seq<char>>::empty());
        assert(values_of(opt_u64("pagesize"@, p.page_size), "comments"@) == Seq::<Seq<char>>::empty());
    }
    assert(values_of(accessory_query_spec(ids, p), "ratingcomments"@) == given_flag(p.include_rating_comments)) by {
        assert(values_of(seq![("type"@, item_type_text_spec(ItemType::BoardGameAccessory))], "ratingcomments"@) == Seq::<Seq<char>>::empty());
        assert(values_of(seq![("type"@, item_type_text_spec(ItemType::BoardGameAccessory))].push(("id"@, ids_text(ids))), "ratingcomments"@) == Seq::<Seq<char>>::empty());
        assert(seq![("type"@, item_type_text_spec(ItemType::BoardGameAccessory)), ("id"@, ids_text(ids))] =~= seq![("type"@, item_type_text_spec(ItemType::BoardGameAccessory))].push(("id"@, ids_text(ids))));
        assert(values_of(seq![("type"@, item_type_text_spec(ItemType::BoardGameAccessory)), ("id"@, ids_text(ids))], "ratingcomments"@) == Seq::<Seq<char>>::empty());
        assert(values_of(opt_bool("versions"@, p.include_versions), "ratingcomments"@) == Seq::<Seq<char>>::empty());
        assert(values_of(opt_bool("marketplace"@, p.include_marketplace_data), "ratingcomments"@) == Seq::<Seq<char>>::empty());
        assert(values_of(opt_bool("comments"@, p.include_comments), "ratingcomments"@) == Seq::<Seq<char>>::empty());
        assert(values_of(opt_bool("ratingcomments"@, p.include_rating_comments), "ratingcomments"@) == given_flag(p.include_rating_comments));
        assert(values_of(opt_u64("page"@, p.page), "ratingcomments"@) == Seq::<Seq<char>>::empty());
        assert(values_of(opt_u64("pagesize"@, p.page_size), "ratingcomments"@) == Seq::<Seq<char>>::empty());
    }
    assert(values_of(accessory_query_spec(ids, p), "page"@) == given_number(p.page)) by {
        assert(values_of(seq![("type"@, item_type_text_spec(ItemType::BoardGameAccessory))], "page"@) == Seq::<Seq<char>>::empty());
        assert(values_of(seq![("type"@, item_type_text_spec(ItemType::BoardGameAccessory))].push(("id"@, ids_text(ids))), "page"@) == Seq::<Seq<char>>::empty());
        assert(seq![("type"@, item_type_text_spec(ItemType::BoardGameAccessory)), ("id"@, ids_text(ids))] =~= seq![("type"@, item_type_text_spec(ItemType::BoardGameAccessory))].push(("id"@, ids_text(ids))));
        assert(values_of(seq![("type"@, item_type_text_spec(ItemType::BoardGameAccessory)), ("id"@, ids_text(ids))], "page"@) == Seq::<Seq<char>>::empty());
        assert(values_of(opt_bool("versions"@, p.include_versions), "page"@) == Seq::<Seq<char>>::empty());
        assert(values_of(opt_bool("marketplace"@, p.include_marketplace_data), "page"@) == Seq::<Seq<char>>::empty());
        assert(values_of(opt_bool("comments"@, p.include_comments), "page"@) == Seq::<Seq<char>>::empty());
        assert(values_of(opt_bool("ratingcomments"@, p.include_rating_comments), "page"@) == Seq::<Seq<char>>::empty());
        assert(values_of(opt_u64("page"@, p.page), "page"@) == given_number(p.page));
        assert(values_of(opt_u64("pagesize"@, p.page_size), "page"@) == Seq::<Seq<char>>::empty());
    }
    assert(values_of(accessory_query_spec(ids, p), "pagesize"@) == given_number(p.page_size)) by {
        assert(values_of(seq![("type"@, item_type_text_spec(ItemType::BoardGameAccessory))], "pagesize"@) == Seq::<Seq<char>>::empty());
        assert(values_of(seq![("type"@, item_type_text_spec(ItemType::BoardGameAccessory))].push(("id"@, ids_text(ids))), "pagesize"@) == Seq::<Seq<char>>::empty());
        assert(seq![("type"@, item_type_text_spec(ItemType::BoardGameAccessory)), ("id"@, ids_text(ids))] =~= seq![("type"@, item_type_text_spec(ItemType::BoardGameAccessory))].push(("id"@, ids_text(ids))));
        assert(values_of(seq![("type"@, item_type_text_spec(ItemType::BoardGameAccessory)), ("id"@, ids_text(ids))], "pagesize"@) == Seq::<Seq<char>>::empty());
        assert(values_of(opt_bool("versions"@, p.include_versions), "pagesize"@) == Seq::<Seq<char>>::empty());
        assert(values_of(opt_bool("marketplace"@, p.include_marketplace_data), "pagesize"@) == Seq::<Seq<char>>::empty());
        assert(values_of(opt_bool("comments"@, p.include_comments), "pagesize"@) == Seq::<Seq<char>>::empty());
        assert(values_of(opt_bool("ratingcomments"@, p.include_rating_comments), "pagesize"@) == Seq::<Seq<char>>::empty());
        assert(values_of(opt_u64("page"@, p.page), "pagesize"@) == Seq::<Seq<char>>::empty());
        assert(values_of(opt_u64("pagesize"@, p.page_size), "pagesize"@) == given_number(p.page_size));
    }
}

} // verus!
