//! The forum endpoint's query: a forum by ID, optionally a page of its threads.
use vstd::prelude::*;

use crate::query::{opt_u64, params_view, push_opt_u64, push_u64, QueryParam};
use crate::text::decimal;

use crate::query::{values_of, given_number};
verus! {

/// The optional query parameters of the forum endpoint.
#[derive(Clone, Copy, Debug)]
pub struct ForumQueryParams {
    page: Option<u64>,
}

impl ForumQueryParams {
    /// The page of threads requested, if any.
    pub closed spec fn page_of(&self) -> Option<u64> {
        self.page
    }

    /// No page requested: the first page of threads.
    pub fn new() -> (r: Self)
        ensures
            r.page_of() is None,
    {
        ForumQueryParams { page: None }
    }

    /// Requests this page of threads.
    pub fn with_page(page: u64) -> (r: Self)
        ensures
            r.page_of() == Some(page),
    {
        ForumQueryParams { page: Some(page) }
    }
}

/// The query for a forum: its ID, then the page of threads when set.
pub open spec fn forum_query_spec(id: u64, page: Option<u64>) -> Seq<(Seq<char>, Seq<char>)> {
    seq![("id"@, decimal(id as nat))] + opt_u64("page"@, page)
}

/// Builds the query for a request to the forum endpoint.
pub struct ForumQueryBuilder {
    forum_id: u64,
    params: ForumQueryParams,
}

impl ForumQueryBuilder {
    /// The ID of the forum.
    pub closed spec fn id(&self) -> u64 {
        self.forum_id
    }

    /// The settings of the query.
    pub closed spec fn settings(&self) -> ForumQueryParams {
        self.params
    }

    /// A builder for the forum with this ID and these settings.
    pub fn new(forum_id: u64, params: &ForumQueryParams) -> (b: Self)
        ensures
            b.id() == forum_id,
            b.settings() == *params,
    {
        ForumQueryBuilder { forum_id, params: *params }
    }

    /// The key and value pairs of the query.
    pub fn build(self) -> (q: Vec<QueryParam>)
        ensures
            params_view(q@) == forum_query_spec(self.id(), self.settings().page_of()),
    {
        let mut q: Vec<QueryParam> = Vec::new();
        push_u64(&mut q, "id", self.forum_id);
        push_opt_u64(&mut q, "page", self.params.page);
        proof {
            assert(params_view(q@) =~= forum_query_spec(self.id(), self.settings().page_of()));
        }
        q
    }
}

/// Law: a query for a forum gives its ID under `id` and the page under `page`, once when set
/// and never when not.
pub proof fn law_forum_query_keys(id: u64, page: Option<u64>)
    ensures
        values_of(forum_query_spec(id, page), "id"@) == seq![decimal(id as nat)],
        values_of(forum_query_spec(id, page), "page"@) == given_number(page),
{
    broadcast use crate::query::group_values_of;
    reveal_strlit("id");
    reveal_strlit("page");
    assert("id"@.len() == 2);
    assert("page"@.len() == 4);
    assert(values_of(forum_query_spec(id, page), "id"@) == seq![decimal(id as nat)]) by {
        assert(values_of(seq![("id"@, decimal(id as nat))], "id"@) == seq![decimal(id as nat)]);
        assert(values_of(opt_u64("page"@, page), "id"@) == Seq::<Seq<char>>::empty());
    }
    assert(values_of(forum_query_spec(id, page), "page"@) == given_number(page)) by {
        assert(values_of(seq![("id"@, decimal(id as nat))], "page"@) == Seq::<Seq<char>>::empty());
        assert(values_of(opt_u64("page"@, page), "page"@) == given_number(page));
    }
}

} // verus!
