//! The guild endpoint's query: a guild by ID, optionally with a page of its members.
use vstd::prelude::*;

use crate::query::{
    bool_text, opt_entry, params_view, push_bool, push_param, push_text, push_u64, u64_param,
    QueryParam,
};
use crate::text::{decimal, owned};

use crate::query::{values_of};
verus! {

/// Which field to sort the list of members by, either username or date joined.
#[derive(Clone, Copy, Debug, PartialEq, Eq, Structural)]
pub enum GuildMemberSortBy {
    /// Sort by username alphabetically, ascending.
    Username,
    /// Sort by date joined, most recent first.
    DateJoined,
}

/// The text the API uses for a sort order of guild members.
pub open spec fn sort_by_text(s: GuildMemberSortBy) -> Seq<char> {
    match s {
        GuildMemberSortBy::Username => "username"@,
        GuildMemberSortBy::DateJoined => "date"@,
    }
}

impl GuildMemberSortBy {
    /// The text the API uses for this sort order.
    pub fn to_text(&self) -> (s: String)
        ensures
            s@ == sort_by_text(*self),
    {
        match self {
            GuildMemberSortBy::Username => owned("username"),
            GuildMemberSortBy::DateJoined => owned("date"),
        }
    }
}

/// Optional query parameters that can be made when retrieving guilds.
#[derive(Clone, Copy, Debug)]
pub struct GuildQueryParams {
    include_member_page: Option<u64>,
    sort_by: Option<GuildMemberSortBy>,
}

/// The settings of a [`GuildQueryParams`], as plain values.
#[derive(Clone, Copy, Debug, PartialEq, Eq, Structural)]
pub struct GuildQueryParamsView {
    /// The page of members to include, if any.
    pub include_member_page: Option<u64>,
    /// How to sort the list of members.
    pub sort_by: Option<GuildMemberSortBy>,
}

impl View for GuildQueryParams {
    type V = GuildQueryParamsView;

    closed spec fn view(&self) -> GuildQueryParamsView {
        GuildQueryParamsView {
            include_member_page: self.include_member_page,
            sort_by: self.sort_by,
        }
    }
}

impl GuildQueryParams {
    /// Constructs a query with no parameters set.
    pub fn new() -> (r: Self)
        ensures
            r@ == (GuildQueryParamsView {
                include_member_page: None,
                sort_by: None,
            }),
    {
        GuildQueryParams {
            include_member_page: None,
            sort_by: None,
        }
    }

    /// Sets the `include_member_page` query parameter: include this page of the guild's members.
    pub fn include_member_page(self, include_member_page: u64) -> (r: Self)
        ensures
            r@ == (GuildQueryParamsView { include_member_page: Some(include_member_page), ..self@ }),
    {
        GuildQueryParams { include_member_page: Some(include_member_page), ..self }
    }

    /// Sets the `sort_by` query parameter: how to sort the list of members.
    pub fn sort_by(self, sort_by: GuildMemberSortBy) -> (r: Self)
        ensures
            r@ == (GuildQueryParamsView { sort_by: Some(sort_by), ..self@ }),
    {
        GuildQueryParams { sort_by: Some(sort_by), ..self }
    }
}

/// The query for a guild: its ID, the members flag and page when a page is requested, then the
/// sort order when set.
pub open spec fn guild_query_spec(id: u64, p: GuildQueryParamsView) -> Seq<(Seq<char>, Seq<char>)> {
    seq![("id"@, decimal(id as nat))] + match p.include_member_page {
        Some(page) => seq![("members"@, bool_text(true)), ("page"@, decimal(page as nat))],
        None => seq![],
    } + opt_entry("sort"@, p.sort_by, |s: GuildMemberSortBy| sort_by_text(s))
}

/// Builds the query for a request to the guild endpoint.
pub struct GuildQueryBuilder {
    guild_id: u64,
    params: GuildQueryParams,
}

impl GuildQueryBuilder {
    /// The ID of the guild.
    pub closed spec fn id(&self) -> u64 {
        self.guild_id
    }

    /// The settings of the query.
    pub closed spec fn settings(&self) -> GuildQueryParamsView {
        self.params@
    }

    /// A builder for the guild with this ID and these settings.
    pub fn new(guild_id: u64, params: GuildQueryParams) -> (b: Self)
        ensures
            b.id() == guild_id,
            b.settings() == params@,
    {
        GuildQueryBuilder { guild_id, params }
    }

    /// The key and value pairs of the query.
    pub fn build(self) -> (q: Vec<QueryParam>)
        ensures
            params_view(q@) == guild_query_spec(self.id(), self.settings()),
    {
        let mut q: Vec<QueryParam> = Vec::new();
        push_u64(&mut q, "id", self.guild_id);
        if let Some(page) = self.params.include_member_page {
            push_bool(&mut q, "members", true);
            push_u64(&mut q, "page", page);
        }
        if let Some(sort_by) = self.params.sort_by {
            push_text(&mut q, "sort", sort_by.to_text());
        }
        proof {
            assert(params_view(q@) =~= guild_query_spec(self.id(), self.settings()));
        }
        q
    }
}

/// The location of a guild.
#[derive(Clone, Debug)]
pub struct Location {
    /// The first line of the address.
    pub address_line_1: String,
    /// The second line of the address.
    pub address_line_2: String,
    /// The city.
    pub city: String,
    /// The state or province.
    pub state: String,
    /// The country.
    pub country: String,
    /// The postal code.
    pub postal_code: String,
}

/// Law: a query for a guild gives its ID under `id`, `1` under `members` and the page under
/// `page` when a page of members is asked for and neither otherwise, and the sort order under
/// `sort` once when set and never when not.
pub proof fn law_guild_query_keys(id: u64, p: GuildQueryParamsView)
    ensures
        values_of(guild_query_spec(id, p), "id"@) == seq![decimal(id as nat)],
        values_of(guild_query_spec(id, p), "members"@) == match p.include_member_page { Some(page) => seq![bool_text(true)], None => Seq::<Seq<char>>::empty() },
        values_of(guild_query_spec(id, p), "page"@) == match p.include_member_page { Some(page) => seq![decimal(page as nat)], None => Seq::<Seq<char>>::empty() },
        values_of(guild_query_spec(id, p), "sort"@) == match p.sort_by { Some(s) => seq![sort_by_text(s)], None => Seq::<Seq<char>>::empty() },
{
    broadcast use crate::query::group_values_of;
    reveal_strlit("id");
    reveal_strlit("members");
    reveal_strlit("page");
    reveal_strlit("sort");
    assert("id"@.len() == 2);
    assert("members"@.len() == 7);
    assert("page"@.len() == 4);
    assert("sort"@.len() == 4);
    assert("page"@[0] != "sort"@[0]);
    assert(values_of(guild_query_spec(id, p), "id"@) == seq![decimal(id as nat)]) by {
        if let Some(page) = p.include_member_page {
            assert(seq![("members"@, bool_text(true)), ("page"@, decimal(page as nat))] =~= seq![("members"@, bool_text(true))].push(("page"@, decimal(page as nat))));
            assert(values_of(seq![("members"@, bool_text(true))], "id"@) == if "members"@ == "id"@ { seq![bool_text(true)] } else { Seq::<Seq<char>>::empty() });
        }
        assert(values_of(seq![("id"@, decimal(id as nat))], "id"@) == seq![decimal(id as nat)]);
        assert(values_of(match p.include_member_page { Some(page) => seq![("members"@, bool_text(true)), ("page"@, decimal(page as nat))], None => Seq::<(Seq<char>, Seq<char>)>::empty() }, "id"@) == Seq::<Seq<char>>::empty());
        assert(values_of(opt_entry("sort"@, p.sort_by, |s: GuildMemberSortBy| sort_by_text(s)), "id"@) == Seq::<Seq<char>>::empty());
    }
    assert(values_of(guild_query_spec(id, p), "members"@) == match p.include_member_page { Some(page) => seq![bool_text(true)], None => Seq::<Seq<char>>::empty() }) by {
        if let Some(page) = p.include_member_page {
            assert(seq![("members"@, bool_text(true)), ("page"@, decimal(page as nat))] =~= seq![("members"@, bool_text(true))].push(("page"@, decimal(page as nat))));
            assert(values_of(seq![("members"@, bool_text(true))], "members"@) == if "members"@ == "members"@ { seq![bool_text(true)] } else { Seq::<Seq<char>>::empty() });
        }
        assert(values_of(seq![("id"@, decimal(id as nat))], "members"@) == Seq::<Seq<char>>::empty());
        assert(values_of(match p.include_member_page { Some(page) => seq![("members"@, bool_text(true)), ("page"@, decimal(page as nat))], None => Seq::<(Seq<char>, Seq<char>)>::empty() }, "members"@) == match p.include_member_page { Some(page) => seq![bool_text(true)], None => Seq::<Seq<char>>::empty() });
        assert(values_of(opt_entry("sort"@, p.sort_by, |s: GuildMemberSortBy| sort_by_text(s)), "members"@) == Seq::<Seq<char>>::empty());
    }
    assert(values_of(guild_query_spec(id, p), "page"@) == match p.include_member_page { Some(page) => seq![decimal(page as nat)], None => Seq::<Seq<char>>::empty() }) by {
        if let Some(page) = p.include_member_page {
            assert(seq![("members"@, bool_text(true)), ("page"@, decimal(page as nat))] =~= seq![("members"@, bool_text(true))].push(("page"@, decimal(page as nat))));
            assert(values_of(seq![("members"@, bool_text(true))], "page"@) == if "members"@ == "page"@ { seq![bool_text(true)] } else { Seq::<Seq<char>>::empty() });
        }
        assert(values_of(seq![("id"@, decimal(id as nat))], "page"@) == Seq::<Seq<char>>::empty());
        assert(values_of(match p.include_member_page { Some(page) => seq![("members"@, bool_text(true)), ("page"@, decimal(page as nat))], None => Seq::<(Seq<char>, Seq<char>)>::empty() }, "page"@) == match p.include_member_page { Some(page) => seq![decimal(page as nat)], None => Seq::<Seq<char>>::empty() });
        assert(values_of(opt_entry("sort"@, p.sort_by, |s: GuildMemberSortBy| sort_by_text(s)), "page"@) == Seq::<Seq<char>>::empty());
    }
    assert(values_of(guild_query_spec(id, p), "sort"@) == match p.sort_by { Some(s) => seq![sort_by_text(s)], None => Seq::<Seq<char>>::empty() }) by {
        if let Some(page) = p.include_member_page {
            assert(seq![("members"@, bool_text(true)), ("page"@, decimal(page as nat))] =~= seq![("members"@, bool_text(true))].push(("page"@, decimal(page as nat))));
            assert(values_of(seq![("members"@, bool_text(true))], "sort"@) == if "members"@ == "sort"@ { seq![bool_text(true)] } else { Seq::<Seq<char>>::empty() });
        }
        assert(values_of(seq![("id"@, decimal(id as nat))], "sort"@) == Seq::<Seq<char>>::empty());
        assert(values_of(match p.include_member_page { Some(page) => seq![("members"@, bool_text(true)), ("page"@, decimal(page as nat))], None => Seq::<(Seq<char>, Seq<char>)>::empty() }, "sort"@) == Seq::<Seq<char>>::empty());
        assert(values_of(opt_entry("sort"@, p.sort_by, |s: GuildMemberSortBy| sort_by_text(s)), "sort"@) == match p.sort_by { Some(s) => seq![sort_by_text(s)], None => Seq::<Seq<char>>::empty() });
    }
}

} // verus!
