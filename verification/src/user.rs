//! The user endpoint's query: a user by name, optionally with their lists.
use vstd::prelude::*;

use crate::query::{
    opt_bool, opt_u64, params_view, push_opt_bool, push_opt_u64, push_text, QueryParam,
};
use crate::text::owned;

use crate::query::{values_of, given_flag, given_number};
verus! {

/// All optional query parameters for making a request to the user endpoint.
#[derive(Clone, Copy, Debug)]
pub struct UserQueryParams {
    include_buddies: Option<bool>,
    include_guilds: Option<bool>,
    include_top_list: Option<bool>,
    include_hot_list: Option<bool>,
    page: Option<u64>,
}

/// The settings of a [`UserQueryParams`], as plain values.
#[derive(Clone, Copy, Debug, PartialEq, Eq, Structural)]
pub struct UserQueryParamsView {
    /// Whether to include the user's buddies.
    pub include_buddies: Option<bool>,
    /// Whether to include the user's guilds.
    pub include_guilds: Option<bool>,
    /// Whether to include the user's top list.
    pub include_top_list: Option<bool>,
    /// Whether to include the user's hot list.
    pub include_hot_list: Option<bool>,
    /// The page of buddies and guilds to return.
    pub page: Option<u64>,
}

impl View for UserQueryParams {
    type V = UserQueryParamsView;

    closed spec fn view(&self) -> UserQueryParamsView {
        UserQueryParamsView {
            include_buddies: self.include_buddies,
            include_guilds: self.include_guilds,
            include_top_list: self.include_top_list,
            include_hot_list: self.include_hot_list,
            page: self.page,
        }
    }
}

impl UserQueryParams {
    /// Constructs a query with no parameters set.
    pub fn new() -> (r: Self)
        ensures
            r@ == (UserQueryParamsView {
                include_buddies: None,
                include_guilds: None,
                include_top_list: None,
                include_hot_list: None,
                page: None,
            }),
    {
        UserQueryParams {
            include_buddies: None,
            include_guilds: None,
            include_top_list: None,
            include_hot_list: None,
            page: None,
        }
    }

    /// Sets the `include_buddies` query parameter: include the list of the user's buddies.
    pub fn include_buddies(self, include_buddies: bool) -> (r: Self)
        ensures
            r@ == (UserQueryParamsView { include_buddies: Some(include_buddies), ..self@ }),
    {
        UserQueryParams { include_buddies: Some(include_buddies), ..self }
    }

    /// Sets the `include_guilds` query parameter: include the guilds the user belongs to.
    pub fn include_guilds(self, include_guilds: bool) -> (r: Self)
        ensures
            r@ == (UserQueryParamsView { include_guilds: Some(include_guilds), ..self@ }),
    {
        UserQueryParams { include_guilds: Some(include_guilds), ..self }
    }

    /// Sets the `include_top_list` query parameter: include the user's list of top games.
    pub fn include_top_list(self, include_top_list: bool) -> (r: Self)
        ensures
            r@ == (UserQueryParamsView { include_top_list: Some(include_top_list), ..self@ }),
    {
        UserQueryParams { include_top_list: Some(include_top_list), ..self }
    }

    /// Sets the `include_hot_list` query parameter: include the user's list of hot games.
    pub fn include_hot_list(self, include_hot_list: bool) -> (r: Self)
        ensures
            r@ == (UserQueryParamsView { include_hot_list: Some(include_hot_list), ..self@ }),
    {
        UserQueryParams { include_hot_list: Some(include_hot_list), ..self }
    }

    /// Sets the `page` query parameter: which page of buddies and guilds to return.
    pub fn page(self, page: u64) -> (r: Self)
        ensures
            r@ == (UserQueryParamsView { page: Some(page), ..self@ }),
    {
        UserQueryParams { page: Some(page), ..self }
    }
}

/// The query for a user: the name, the board game domain, then each setting that is set.
pub open spec fn user_query_spec(username: Seq<char>, p: UserQueryParamsView) -> Seq<
    (Seq<char>, Seq<char>),
> {
    seq![("name"@, username), ("domain"@, "boardgame"@)] + opt_bool("buddies"@, p.include_buddies)
        + opt_bool("guilds"@, p.include_guilds) + opt_bool("top"@, p.include_top_list) + opt_bool(
        "hot"@,
        p.include_hot_list,
    ) + opt_u64("page"@, p.page)
}

/// Builds the query for a request to the user endpoint.
pub struct UserQueryBuilder<'q> {
    username: &'q str,
    params: UserQueryParams,
}

impl<'q> UserQueryBuilder<'q> {
    /// The name of the user.
    pub closed spec fn name(&self) -> Seq<char> {
        self.username@
    }

    /// The settings of the query.
    pub closed spec fn settings(&self) -> UserQueryParamsView {
        self.params@
    }

    /// A builder for the user with this name and these settings.
    pub fn new(username: &'q str, params: UserQueryParams) -> (b: Self)
        ensures
            b.name() == username@,
            b.settings() == params@,
    {
        UserQueryBuilder { username, params }
    }

    /// The key and value pairs of the query.
    pub fn build(self) -> (q: Vec<QueryParam>)
        ensures
            params_view(q@) == user_query_spec(self.name(), self.settings()),
    {
        let mut q: Vec<QueryParam> = Vec::new();
        push_text(&mut q, "name", owned(self.username));
        push_text(&mut q, "domain", owned("boardgame"));
        push_opt_bool(&mut q, "buddies", self.params.include_buddies);
        push_opt_bool(&mut q, "guilds", self.params.include_guilds);
        push_opt_bool(&mut q, "top", self.params.include_top_list);
        push_opt_bool(&mut q, "hot", self.params.include_hot_list);
        push_opt_u64(&mut q, "page", self.params.page);
        proof {
            assert(params_view(q@) =~= user_query_spec(self.name(), self.settings()));
        }
        q
    }
}

/// Law: a query for a user gives the name under `name`, `boardgame` under `domain`, and each
/// setting under its own key: `buddies`, `guilds`, `top` and `hot` as `1` or `0` and the page
/// under `page`; each setting once when set and never when not.
pub proof fn law_user_query_keys(username: Seq<char>, p: UserQueryParamsView)
    ensures
        values_of(user_query_spec(username, p), "name"@) == seq![username],
        values_of(user_query_spec(username, p), "domain"@) == seq!["boardgame"@],
        values_of(user_query_spec(username, p), "buddies"@) == given_flag(p.include_buddies),
        values_of(user_query_spec(username, p), "guilds"@) == given_flag(p.include_guilds),
        values_of(user_query_spec(username, p), "top"@) == given_flag(p.include_top_list),
        values_of(user_query_spec(username, p), "hot"@) == given_flag(p.include_hot_list),
        values_of(user_query_spec(username, p), "page"@) == given_number(p.page),
{
    broadcast use crate::query::group_values_of;
    reveal_strlit("buddies");
    reveal_strlit("domain");
    reveal_strlit("guilds");
    reveal_strlit("hot");
    reveal_strlit("name");
    reveal_strlit("page");
    reveal_strlit("top");
    assert("buddies"@.len() == 7);
    assert("domain"@.len() == 6);
    assert("guilds"@.len() == 6);
    assert("hot"@.len() == 3);
    assert("name"@.len() == 4);
    assert("page"@.len() == 4);
    assert("top"@.len() == 3);
    assert("domain"@[0] != "guilds"@[0]);
    assert("hot"@[0] != "top"@[0]);
    assert("name"@[0] != "page"@[0]);
    assert(values_of(user_query_spec(username, p), "name"@) == seq![username]) by {
        assert(values_of(seq![("name"@, username)], "name"@) == seq![username]);
        assert(values_of(seq![("name"@, username)].push(("domain"@, "boardgame"@)), "name"@) == seq![username]);
        assert(seq![("name"@, username), ("domain"@, "boardgame"@)] =~= seq![("name"@, username)].push(("domain"@, "boardgame"@)));
        assert(values_of(seq![("name"@, username), ("domain"@, "boardgame"@)], "name"@) == seq![username]);
        assert(values_of(opt_bool("buddies"@, p.include_buddies), "name"@) == Seq::<Seq<char>>::empty());
        assert(values_of(opt_bool("guilds"@, p.include_guilds), "name"@) == Seq::<Seq<char>>::empty());
        assert(values_of(opt_bool("top"@, p.include_top_list), "name"@) == Seq::<Seq<char>>::empty());
        assert(values_of(opt_bool("hot"@, p.include_hot_list), "name"@) == Seq::<Seq<char>>::empty());
        assert(values_of(opt_u64("page"@, p.page), "name"@) == Seq::<Seq<char>>::empty());
    }
    assert(values_of(user_query_spec(username, p), "domain"@) == seq!["boardgame"@]) by {
        assert(values_of(seq![("name"@, username)], "domain"@) == Seq::<Seq<char>>::empty());
        assert(values_of(seq![("name"@, username)].push(("domain"@, "boardgame"@)), "domain"@) == seq!["boardgame"@]);
        assert(seq![("name"@, username), ("domain"@, "boardgame"@)] =~= seq![("name"@, username)].push(("domain"@, "boardgame"@)));
        assert(values_of(seq![("name"@, username), ("domain"@, "boardgame"@)], "domain"@) == seq!["boardgame"@]);
        assert(values_of(opt_bool("buddies"@, p.include_buddies), "domain"@) == Seq::<Seq<char>>::empty());
        assert(values_of(opt_bool("guilds"@, p.include_guilds), "domain"@) == Seq::<Seq<char>>::empty());
        assert(values_of(opt_bool("top"@, p.include_top_list), "domain"@) == Seq::<Seq<char>>::empty());
        assert(values_of(opt_bool("hot"@, p.include_hot_list), "domain"@) == Seq::<Seq<char>>::empty());
        assert(values_of(opt_u64("page"@, p.page), "domain"@) == Seq::<Seq<char>>::empty());
    }
    assert(values_of(user_query_spec(username, p), "buddies"@) == given_flag(p.include_buddies)) by {
        assert(values_of(seq![("name"@, username)], "buddies"@) == Seq::<Seq<char>>::empty());
        assert(values_of(seq![("name"@, username)].push(("domain"@, "boardgame"@)), "buddies"@) == Seq::<Seq<char>>::empty());
        assert(seq![("name"@, username), ("domain"@, "boardgame"@)] =~= seq![("name"@, username)].push(("domain"@, "boardgame"@)));
        assert(values_of(seq![("name"@, username), ("domain"@, "boardgame"@)], "buddies"@) == Seq::<Seq<char>>::empty());
        assert(values_of(opt_bool("buddies"@, p.include_buddies), "buddies"@) == given_flag(p.include_buddies));
        assert(values_of(opt_bool("guilds"@, p.include_guilds), "buddies"@) == Seq::<Seq<char>>::empty());
        assert(values_of(opt_bool("top"@, p.include_top_list), "buddies"@) == Seq::<Seq<char>>::empty());
        assert(values_of(opt_bool("hot"@, p.include_hot_list), "buddies"@) == Seq::<Seq<char>>::empty());
        assert(values_of(opt_u64("page"@, p.page), "buddies"@) == Seq::<Seq<char>>::empty());
    }
    assert(values_of(user_query_spec(username, p), "guilds"@) == given_flag(p.include_guilds)) by {
        assert(values_of(seq![("name"@, username)], "guilds"@) == Seq::<Seq<char>>::empty());
        assert(values_of(seq![("name"@, username)].push(("domain"@, "boardgame"@)), "guilds"@) == Seq::<Seq<char>>::empty());
        assert(seq![("name"@, username), ("domain"@, "boardgame"@)] =~= seq![("name"@, username)].push(("domain"@, "boardgame"@)));
        assert(values_of(seq![("name"@, username), ("domain"@, "boardgame"@)], "guilds"@) == Seq::<Seq<char>>::empty());
        assert(values_of(opt_bool("buddies"@, p.include_buddies), "guilds"@) == Seq::<Seq<char>>::empty());
        assert(values_of(opt_bool("guilds"@, p.include_guilds), "guilds"@) == given_flag(p.include_guilds));
        assert(values_of(opt_bool("top"@, p.include_top_list), "guilds"@) == Seq::<Seq<char>>::empty());
        assert(values_of(opt_bool("hot"@, p.include_hot_list), "guilds"@) == Seq::<Seq<char>>::empty());
        assert(values_of(opt_u64("page"@, p.page), "guilds"@) == Seq::<Seq<char>>::empty());
    }
    assert(values_of(user_query_spec(username, p), "top"@) == given_flag(p.include_top_list)) by {
        assert(values_of(seq![("name"@, username)], "top"@) == Seq::<Seq<char>>::empty());
        assert(values_of(seq![("name"@, username)].push(("domain"@, "boardgame"@)), "top"@) == Seq::<Seq<char>>::empty());
        assert(seq![("name"@, username), ("domain"@, "boardgame"@)] =~= seq![("name"@, username)].push(("domain"@, "boardgame"@)));
        assert(values_of(seq![("name"@, username), ("domain"@, "boardgame"@)], "top"@) == Seq::<Seq<char>>::empty());
        assert(values_of(opt_bool("buddies"@, p.include_buddies), "top"@) == Seq::<Seq<char>>::empty());
        assert(values_of(opt_bool("guilds"@, p.include_guilds), "top"@) == Seq::<Seq<char>>::empty());
        assert(values_of(opt_bool("top"@, p.include_top_list), "top"@) == given_flag(p.include_top_list));
        assert(values_of(opt_bool("hot"@, p.include_hot_list), "top"@) == Seq::<Seq<char>>::empty());
        assert(values_of(opt_u64("page"@, p.page), "top"@) == Seq::<Seq<char>>::empty());
    }
    assert(values_of(user_query_spec(username, p), "hot"@) == given_flag(p.include_hot_list)) by {
        assert(values_of(seq![("name"@, username)], "hot"@) == Seq::<Seq<char>>::empty());
        assert(values_of(seq![("name"@, username)].push(("domain"@, "boardgame"@)), "hot"@) == Seq::<Seq<char>>::empty());
        assert(seq![("name"@, username), ("domain"@, "boardgame"@)] =~= seq![("name"@, username)].push(("domain"@, "boardgame"@)));
        assert(values_of(seq![("name"@, username), ("domain"@, "boardgame"@)], "hot"@) == Seq::<Seq<char>>::empty());
        assert(values_of(opt_bool("buddies"@, p.include_buddies), "hot"@) == Seq::<Seq<char>>::empty());
        assert(values_of(opt_bool("guilds"@, p.include_guilds), "hot"@) == Seq::<Seq<char>>::empty());
        assert(values_of(opt_bool("top"@, p.include_top_list), "hot"@) == Seq::<Seq<char>>::empty());
        assert(values_of(opt_bool("hot"@, p.include_hot_list), "hot"@) == given_flag(p.include_hot_list));
        assert(values_of(opt_u64("page"@, p.page), "hot"@) == Seq::<Seq<char>>::empty());
    }
    assert(values_of(user_query_spec(username, p), "page"@) == given_number(p.page)) by {
        assert(values_of(seq![("name"@, username)], "page"@) == Seq::<Seq<char>>::empty());
        assert(values_of(seq![("name"@, username)].push(("domain"@, "boardgame"@)), "page"@) == Seq::<Seq<char>>::empty());
        assert(seq![("name"@, username), ("domain"@, "boardgame"@)] =~= seq![("name"@, username)].push(("domain"@, "boardgame"@)));
        assert(values_of(seq![("name"@, username), ("domain"@, "boardgame"@)], "page"@) == Seq::<Seq<char>>::empty());
        assert(values_of(opt_bool("buddies"@, p.include_buddies), "page"@) == Seq::<Seq<char>>::empty());
        assert(values_of(opt_bool("guilds"@, p.include_guilds), "page"@) == Seq::<Seq<char>>::empty());
        assert(values_of(opt_bool("top"@, p.include_top_list), "page"@) == Seq::<Seq<char>>::empty());
        assert(values_of(opt_bool("hot"@, p.include_hot_list), "page"@) == Seq::<Seq<char>>::empty());
        assert(values_of(opt_u64("page"@, p.page), "page"@) == given_number(p.page));
    }
}

} // verus!
