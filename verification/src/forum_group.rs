//! The forum group endpoint's query: the forums of a game or of a game family.
use vstd::prelude::*;

use crate::models::{item_domain_text_spec, ItemDomain};
use crate::query::{params_view, push_text, push_u64, QueryParam};
use crate::text::decimal;

use crate::query::{values_of};
verus! {

/// The query for a group of forums: the ID, then the domain it belongs to.
pub open spec fn forum_group_query_spec(id: u64, domain: ItemDomain) -> Seq<(Seq<char>, Seq<char>)> {
    seq![("id"@, decimal(id as nat)), ("type"@, item_domain_text_spec(domain))]
}

/// Builds the query for a request to the forum group endpoint.
#[derive(Clone, Copy, Debug)]
pub struct ForumGroupQueryBuilder {
    id: u64,
    forum_domain: ItemDomain,
}

impl ForumGroupQueryBuilder {
    /// The ID of the game or family.
    pub closed spec fn id_of(&self) -> u64 {
        self.id
    }

    /// Whether the ID is of a game or of a family.
    pub closed spec fn domain_of(&self) -> ItemDomain {
        self.forum_domain
    }

    /// A builder for the forums of this game or family.
    pub fn new(id: u64, forum_domain: ItemDomain) -> (b: Self)
        ensures
            b.id_of() == id,
            b.domain_of() == forum_domain,
    {
        ForumGroupQueryBuilder { id, forum_domain }
    }

    /// The key and value pairs of the query.
    pub fn build(self) -> (q: Vec<QueryParam>)
        ensures
            params_view(q@) == forum_group_query_spec(self.id_of(), self.domain_of()),
    {
        let mut q: Vec<QueryParam> = Vec::new();
        push_u64(&mut q, "id", self.id);
        push_text(&mut q, "type", self.forum_domain.to_text());
        proof {
            assert(params_view(q@) =~= forum_group_query_spec(self.id_of(), self.domain_of()));
        }
        q
    }
}

/// Law: a query for the forums of an item gives its ID under `id` and its domain under `type`.
pub proof fn law_forum_group_query_keys(id: u64, domain: ItemDomain)
    ensures
        values_of(forum_group_query_spec(id, domain), "id"@) == seq![decimal(id as nat)],
        values_of(forum_group_query_spec(id, domain), "type"@) == seq![item_domain_text_spec(domain)],
{
    broadcast use crate::query::group_values_of;
    reveal_strlit("id");
    reveal_strlit("type");
    assert("id"@.len() == 2);
    assert("type"@.len() == 4);
    assert(values_of(forum_group_query_spec(id, domain), "id"@) == seq![decimal(id as nat)]) by {
        assert(values_of(seq![("id"@, decimal(id as nat))], "id"@) == seq![decimal(id as nat)]);
        assert(values_of(seq![("id"@, decimal(id as nat))].push(("type"@, item_domain_text_spec(domain))), "id"@) == seq![decimal(id as nat)]);
        assert(seq![("id"@, decimal(id as nat)), ("type"@, item_domain_text_spec(domain))] =~= seq![("id"@, decimal(id as nat))].push(("type"@, item_domain_text_spec(domain))));
        assert(values_of(seq![("id"@, decimal(id as nat)), ("type"@, item_domain_text_spec(domain))], "id"@) == seq![decimal(id as nat)]);
    }
    assert(values_of(forum_group_query_spec(id, domain), "type"@) == seq![item_domain_text_spec(domain)]) by {
        assert(values_of(seq![("id"@, decimal(id as nat))], "type"@) == Seq::<Seq<char>>::empty());
        assert(values_of(seq![("id"@, decimal(id as nat))].push(("type"@, item_domain_text_spec(domain))), "type"@) == seq![item_domain_text_spec(domain)]);
        assert(seq![("id"@, decimal(id as nat)), ("type"@, item_domain_text_spec(domain))] =~= seq![("id"@, decimal(id as nat))].push(("type"@, item_domain_text_spec(domain))));
        assert(values_of(seq![("id"@, decimal(id as nat)), ("type"@, item_domain_text_spec(domain))], "type"@) == seq![item_domain_text_spec(domain)]);
    }
}

} // verus!
