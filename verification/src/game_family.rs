//! The game family endpoint's query: families of games by their IDs.
use vstd::prelude::*;

use crate::models::{item_type_text_spec, ItemType};
use crate::query::{ids_param, ids_text, params_view, push_param, push_text, QueryParam};

use crate::query::{values_of};
verus! {

/// Query parameters for a request to the game family endpoint: the IDs to retrieve.
#[derive(Clone, Debug)]
pub struct GameFamilyQueryParams {
    game_family_ids: Vec<u64>,
}

impl GameFamilyQueryParams {
    /// The IDs to retrieve.
    pub closed spec fn ids(&self) -> Seq<u64> {
        self.game_family_ids@
    }

    /// A query with the list of IDs empty.
    pub fn new() -> (r: Self)
        ensures
            r.ids() == Seq::<u64>::empty(),
    {
        GameFamilyQueryParams { game_family_ids: Vec::new() }
    }

    /// Adds an ID to the list of family IDs to retrieve.
    pub fn game_family_id(self, id: u64) -> (r: Self)
        ensures
            r.ids() == self.ids().push(id),
    {
        let mut ids = self.game_family_ids;
        ids.push(id);
        GameFamilyQueryParams { game_family_ids: ids }
    }

    /// Adds a list of IDs to the list of family IDs to retrieve.
    pub fn game_family_ids(self, ids: Vec<u64>) -> (r: Self)
        ensures
            r.ids() == self.ids() + ids@,
    {
        let mut all = self.game_family_ids;
        let mut more = ids;
        all.append(&mut more);
        GameFamilyQueryParams { game_family_ids: all }
    }
}

/// The query for game families: the family type, then the IDs when there are any.
pub open spec fn game_family_query_spec(ids: Seq<u64>) -> Seq<(Seq<char>, Seq<char>)> {
    seq![("type"@, item_type_text_spec(ItemType::BoardGameFamily))] + if ids.len() > 0 {
        seq![("id"@, ids_text(ids))]
    } else {
        seq![]
    }
}

/// Builds the query for a request to the game family endpoint.
pub struct GameFamilyQueryBuilder {
    params: GameFamilyQueryParams,
}

impl GameFamilyQueryBuilder {
    /// The IDs to retrieve.
    pub closed spec fn ids(&self) -> Seq<u64> {
        self.params.ids()
    }

    /// A builder from the query parameters.
    pub fn new(params: GameFamilyQueryParams) -> (b: Self)
        ensures
            b.ids() == params.ids(),
    {
        GameFamilyQueryBuilder { params }
    }

    /// The key and value pairs of the query.
    pub fn build(self) -> (q: Vec<QueryParam>)
        ensures
            params_view(q@) == game_family_query_spec(self.ids()),
    {
        let mut q: Vec<QueryParam> = Vec::new();
        push_text(&mut q, "type", ItemType::BoardGameFamily.to_text());
        if self.params.game_family_ids.len() > 0 {
            push_param(&mut q, ids_param("id", &self.params.game_family_ids));
        }
        proof {
            assert(params_view(q@) =~= game_family_query_spec(self.ids()));
        }
        q
    }
}

/// Law: a query for game families gives `boardgamefamily` under `type` and the IDs joined with
/// commas under `id` when there are any.
pub proof fn law_game_family_query_keys(ids: Seq<u64>)
    ensures
        values_of(game_family_query_spec(ids), "type"@) == seq![item_type_text_spec(ItemType::BoardGameFamily)],
        values_of(game_family_query_spec(ids), "id"@) == if ids.len() > 0 { seq![ids_text(ids)] } else { Seq::<Seq<char>>::empty() },
{
    broadcast use crate::query::group_values_of;
    reveal_strlit("id");
    reveal_strlit("type");
    assert("id"@.len() == 2);
    assert("type"@.len() == 4);
    assert(values_of(game_family_query_spec(ids), "type"@) == seq![item_type_text_spec(ItemType::BoardGameFamily)]) by {
        assert(values_of(seq![("type"@, item_type_text_spec(ItemType::BoardGameFamily))], "type"@) == seq![item_type_text_spec(ItemType::BoardGameFamily)]);
        assert(values_of((if ids.len() > 0 { seq![("id"@, ids_text(ids))] } else { Seq::<(Seq<char>, Seq<char>)>::empty() }), "type"@) == Seq::<Seq<char>>::empty());
    }
    assert(values_of(game_family_query_spec(ids), "id"@) == if ids.len() > 0 { seq![ids_text(ids)] } else { Seq::<Seq<char>>::empty() }) by {
        assert(values_of(seq![("type"@, item_type_text_spec(ItemType::BoardGameFamily))], "id"@) == Seq::<Seq<char>>::empty());
        assert(values_of((if ids.len() > 0 { seq![("id"@, ids_text(ids))] } else { Seq::<(Seq<char>, Seq<char>)>::empty() }), "id"@) == if ids.len() > 0 { seq![ids_text(ids)] } else { Seq::<Seq<char>>::empty() });
    }
}

} // verus!
