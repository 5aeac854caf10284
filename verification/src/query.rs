//! Query parameters: the key and value pairs of an HTTP request, and the text that each kind
//! of value takes in them.
use vstd::prelude::*;

use crate::text::{decimal, owned, push_char, push_str, write_decimal};

verus! {

broadcast use vstd::string::group_string_axioms;

/// A key and value pair of an HTTP query.
pub type QueryParam = (&'static str, String);

/// The key and value of a query parameter, as character sequences.
pub open spec fn param_view(p: QueryParam) -> (Seq<char>, Seq<char>) {
    (p.0@, p.1@)
}

/// A list of query parameters, as character sequences.
pub open spec fn params_view(ps: Seq<QueryParam>) -> Seq<(Seq<char>, Seq<char>)> {
    ps.map_values(|p: QueryParam| param_view(p))
}

/// The values that a query gives under a key, in their order.
pub open spec fn values_of(q: Seq<(Seq<char>, Seq<char>)>, key: Seq<char>) -> Seq<Seq<char>>
    decreases q.len(),
{
    if q.len() == 0 {
        seq![]
    } else {
        values_of(q.drop_last(), key) + if q.last().0 == key {
            seq![q.last().1]
        } else {
            seq![]
        }
    }
}

/// The values under a key of two queries one after the other are those of the first, then
/// those of the second.
pub broadcast proof fn lemma_values_of_concat(a: Seq<(Seq<char>, Seq<char>)>, b: Seq<(Seq<char>, Seq<char>)>, key: Seq<char>)
    ensures
        #[trigger] values_of(a + b, key) == values_of(a, key) + values_of(b, key),
    decreases b.len(),
{
    if b.len() == 0 {
        assert(a + b =~= a);
        assert(values_of(a, key) + values_of(b, key) =~= values_of(a, key));
    } else {
        lemma_values_of_concat(a, b.drop_last(), key);
        assert((a + b).drop_last() =~= a + b.drop_last());
        assert((a + b).last() == b.last());
        let tail = if b.last().0 == key {
            seq![b.last().1]
        } else {
            seq![]
        };
        assert(values_of(a, key) + values_of(b.drop_last(), key) + tail =~= values_of(a, key) + (
        values_of(b.drop_last(), key) + tail));
    }
}

/// A single pair gives its value under its own key and nothing under another.
pub proof fn lemma_values_of_one(k: Seq<char>, v: Seq<char>, key: Seq<char>)
    ensures
        values_of(seq![(k, v)], key) == if k == key {
            seq![v]
        } else {
            Seq::<Seq<char>>::empty()
        },
{
    let q = seq![(k, v)];
    assert(q.drop_last() =~= Seq::<(Seq<char>, Seq<char>)>::empty());
    assert(q.last() == (k, v));
    assert(values_of(q.drop_last(), key) == Seq::<Seq<char>>::empty());
    assert(Seq::<Seq<char>>::empty() + seq![v] =~= seq![v]);
    assert(Seq::<Seq<char>>::empty() + Seq::<Seq<char>>::empty() =~= Seq::<Seq<char>>::empty());
}

/// A pair added at the end gives its value after the others when it has the key.
pub broadcast proof fn lemma_values_of_push(q: Seq<(Seq<char>, Seq<char>)>, e: (Seq<char>, Seq<char>), key: Seq<char>)
    ensures
        #[trigger] values_of(q.push(e), key) == if e.0 == key {
            values_of(q, key).push(e.1)
        } else {
            values_of(q, key)
        },
{
    assert(q.push(e).drop_last() =~= q);
    assert(q.push(e).last() == e);
    assert(values_of(q, key) + seq![e.1] =~= values_of(q, key).push(e.1));
    assert(values_of(q, key) + Seq::<Seq<char>>::empty() =~= values_of(q, key));
}

/// No pair gives no value.
pub broadcast proof fn lemma_values_of_empty(key: Seq<char>)
    ensures
        #[trigger] values_of(Seq::<(Seq<char>, Seq<char>)>::empty(), key) == Seq::<Seq<char>>::empty(),
{
}

/// The facts by which the values under a key of a query built from pieces are found.
pub broadcast group group_values_of {
    lemma_values_of_concat,
    lemma_values_of_push,
    lemma_values_of_empty,
    lemma_values_of_opt_entry,
}

/// An optional entry gives its value's text under its key when set, and nothing otherwise.
pub broadcast proof fn lemma_values_of_opt_entry<T>(k: Seq<char>, v: Option<T>, text: spec_fn(T) -> Seq<char>, key: Seq<char>)
    ensures
        #[trigger] values_of(opt_entry(k, v, text), key) == match v {
            Some(x) => if k == key {
                seq![text(x)]
            } else {
                Seq::<Seq<char>>::empty()
            },
            None => Seq::<Seq<char>>::empty(),
        },
{
    match v {
        Some(x) => lemma_values_of_one(k, text(x), key),
        None => {},
    }
}

/// The one text given when a text setting is set, none otherwise.
pub open spec fn given_text(v: Option<Seq<char>>) -> Seq<Seq<char>> {
    match v {
        Some(t) => seq![t],
        None => seq![],
    }
}

/// The one flag text, `1` or `0`, given when a flag is set, none otherwise.
pub open spec fn given_flag(v: Option<bool>) -> Seq<Seq<char>> {
    match v {
        Some(b) => seq![bool_text(b)],
        None => seq![],
    }
}

/// The one decimal text given when a number is set, none otherwise.
pub open spec fn given_number(v: Option<u64>) -> Seq<Seq<char>> {
    match v {
        Some(n) => seq![decimal(n as nat)],
        None => seq![],
    }
}

/// The text of a flag in a query: `1` for true and `0` for false.
pub open spec fn bool_text(b: bool) -> Seq<char> {
    if b {
        seq!['1']
    } else {
        seq!['0']
    }
}

/// A single parameter when the value is set, none otherwise.
pub open spec fn opt_entry<T>(key: Seq<char>, v: Option<T>, text: spec_fn(T) -> Seq<char>) -> Seq<
    (Seq<char>, Seq<char>),
> {
    match v {
        Some(x) => seq![(key, text(x))],
        None => seq![],
    }
}

/// A single flag parameter when the flag is set, none otherwise.
pub open spec fn opt_bool(key: Seq<char>, v: Option<bool>) -> Seq<(Seq<char>, Seq<char>)> {
    opt_entry(key, v, |b: bool| bool_text(b))
}

/// A single number parameter when the number is set, none otherwise.
pub open spec fn opt_u64(key: Seq<char>, v: Option<u64>) -> Seq<(Seq<char>, Seq<char>)> {
    opt_entry(key, v, |n: u64| decimal(n as nat))
}

/// Texts joined with commas in between.
pub open spec fn join_comma(parts: Seq<Seq<char>>) -> Seq<char>
    decreases parts.len(),
{
    if parts.len() == 0 {
        seq![]
    } else if parts.len() == 1 {
        parts[0]
    } else {
        join_comma(parts.drop_last()) + seq![','] + parts.last()
    }
}

/// The decimal texts of numbers, joined with commas.
pub open spec fn ids_text(ids: Seq<u64>) -> Seq<char> {
    join_comma(ids.map_values(|n: u64| decimal(n as nat)))
}

/// The text of a flag in a query: `1` for true and `0` for false.
pub fn bool_param_text(b: bool) -> (s: String)
    ensures
        s@ == bool_text(b),
{
    let mut s = String::new();
    if b {
        push_char(&mut s, '1');
    } else {
        push_char(&mut s, '0');
    }
    s
}

/// A flag parameter under `key`.
pub fn bool_param(key: &'static str, b: bool) -> (p: QueryParam)
    ensures
        param_view(p) == (key@, bool_text(b)),
{
    (key, bool_param_text(b))
}

/// A number parameter under `key`.
pub fn u64_param(key: &'static str, n: u64) -> (p: QueryParam)
    ensures
        param_view(p) == (key@, decimal(n as nat)),
{
    let mut s = String::new();
    write_decimal(&mut s, n);
    (key, s)
}

/// A text parameter under `key`.
pub fn str_param(key: &'static str, value: &str) -> (p: QueryParam)
    ensures
        param_view(p) == (key@, value@),
{
    (key, owned(value))
}

/// Appends a parameter to a list, keeping the view of the list in step.
pub fn push_param(ps: &mut Vec<QueryParam>, p: QueryParam)
    ensures
        params_view(final(ps)@) == params_view(old(ps)@).push(param_view(p)),
{
    let ghost before = ps@;
    ps.push(p);
    assert(params_view(ps@) =~= params_view(before).push(param_view(p)));
}

/// Appends a parameter when the optional flag is set.
pub fn push_opt_bool(ps: &mut Vec<QueryParam>, key: &'static str, v: Option<bool>)
    ensures
        params_view(final(ps)@) == params_view(old(ps)@) + opt_bool(key@, v),
{
    match v {
        Some(b) => push_param(ps, bool_param(key, b)),
        None => {},
    }
    assert(params_view(ps@) =~= params_view(old(ps)@) + opt_bool(key@, v));
}

/// Appends a parameter when the optional number is set.
pub fn push_opt_u64(ps: &mut Vec<QueryParam>, key: &'static str, v: Option<u64>)
    ensures
        params_view(final(ps)@) == params_view(old(ps)@) + opt_u64(key@, v),
{
    match v {
        Some(n) => push_param(ps, u64_param(key, n)),
        None => {},
    }
    assert(params_view(ps@) =~= params_view(old(ps)@) + opt_u64(key@, v));
}

/// The decimal texts of numbers joined with commas, e.g. `13,3000,1`.
pub fn ids_param_text(ids: &Vec<u64>) -> (s: String)
    ensures
        s@ == ids_text(ids@),
{
    let mut s = String::new();
    let mut i: usize = 0;
    let ghost texts = ids@.map_values(|n: u64| decimal(n as nat));
    while i < ids.len()
        invariant
            i <= ids.len(),
            texts == ids@.map_values(|n: u64| decimal(n as nat)),
            s@ == join_comma(texts.take(i as int)),
        decreases ids.len() - i,
    {
        assert(texts.take(i + 1).drop_last() =~= texts.take(i as int));
        if i > 0 {
            push_char(&mut s, ',');
        } else {
            assert(texts.take(0) =~= Seq::<Seq<char>>::empty());
        }
        write_decimal(&mut s, ids[i]);
        i = i + 1;
    }
    assert(texts.take(i as int) =~= texts);
    s
}

/// A list of IDs as one parameter under `key`, joined with commas.
pub fn ids_param(key: &'static str, ids: &Vec<u64>) -> (p: QueryParam)
    ensures
        param_view(p) == (key@, ids_text(ids@)),
{
    (key, ids_param_text(ids))
}

} // verus!

verus! {

/// A parameter under `key` whose value is the given text.
pub fn text_param(key: &'static str, value: String) -> (p: QueryParam)
    ensures
        param_view(p) == (key@, value@),
{
    (key, value)
}

/// Appends a flag parameter.
pub fn push_bool(ps: &mut Vec<QueryParam>, key: &'static str, b: bool)
    ensures
        params_view(final(ps)@) == params_view(old(ps)@).push((key@, bool_text(b))),
{
    push_param(ps, bool_param(key, b));
}

/// Appends a number parameter.
pub fn push_u64(ps: &mut Vec<QueryParam>, key: &'static str, n: u64)
    ensures
        params_view(final(ps)@) == params_view(old(ps)@).push((key@, decimal(n as nat))),
{
    push_param(ps, u64_param(key, n));
}

/// Appends a text parameter.
pub fn push_text(ps: &mut Vec<QueryParam>, key: &'static str, value: String)
    ensures
        params_view(final(ps)@) == params_view(old(ps)@).push((key@, value@)),
{
    push_param(ps, text_param(key, value));
}

} // verus!

verus! {

/// The texts of item types, joined with commas.
pub open spec fn item_types_text(ts: Seq<crate::models::ItemType>) -> Seq<char> {
    join_comma(ts.map_values(|t: crate::models::ItemType| crate::models::item_type_text_spec(t)))
}

/// The texts of item types joined with commas, e.g. `boardgame,boardgameexpansion`.
pub fn item_types_param_text(ts: &Vec<crate::models::ItemType>) -> (s: String)
    ensures
        s@ == item_types_text(ts@),
{
    let mut s = String::new();
    let mut i: usize = 0;
    let ghost texts = ts@.map_values(
        |t: crate::models::ItemType| crate::models::item_type_text_spec(t),
    );
    while i < ts.len()
        invariant
            i <= ts.len(),
            texts == ts@.map_values(
                |t: crate::models::ItemType| crate::models::item_type_text_spec(t),
            ),
            s@ == join_comma(texts.take(i as int)),
        decreases ts.len() - i,
    {
        assert(texts.take(i + 1).drop_last() =~= texts.take(i as int));
        if i > 0 {
            push_char(&mut s, ',');
        } else {
            assert(texts.take(0) =~= Seq::<Seq<char>>::empty());
        }
        let t = ts[i].to_text();
        push_str(&mut s, t.as_str());
        i = i + 1;
    }
    assert(texts.take(i as int) =~= texts);
    s
}

} // verus!
