//! The thread endpoint's query: a thread by ID, optionally only some of its posts.
use vstd::prelude::*;

use crate::date::{date_text, date_time_text, NaiveDate, NaiveDateTime};
use crate::query::{opt_u64, params_view, push_opt_u64, push_text, push_u64, QueryParam};
use crate::text::decimal;

use crate::query::{values_of, given_number};
verus! {

/// A date, or a date and a time, from which posts are wanted.
#[derive(Clone, Copy, Debug)]
pub enum DateOrDateTimeParam {
    /// Posts from the start of this date.
    Date(NaiveDate),
    /// Posts from this date and time.
    DateTime(NaiveDateTime),
}

/// The text of a date or date time parameter.
pub open spec fn date_or_date_time_text(d: DateOrDateTimeParam) -> Seq<char> {
    match d {
        DateOrDateTimeParam::Date(d) => date_text(d.year_of(), d.month_of(), d.day_of()),
        DateOrDateTimeParam::DateTime(t) => date_time_text(
            t.date_of(),
            t.hour_of(),
            t.minute_of(),
            t.shown_second_of(),
        ),
    }
}

/// All optional query parameters for making a request to the thread endpoint.
#[derive(Clone, Copy, Debug)]
pub struct ThreadQueryParams {
    min_post_id: Option<u64>,
    min_post_date: Option<DateOrDateTimeParam>,
    post_count: Option<u64>,
}

/// The settings of a [`ThreadQueryParams`], as plain values.
#[derive(Clone, Copy, Debug)]
pub struct ThreadQueryParamsView {
    /// Only posts with at least this ID.
    pub min_post_id: Option<u64>,
    /// Only posts from this date or date time on.
    pub min_post_date: Option<DateOrDateTimeParam>,
    /// At most this many posts.
    pub post_count: Option<u64>,
}

impl View for ThreadQueryParams {
    type V = ThreadQueryParamsView;

    closed spec fn view(&self) -> ThreadQueryParamsView {
        ThreadQueryParamsView {
            min_post_id: self.min_post_id,
            min_post_date: self.min_post_date,
            post_count: self.post_count,
        }
    }
}

impl ThreadQueryParams {
    /// A query with no parameters set.
    pub fn new() -> (r: Self)
        ensures
            r@ == (ThreadQueryParamsView {
                min_post_id: None,
                min_post_date: None,
                post_count: None,
            }),
    {
        ThreadQueryParams { min_post_id: None, min_post_date: None, post_count: None }
    }

    /// Sets the `min_post_id` query parameter: only posts with this ID or a greater one.
    pub fn min_post_id(self, min_post_id: u64) -> (r: Self)
        ensures
            r@ == (ThreadQueryParamsView { min_post_id: Some(min_post_id), ..self@ }),
    {
        ThreadQueryParams { min_post_id: Some(min_post_id), ..self }
    }

    /// Sets the `min_post_date` query parameter to a date: only posts from that date on.
    pub fn min_post_date(self, min_post_date: NaiveDate) -> (r: Self)
        ensures
            r@ == (ThreadQueryParamsView {
                min_post_date: Some(DateOrDateTimeParam::Date(min_post_date)),
                ..self@
            }),
    {
        ThreadQueryParams { min_post_date: Some(DateOrDateTimeParam::Date(min_post_date)), ..self }
    }

    /// Sets the `min_post_date` query parameter to a date and time: only posts from then on.
    pub fn min_post_date_time(self, min_post_date_time: NaiveDateTime) -> (r: Self)
        ensures
            r@ == (ThreadQueryParamsView {
                min_post_date: Some(DateOrDateTimeParam::DateTime(min_post_date_time)),
                ..self@
            }),
    {
        ThreadQueryParams {
            min_post_date: Some(DateOrDateTimeParam::DateTime(min_post_date_time)),
            ..self
        }
    }

    /// Sets the `post_count` query parameter: at most this many posts, up to 1000.
    pub fn post_count(self, post_count: u64) -> (r: Self)
        ensures
            r@ == (ThreadQueryParamsView { post_count: Some(post_count), ..self@ }),
    {
        ThreadQueryParams { post_count: Some(post_count), ..self }
    }
}

/// The query for a thread: its ID, then each setting that is set.
pub open spec fn thread_query_spec(id: u64, p: ThreadQueryParamsView) -> Seq<(Seq<char>, Seq<char>)> {
    seq![("id"@, decimal(id as nat))] + opt_u64("minarticleid"@, p.min_post_id) + match p.min_post_date {
        Some(d) => seq![("minarticledate"@, date_or_date_time_text(d))],
        None => seq![],
    } + opt_u64("count"@, p.post_count)
}

/// Builds the query for a request to the thread endpoint.
pub struct ThreadQueryBuilder {
    thread_id: u64,
    params: ThreadQueryParams,
}

impl ThreadQueryBuilder {
    /// The ID of the thread.
    pub closed spec fn id(&self) -> u64 {
        self.thread_id
    }

    /// The settings of the query.
    pub closed spec fn settings(&self) -> ThreadQueryParamsView {
        self.params@
    }

    /// A builder for the thread with this ID and these settings.
    pub fn new(thread_id: u64, params: &ThreadQueryParams) -> (b: Self)
        ensures
            b.id() == thread_id,
            b.settings() == params@,
    {
        ThreadQueryBuilder { thread_id, params: *params }
    }

    /// The key and value pairs of the query.
    pub fn build(self) -> (q: Vec<QueryParam>)
        ensures
            params_view(q@) == thread_query_spec(self.id(), self.settings()),
    {
        let mut q: Vec<QueryParam> = Vec::new();
        push_u64(&mut q, "id", self.thread_id);
        push_opt_u64(&mut q, "minarticleid", self.params.min_post_id);
        match self.params.min_post_date {
            Some(DateOrDateTimeParam::Date(d)) => push_text(&mut q, "minarticledate", d.to_text()),
            Some(DateOrDateTimeParam::DateTime(t)) => push_text(
                &mut q,
                "minarticledate",
                t.to_text(),
            ),
            None => {},
        }
        push_opt_u64(&mut q, "count", self.params.post_count);
        proof {
            assert(params_view(q@) =~= thread_query_spec(self.id(), self.settings()));
        }
        q
    }
}

/// Law: a query for a thread gives its ID under `id`, the first post ID under `minarticleid`,
/// the earliest post date under `minarticledate` and the number of posts under `count`; each
/// setting once when set and never when not.
pub proof fn law_thread_query_keys(id: u64, p: ThreadQueryParamsView)
    ensures
        values_of(thread_query_spec(id, p), "id"@) == seq![decimal(id as nat)],
        values_of(thread_query_spec(id, p), "minarticleid"@) == given_number(p.min_post_id),
        values_of(thread_query_spec(id, p), "minarticledate"@) == match p.min_post_date { Some(d) => seq![date_or_date_time_text(d)], None => Seq::<Seq<char>>::empty() },
        values_of(thread_query_spec(id, p), "count"@) == given_number(p.post_count),
{
    broadcast use crate::query::group_values_of;
    reveal_strlit("count");
    reveal_strlit("id");
    reveal_strlit("minarticledate");
    reveal_strlit("minarticleid");
    assert("count"@.len() == 5);
    assert("id"@.len() == 2);
    assert("minarticledate"@.len() == 14);
    assert("minarticleid"@.len() == 12);
    assert(values_of(thread_query_spec(id, p), "id"@) == seq![decimal(id as nat)]) by {
        assert(values_of(seq![("id"@, decimal(id as nat))], "id"@) == seq![decimal(id as nat)]);
        assert(values_of(opt_u64("minarticleid"@, p.min_post_id), "id"@) == Seq::<Seq<char>>::empty());
        assert(values_of(match p.min_post_date { Some(d) => seq![("minarticledate"@, date_or_date_time_text(d))], None => Seq::<(Seq<char>, Seq<char>)>::empty() }, "id"@) == Seq::<Seq<char>>::empty());
        assert(values_of(opt_u64("count"@, p.post_count), "id"@) == Seq::<Seq<char>>::empty());
    }
    assert(values_of(thread_query_spec(id, p), "minarticleid"@) == given_number(p.min_post_id)) by {
        assert(values_of(seq![("id"@, decimal(id as nat))], "minarticleid"@) == Seq::<Seq<char>>::empty());
        assert(values_of(opt_u64("minarticleid"@, p.min_post_id), "minarticleid"@) == given_number(p.min_post_id));
        assert(values_of(match p.min_post_date { Some(d) => seq![("minarticledate"@, date_or_date_time_text(d))], None => Seq::<(Seq<char>, Seq<char>)>::empty() }, "minarticleid"@) == Seq::<Seq<char>>::empty());
        assert(values_of(opt_u64("count"@, p.post_count), "minarticleid"@) == Seq::<Seq<char>>::empty());
    }
    assert(values_of(thread_query_spec(id, p), "minarticledate"@) == match p.min_post_date { Some(d) => seq![date_or_date_time_text(d)], None => Seq::<Seq<char>>::empty() }) by {
        assert(values_of(seq![("id"@, decimal(id as nat))], "minarticledate"@) == Seq::<Seq<char>>::empty());
        assert(values_of(opt_u64("minarticleid"@, p.min_post_id), "minarticledate"@) == Seq::<Seq<char>>::empty());
        assert(values_of(match p.min_post_date { Some(d) => seq![("minarticledate"@, date_or_date_time_text(d))], None => Seq::<(Seq<char>, Seq<char>)>::empty() }, "minarticledate"@) == match p.min_post_date { Some(d) => seq![date_or_date_time_text(d)], None => Seq::<Seq<char>>::empty() });
        assert(values_of(opt_u64("count"@, p.post_count), "minarticledate"@) == Seq::<Seq<char>>::empty());
    }
    assert(values_of(thread_query_spec(id, p), "count"@) == given_number(p.post_count)) by {
        assert(values_of(seq![("id"@, decimal(id as nat))], "count"@) == Seq::<Seq<char>>::empty());
        assert(values_of(opt_u64("minarticleid"@, p.min_post_id), "count"@) == Seq::<Seq<char>>::empty());
        assert(values_of(match p.min_post_date { Some(d) => seq![("minarticledate"@, date_or_date_time_text(d))], None => Seq::<(Seq<char>, Seq<char>)>::empty() }, "count"@) == Seq::<Seq<char>>::empty());
        assert(values_of(opt_u64("count"@, p.post_count), "count"@) == given_number(p.post_count));
    }
}

} // verus!
