//! The builder that accumulates search criteria and validates them into a query.

use vstd::prelude::*;
use crate::errors::ConnpassCliError;
use crate::query::types::{
    FetchCountRange, FormatJson, OrderOption, COUNT_RANGE_MESSAGE, FORMAT_TOKEN_MESSAGE,
};
use crate::query::validator::Validator;
use crate::query::{content, texts_of, Query, QueryView};

verus! {

/// The list that a field holds after one more value was added: the value
/// after those already there, or alone where the field was unset.
pub open spec fn appended<T>(source: Option<Seq<T>>, pushed: T) -> Seq<T> {
    match source {
        Some(xs) => xs.push(pushed),
        None => seq![pushed],
    }
}

/// The list that a field holds after values were added one at a time, in
/// the order of `pushed`.
pub open spec fn appended_each<T>(source: Option<Seq<T>>, pushed: Seq<T>) -> Option<Seq<T>>
    decreases pushed.len(),
{
    if pushed.len() == 0 {
        source
    } else {
        Some(appended(appended_each(source, pushed.drop_last()), pushed.last()))
    }
}

/// The values that a field holds; none where the field is unset.
pub open spec fn held<T>(source: Option<Seq<T>>) -> Seq<T> {
    match source {
        Some(xs) => xs,
        None => Seq::empty(),
    }
}

/// Adds `pushed` to the end of the list in `source`, starting a list where there is none.
pub fn push_or_create<T>(source: Option<Vec<T>>, pushed: T) -> (r: Option<Vec<T>>)
    ensures
        content(r) == Some(appended(content(source), pushed)),
{
    match source {
        Some(mut xs) => {
            xs.push(pushed);
            Some(xs)
        },
        None => Some(vec![pushed]),
    }
}

/// Values added one at a time end up in the list in the order in which they
/// were added, after whatever the field held before; added to an unset
/// field, they are the whole list.
pub proof fn lemma_appended_each_in_order<T>(source: Option<Seq<T>>, pushed: Seq<T>)
    requires
        pushed.len() > 0,
    ensures
        appended_each(source, pushed) == Some(held(source) + pushed),
        source is None ==> appended_each(source, pushed) == Some(pushed),
    decreases pushed.len(),
{
    let front = pushed.drop_last();
    if front.len() == 0 {
        assert(appended(source, pushed.last()) =~= held(source) + pushed);
    } else {
        lemma_appended_each_in_order(source, front);
        assert((held(source) + front).push(pushed.last()) =~= held(source) + pushed);
    }
    assert(source is None ==> held(source) + pushed =~= pushed);
}

/// Adding a text to a list field of texts adds its content to the content of the field.
proof fn lemma_texts_appended(
    before: Option<Vec<String>>,
    after: Option<Vec<String>>,
    pushed: String,
)
    requires
        content(after) == Some(appended(content(before), pushed)),
    ensures
        texts_of(after) == Some(appended(texts_of(before), pushed@)),
{
    assert(texts_of(after)->0 =~= appended(texts_of(before), pushed@));
}

/// Chainable accumulator of search criteria.
///
/// A setter that takes a list replaces what the field held; a setter that
/// takes one value adds it to the end of the list. `build` validates the
/// criteria and turns them into a `Query`.
pub struct QueryBuilder {
    event_id: Option<Vec<u32>>,
    keyword: Option<Vec<String>>,
    keyword_or: Option<Vec<String>>,
    ym: Option<Vec<u32>>,
    ymd: Option<Vec<u32>>,
    nickname: Option<Vec<String>>,
    owner_nickname: Option<Vec<String>>,
    series_id: Option<Vec<u32>>,
    start: Option<u32>,
    order: Option<OrderOption>,
    count: Option<FetchCountRange>,
    format: Option<FormatJson>,
}

impl View for QueryBuilder {
    type V = QueryView;

    closed spec fn view(&self) -> QueryView {
        QueryView {
            event_id: content(self.event_id),
            keyword: texts_of(self.keyword),
            keyword_or: texts_of(self.keyword_or),
            ym: content(self.ym),
            ymd: content(self.ymd),
            nickname: texts_of(self.nickname),
            owner_nickname: texts_of(self.owner_nickname),
            series_id: content(self.series_id),
            start: self.start,
            order: self.order,
            count: match self.count {
                Some(c) => Some(c.0),
                None => None,
            },
            format: match self.format {
                Some(f) => Some(f.0@),
                None => None,
            },
        }
    }
}

impl Default for QueryBuilder {
    fn default() -> (r: Self)
        ensures
            r@ == QueryView::empty(),
    {
        QueryBuilder {
            event_id: None,
            keyword: None,
            keyword_or: None,
            ym: None,
            ymd: None,
            nickname: None,
            owner_nickname: None,
            series_id: None,
            start: None,
            order: None,
            count: None,
            format: None,
        }
    }
}

impl QueryBuilder {
    /// Starts a builder with every field unset.
    pub fn begin() -> (r: Self)
        ensures
            r@ == QueryView::empty(),
    {
        QueryBuilder::default()
    }

    /// Replaces the list of event ids.
    pub fn event_ids(self, ids: Vec<u32>) -> (r: Self)
        ensures
            r@ == (QueryView { event_id: Some(ids@), ..self@ }),
    {
        let mut builder = self;
        builder.event_id = Some(ids);
        builder
    }

    /// Adds one event id to the end of the list,
    /// starting the list if it is unset.
    pub fn event_id(self, id: u32) -> (r: Self)
        ensures
            r@ == (QueryView { event_id: Some(appended(self@.event_id, id)), ..self@ }),
    {
        let mut builder = self;
        builder.event_id = push_or_create(builder.event_id, id);
        builder
    }

    /// Replaces the list of keywords, all of which an event must match.
    pub fn keywords(self, keywords: Vec<String>) -> (r: Self)
        ensures
            r@ == (QueryView { keyword: texts_of(Some(keywords)), ..self@ }),
    {
        let mut builder = self;
        builder.keyword = Some(keywords);
        builder
    }

    /// Adds one keyword that an event must match to the end of the list,
    /// starting the list if it is unset.
    pub fn keyword(self, keyword: String) -> (r: Self)
        ensures
            r@ == (QueryView { keyword: Some(appended(self@.keyword, keyword@)), ..self@ }),
    {
        let mut builder = self;
        let ghost before = builder.keyword;
        builder.keyword = push_or_create(builder.keyword, keyword);
        proof {
            lemma_texts_appended(before, builder.keyword, keyword);
        }
        builder
    }

    /// Replaces the list of keywords, one of which an event must match.
    pub fn keywords_or(self, keywords: Vec<String>) -> (r: Self)
        ensures
            r@ == (QueryView { keyword_or: texts_of(Some(keywords)), ..self@ }),
    {
        let mut builder = self;
        builder.keyword_or = Some(keywords);
        builder
    }

    /// Adds one keyword that an event may match to the end of the list,
    /// starting the list if it is unset.
    pub fn keyword_or(self, keyword: String) -> (r: Self)
        ensures
            r@ == (QueryView { keyword_or: Some(appended(self@.keyword_or, keyword@)), ..self@ }),
    {
        let mut builder = self;
        let ghost before = builder.keyword_or;
        builder.keyword_or = push_or_create(builder.keyword_or, keyword);
        proof {
            lemma_texts_appended(before, builder.keyword_or, keyword);
        }
        builder
    }

    /// Replaces the list of months, each written as a year and a month.
    pub fn yms(self, yms: Vec<u32>) -> (r: Self)
        ensures
            r@ == (QueryView { ym: Some(yms@), ..self@ }),
    {
        let mut builder = self;
        builder.ym = Some(yms);
        builder
    }

    /// Adds one month, written as a year and a month to the end of the list,
    /// starting the list if it is unset.
    pub fn ym(self, ym: u32) -> (r: Self)
        ensures
            r@ == (QueryView { ym: Some(appended(self@.ym, ym)), ..self@ }),
    {
        let mut builder = self;
        builder.ym = push_or_create(builder.ym, ym);
        builder
    }

    /// Replaces the list of days, each written as a year, a month and a day.
    pub fn ymds(self, ymds: Vec<u32>) -> (r: Self)
        ensures
            r@ == (QueryView { ymd: Some(ymds@), ..self@ }),
    {
        let mut builder = self;
        builder.ymd = Some(ymds);
        builder
    }

    /// Adds one day, written as a year, a month and a day to the end of the list,
    /// starting the list if it is unset.
    pub fn ymd(self, ymd: u32) -> (r: Self)
        ensures
            r@ == (QueryView { ymd: Some(appended(self@.ymd, ymd)), ..self@ }),
    {
        let mut builder = self;
        builder.ymd = push_or_create(builder.ymd, ymd);
        builder
    }

    /// Replaces the list of nicknames of participants.
    pub fn nicknames(self, nicknames: Vec<String>) -> (r: Self)
        ensures
            r@ == (QueryView { nickname: texts_of(Some(nicknames)), ..self@ }),
    {
        let mut builder = self;
        builder.nickname = Some(nicknames);
        builder
    }

    /// Adds one nickname of a participant to the end of the list,
    /// starting the list if it is unset.
    pub fn nickname(self, nickname: String) -> (r: Self)
        ensures
            r@ == (QueryView { nickname: Some(appended(self@.nickname, nickname@)), ..self@ }),
    {
        let mut builder = self;
        let ghost before = builder.nickname;
        builder.nickname = push_or_create(builder.nickname, nickname);
        proof {
            lemma_texts_appended(before, builder.nickname, nickname);
        }
        builder
    }

    /// Replaces the list of nicknames of owners.
    pub fn owner_nicknames(self, owner_nicknames: Vec<String>) -> (r: Self)
        ensures
            r@ == (QueryView { owner_nickname: texts_of(Some(owner_nicknames)), ..self@ }),
    {
        let mut builder = self;
        builder.owner_nickname = Some(owner_nicknames);
        builder
    }

    /// Adds one nickname of an owner to the end of the list,
    /// starting the list if it is unset.
    pub fn owner_nickname(self, owner_nickname: String) -> (r: Self)
        ensures
            r@ == (QueryView {
                owner_nickname: Some(appended(self@.owner_nickname, owner_nickname@)),
                ..self@
            }),
    {
        let mut builder = self;
        let ghost before = builder.owner_nickname;
        builder.owner_nickname = push_or_create(builder.owner_nickname, owner_nickname);
        proof {
            lemma_texts_appended(before, builder.owner_nickname, owner_nickname);
        }
        builder
    }

    /// Replaces the list of series ids.
    pub fn series_ids(self, series_ids: Vec<u32>) -> (r: Self)
        ensures
            r@ == (QueryView { series_id: Some(series_ids@), ..self@ }),
    {
        let mut builder = self;
        builder.series_id = Some(series_ids);
        builder
    }

    /// Adds one series id to the end of the list,
    /// starting the list if it is unset.
    pub fn series_id(self, series_id: u32) -> (r: Self)
        ensures
            r@ == (QueryView { series_id: Some(appended(self@.series_id, series_id)), ..self@ }),
    {
        let mut builder = self;
        builder.series_id = push_or_create(builder.series_id, series_id);
        builder
    }

    /// Sets the 1-based offset of the first event to return.
    pub fn start(self, start: u32) -> (r: Self)
        ensures
            r@ == (QueryView { start: Some(start), ..self@ }),
    {
        let mut builder = self;
        builder.start = Some(start);
        builder
    }

    /// Sets the order in which events are returned.
    pub fn order(self, order: OrderOption) -> (r: Self)
        ensures
            r@ == (QueryView { order: Some(order), ..self@ }),
    {
        let mut builder = self;
        builder.order = Some(order);
        builder
    }

    /// Sets the number of events to fetch. The value is checked by `build`.
    pub fn count(self, count: u8) -> (r: Self)
        ensures
            r@ == (QueryView { count: Some(count), ..self@ }),
    {
        let mut builder = self;
        builder.count = Some(FetchCountRange(count));
        builder
    }

    /// Sets the response format. The value is checked by `build`.
    pub fn format(self, format: String) -> (r: Self)
        ensures
            r@ == (QueryView { format: Some(format@), ..self@ }),
    {
        let mut builder = self;
        builder.format = Some(FormatJson(format));
        builder
    }

    /// Whether `e` is the error that rejects criteria which are not valid:
    /// `OutOfRange` for a fetch count outside 1 to 100, which is looked at
    /// first, and otherwise `InvalidToken` for a format other than `json`.
    pub open spec fn rejection(criteria: QueryView, e: ConnpassCliError) -> bool {
        e matches ConnpassCliError::Validation(v) && if !criteria.count_in_range() {
            v is OutOfRange && v.text() == COUNT_RANGE_MESSAGE@
        } else {
            v is InvalidToken && v.text() == FORMAT_TOKEN_MESSAGE@
        }
    }

    /// Validates the criteria and turns them into a query.
    ///
    /// Valid criteria always give a query, and the query holds exactly what
    /// the builder held. Criteria that are not valid give no query at all,
    /// only the error that names the first field at fault.
    pub fn build(self) -> (r: Result<Query, ConnpassCliError>)
        ensures
            match r {
                Ok(q) => self@.valid() && q@ == self@,
                Err(e) => !self@.valid() && QueryBuilder::rejection(self@, e),
            },
    {
        let mut query = Query {
            event_id: self.event_id,
            keyword: self.keyword,
            keyword_or: self.keyword_or,
            ym: self.ym,
            ymd: self.ymd,
            nickname: self.nickname,
            owner_nickname: self.owner_nickname,
            series_id: self.series_id,
            start: self.start,
            order: self.order,
            count: None,
            format: None,
        };

        if let Some(count) = self.count {
            match count.validate() {
                Ok(confirmed) => {
                    query.count = Some(confirmed.0);
                },
                Err(e) => {
                    return Err(e);
                },
            }
        }

        if let Some(format) = self.format {
            match format.validate() {
                Ok(confirmed) => {
                    query.format = Some(confirmed.0);
                },
                Err(e) => {
                    return Err(e);
                },
            }
        }

        Ok(query)
    }
}

} // verus!
