//! Search queries and their serialization to request parameters.

use vstd::prelude::*;
use vstd::string::*;
use crate::decimal::{decimal, decimal_string, push_decimal, signed_decimal};

use self::types::OrderOption;

pub mod builder;
pub mod equality;
pub mod types;
pub mod validator;

verus! {

/// A value that can stand on the right-hand side of a request parameter.
pub trait ParamValue {
    /// The text that stands for this value in a request.
    spec fn rendered(&self) -> Seq<char>;

    /// Renders this value as the text that stands for it in a request.
    fn to_param(&self) -> (s: String)
        ensures
            s@ == self.rendered(),
    ;
}

impl ParamValue for u8 {
    open spec fn rendered(&self) -> Seq<char> {
        decimal(*self as nat)
    }

    fn to_param(&self) -> (s: String) {
        decimal_string(*self as u64)
    }
}

impl ParamValue for u32 {
    open spec fn rendered(&self) -> Seq<char> {
        decimal(*self as nat)
    }

    fn to_param(&self) -> (s: String) {
        decimal_string(*self as u64)
    }
}

impl ParamValue for i32 {
    open spec fn rendered(&self) -> Seq<char> {
        signed_decimal(*self as int)
    }

    fn to_param(&self) -> (s: String) {
        let wide: i64 = *self as i64;
        if wide < 0 {
            let mut s = "-".to_owned();
            proof {
                reveal_strlit("-");
            }
            push_decimal(&mut s, (-wide) as u64);
            s
        } else {
            decimal_string(wide as u64)
        }
    }
}

impl ParamValue for String {
    open spec fn rendered(&self) -> Seq<char> {
        self@
    }

    fn to_param(&self) -> (s: String) {
        self.clone()
    }
}

impl ParamValue for &str {
    open spec fn rendered(&self) -> Seq<char> {
        self@
    }

    fn to_param(&self) -> (s: String) {
        (*self).to_owned()
    }
}

/// A request parameter as plain text: its key and its value.
pub type Param = (Seq<char>, Seq<char>);

/// The texts that stand for a list of values, in the order of the list.
pub open spec fn rendered_each<T: ParamValue>(values: Seq<T>) -> Seq<Seq<char>> {
    Seq::new(values.len(), |i: int| values[i].rendered())
}

/// The texts that stand for a list field, if the field is set.
pub open spec fn rendered_list<T: ParamValue>(source: Option<Vec<T>>) -> Option<Seq<Seq<char>>> {
    match source {
        Some(values) => Some(rendered_each(values@)),
        None => None,
    }
}

/// The text that stands for a scalar field, if the field is set.
pub open spec fn rendered_single<T: ParamValue>(source: Option<T>) -> Option<Seq<char>> {
    match source {
        Some(value) => Some(value.rendered()),
        None => None,
    }
}

/// The parameters of a list field: one per value, all under `key`, in the
/// order of the list; none when the field is unset.
pub open spec fn repeated(key: Seq<char>, values: Option<Seq<Seq<char>>>) -> Seq<Param> {
    match values {
        Some(vs) => Seq::new(vs.len(), |i: int| (key, vs[i])),
        None => Seq::empty(),
    }
}

/// The parameters of a scalar field: one under `key` when the field is set, none otherwise.
pub open spec fn single(key: Seq<char>, value: Option<Seq<char>>) -> Seq<Param> {
    match value {
        Some(v) => seq![(key, v)],
        None => Seq::empty(),
    }
}

/// The decimal numerals of a list of numbers, if the list is set.
pub open spec fn numerals(numbers: Option<Seq<u32>>) -> Option<Seq<Seq<char>>> {
    match numbers {
        Some(ns) => Some(Seq::new(ns.len(), |i: int| decimal(ns[i] as nat))),
        None => None,
    }
}

/// The content of a list field: its values in order, if the field is set.
pub open spec fn content<T>(field: Option<Vec<T>>) -> Option<Seq<T>> {
    match field {
        Some(v) => Some(v@),
        None => None,
    }
}

/// The content of a list field of texts, each text as its characters.
pub open spec fn texts_of(field: Option<Vec<String>>) -> Option<Seq<Seq<char>>> {
    match field {
        Some(v) => Some(Seq::new(v@.len(), |i: int| v@[i]@)),
        None => None,
    }
}

/// The content of a text field.
pub open spec fn text_of(field: Option<String>) -> Option<Seq<char>> {
    match field {
        Some(s) => Some(s@),
        None => None,
    }
}

/// The search criteria of a query as plain values: each field is either
/// unset or holds what the caller gave.
pub struct QueryView {
    pub event_id: Option<Seq<u32>>,
    pub keyword: Option<Seq<Seq<char>>>,
    pub keyword_or: Option<Seq<Seq<char>>>,
    pub ym: Option<Seq<u32>>,
    pub ymd: Option<Seq<u32>>,
    pub nickname: Option<Seq<Seq<char>>>,
    pub owner_nickname: Option<Seq<Seq<char>>>,
    pub series_id: Option<Seq<u32>>,
    pub start: Option<u32>,
    pub order: Option<OrderOption>,
    pub count: Option<u8>,
    pub format: Option<Seq<char>>,
}

impl QueryView {
    /// The criteria with every field unset.
    pub open spec fn empty() -> QueryView {
        QueryView {
            event_id: None,
            keyword: None,
            keyword_or: None,
            ym: None,
            ymd: None,
            nickname: None,
            owner_nickname: None,
            series_id: None,
            start: None,
            order: None,
            count: None,
            format: None,
        }
    }

    /// Whether the fetch count, if set, lies between 1 and 100.
    pub open spec fn count_in_range(self) -> bool {
        self.count matches Some(c) ==> 1 <= c <= 100
    }

    /// Whether the format, if set, is exactly `json`.
    pub open spec fn format_is_json(self) -> bool {
        self.format matches Some(f) ==> f == "json"@
    }

    /// Whether these criteria may be sent: the constrained fields meet their rules.
    pub open spec fn valid(self) -> bool {
        self.count_in_range() && self.format_is_json()
    }

    /// The text of the start offset, if set.
    pub open spec fn start_text(self) -> Option<Seq<char>> {
        match self.start {
            Some(n) => Some(decimal(n as nat)),
            None => None,
        }
    }

    /// The text of the order, if set: the numeral of its code.
    pub open spec fn order_text(self) -> Option<Seq<char>> {
        match self.order {
            Some(o) => Some(decimal(o.code() as nat)),
            None => None,
        }
    }

    /// The text of the fetch count, if set.
    pub open spec fn count_text(self) -> Option<Seq<char>> {
        match self.count {
            Some(c) => Some(decimal(c as nat)),
            None => None,
        }
    }

    /// The request parameters that these criteria flatten to: the fields in
    /// their declared order, a list field once per value, a scalar field at
    /// most once, an unset field not at all.
    pub open spec fn params(self) -> Seq<Param> {
        repeated("event_id"@, numerals(self.event_id))
            + repeated("keyword"@, self.keyword)
            + repeated("keyword_or"@, self.keyword_or)
            + repeated("ym"@, numerals(self.ym))
            + repeated("ymd"@, numerals(self.ymd))
            + repeated("nickname"@, self.nickname)
            + repeated("owner_nickname"@, self.owner_nickname)
            + repeated("series_id"@, numerals(self.series_id))
            + single("start"@, self.start_text())
            + single("order"@, self.order_text())
            + single("count"@, self.count_text())
            + single("format"@, self.format)
    }

    /// The wire keys of the twelve fields, in their declared order.
    pub open spec fn keys() -> Seq<Seq<char>> {
        seq![
            "event_id"@,
            "keyword"@,
            "keyword_or"@,
            "ym"@,
            "ymd"@,
            "nickname"@,
            "owner_nickname"@,
            "series_id"@,
            "start"@,
            "order"@,
            "count"@,
            "format"@,
        ]
    }

    /// Whether the field at position `k` of the declared order is set.
    pub open spec fn is_set(self, k: int) -> bool {
        if k == 0 {
            self.event_id is Some
        } else if k == 1 {
            self.keyword is Some
        } else if k == 2 {
            self.keyword_or is Some
        } else if k == 3 {
            self.ym is Some
        } else if k == 4 {
            self.ymd is Some
        } else if k == 5 {
            self.nickname is Some
        } else if k == 6 {
            self.owner_nickname is Some
        } else if k == 7 {
            self.series_id is Some
        } else if k == 8 {
            self.start is Some
        } else if k == 9 {
            self.order is Some
        } else if k == 10 {
            self.count is Some
        } else {
            self.format is Some
        }
    }

    /// Whether `key` is the wire key of a field that is set.
    pub open spec fn emits(self, key: Seq<char>) -> bool {
        exists|k: int| 0 <= k < 12 && self.is_set(k) && QueryView::keys()[k] == key
    }
}

/// A validated set of search criteria for the event search.
///
/// A query is made by `QueryBuilder::build` or is the empty default; either
/// way its constrained fields meet their rules for as long as it exists.
#[derive(Debug)]
pub struct Query {
    event_id: Option<Vec<u32>>,
    keyword: Option<Vec<String>>,
    keyword_or: Option<Vec<String>>,
    ym: Option<Vec<u32>>,
    ymd: Option<Vec<u32>>,
    nickname: Option<Vec<String>>,
    owner_nickname: Option<Vec<String>>,
    series_id: Option<Vec<u32>>,
    start: Option<u32>,
    order: Option<OrderOption>,
    count: Option<u8>,
    format: Option<String>,
}

impl View for Query {
    type V = QueryView;

    closed spec fn view(&self) -> QueryView {
        QueryView {
            event_id: content(self.event_id),
            keyword: texts_of(self.keyword),
            keyword_or: texts_of(self.keyword_or),
            ym: content(self.ym),
            ymd: content(self.ymd),
            nickname: texts_of(self.nickname),
            owner_nickname: texts_of(self.owner_nickname),
            series_id: content(self.series_id),
            start: self.start,
            order: self.order,
            count: self.count,
            format: text_of(self.format),
        }
    }
}

impl Default for Query {
    fn default() -> (q: Self)
        ensures
            q@ == QueryView::empty(),
    {
        Query {
            event_id: None,
            keyword: None,
            keyword_or: None,
            ym: None,
            ymd: None,
            nickname: None,
            owner_nickname: None,
            series_id: None,
            start: None,
            order: None,
            count: None,
            format: None,
        }
    }
}

impl Query {
    #[verifier::type_invariant]
    spec fn well_formed(&self) -> bool {
        self@.valid()
    }

    /// Flattens the query into the request parameters it stands for.
    pub fn make_reqwest_query(self) -> (queries: Vec<(String, String)>)
        ensures
            self@.valid(),
            queries.deep_view() == self@.params(),
    {
        let ghost view = self@;
        proof {
            use_type_invariant(&self);
        }
        let mut queries = Vec::new();
        proof {
            lemma_rendered_numbers(self.event_id);
            lemma_rendered_numbers(self.ym);
            lemma_rendered_numbers(self.ymd);
            lemma_rendered_numbers(self.series_id);
            lemma_rendered_texts(self.keyword);
            lemma_rendered_texts(self.keyword_or);
            lemma_rendered_texts(self.nickname);
            lemma_rendered_texts(self.owner_nickname);
        }

        assemble_query_param(&mut queries, self.event_id, "event_id");
        assemble_query_param(&mut queries, self.keyword, "keyword");
        assemble_query_param(&mut queries, self.keyword_or, "keyword_or");
        assemble_query_param(&mut queries, self.ym, "ym");
        assemble_query_param(&mut queries, self.ymd, "ymd");
        assemble_query_param(&mut queries, self.nickname, "nickname");
        assemble_query_param(&mut queries, self.owner_nickname, "owner_nickname");
        assemble_query_param(&mut queries, self.series_id, "series_id");
        assemble_single_query_param(&mut queries, self.start, "start");
        let order = match self.order {
            Some(v) => Some(v.to_u8()),
            None => None,
        };
        assemble_single_query_param(&mut queries, order, "order");
        assemble_single_query_param(&mut queries, self.count, "count");
        assemble_single_query_param(&mut queries, self.format, "format");
        assert(queries.deep_view() =~= view.params());

        queries
    }

    /// The event ids, if set.
    pub fn event_id(&self) -> (r: &Option<Vec<u32>>)
        ensures
            content(*r) == self@.event_id,
    {
        &self.event_id
    }

    /// The keywords that an event must match, if set.
    pub fn keyword(&self) -> (r: &Option<Vec<String>>)
        ensures
            texts_of(*r) == self@.keyword,
    {
        &self.keyword
    }

    /// The keywords of which an event must match one, if set.
    pub fn keyword_or(&self) -> (r: &Option<Vec<String>>)
        ensures
            texts_of(*r) == self@.keyword_or,
    {
        &self.keyword_or
    }

    /// The months, if set.
    pub fn ym(&self) -> (r: &Option<Vec<u32>>)
        ensures
            content(*r) == self@.ym,
    {
        &self.ym
    }

    /// The days, if set.
    pub fn ymd(&self) -> (r: &Option<Vec<u32>>)
        ensures
            content(*r) == self@.ymd,
    {
        &self.ymd
    }

    /// The nicknames of participants, if set.
    pub fn nickname(&self) -> (r: &Option<Vec<String>>)
        ensures
            texts_of(*r) == self@.nickname,
    {
        &self.nickname
    }

    /// The nicknames of owners, if set.
    pub fn owner_nickname(&self) -> (r: &Option<Vec<String>>)
        ensures
            texts_of(*r) == self@.owner_nickname,
    {
        &self.owner_nickname
    }

    /// The series ids, if set.
    pub fn series_id(&self) -> (r: &Option<Vec<u32>>)
        ensures
            content(*r) == self@.series_id,
    {
        &self.series_id
    }

    /// The offset of the first event to return, if set.
    pub fn start(&self) -> (r: Option<u32>)
        ensures
            r == self@.start,
    {
        self.start
    }

    /// The order of the events, if set.
    pub fn order(&self) -> (r: Option<OrderOption>)
        ensures
            r == self@.order,
    {
        self.order
    }

    /// The number of events to fetch, if set; it lies between 1 and 100.
    pub fn count(&self) -> (r: Option<u8>)
        ensures
            r == self@.count,
            r matches Some(c) ==> 1 <= c <= 100,
    {
        proof {
            use_type_invariant(self);
        }
        self.count
    }

    /// The response format, if set; it is `json`.
    pub fn format(&self) -> (r: &Option<String>)
        ensures
            text_of(*r) == self@.format,
            *r matches Some(f) ==> f@ == "json"@,
    {
        proof {
            use_type_invariant(self);
        }
        &self.format
    }
}

/// The texts of a list field of numbers are the numerals of its content.
proof fn lemma_rendered_numbers(field: Option<Vec<u32>>)
    ensures
        rendered_list(field) == numerals(content(field)),
{
    if let Some(v) = field {
        assert(rendered_each(v@) =~= numerals(Some(v@))->0);
    }
}

/// The texts of a list field of texts are its content.
proof fn lemma_rendered_texts(field: Option<Vec<String>>)
    ensures
        rendered_list(field) == texts_of(field),
{
    if let Some(v) = field {
        assert(rendered_each(v@) =~= texts_of(field)->0);
    }
}

/// No two fields share a wire key.
pub proof fn lemma_keys_distinct()
    ensures
        QueryView::keys().len() == 12,
        QueryView::keys().no_duplicates(),
{
    reveal_strlit("event_id");
    reveal_strlit("keyword");
    reveal_strlit("keyword_or");
    reveal_strlit("ym");
    reveal_strlit("ymd");
    reveal_strlit("nickname");
    reveal_strlit("owner_nickname");
    reveal_strlit("series_id");
    reveal_strlit("start");
    reveal_strlit("order");
    reveal_strlit("count");
    reveal_strlit("format");
    let keys = QueryView::keys();
    assert forall|i: int, j: int| 0 <= i < 12 && 0 <= j < 12 && i != j implies keys[i]
        != keys[j] by {
        assert(keys[i].len() != keys[j].len() || keys[i][0] != keys[j][0]);
    }
}

/// Every parameter that a query flattens to stands under the key of a field that is set.
pub proof fn lemma_params_come_from_set_fields(criteria: QueryView, i: int)
    requires
        0 <= i < criteria.params().len(),
    ensures
        criteria.emits(criteria.params()[i].0),
{
    let keys = QueryView::keys();
    let s0 = repeated(keys[0], numerals(criteria.event_id));
    let s1 = repeated(keys[1], criteria.keyword);
    let s2 = repeated(keys[2], criteria.keyword_or);
    let s3 = repeated(keys[3], numerals(criteria.ym));
    let s4 = repeated(keys[4], numerals(criteria.ymd));
    let s5 = repeated(keys[5], criteria.nickname);
    let s6 = repeated(keys[6], criteria.owner_nickname);
    let s7 = repeated(keys[7], numerals(criteria.series_id));
    let s8 = single(keys[8], criteria.start_text());
    let s9 = single(keys[9], criteria.order_text());
    let s10 = single(keys[10], criteria.count_text());
    let s11 = single(keys[11], criteria.format);
    let key = criteria.params()[i].0;
    let n0 = s0.len();
    let n1 = n0 + s1.len();
    let n2 = n1 + s2.len();
    let n3 = n2 + s3.len();
    let n4 = n3 + s4.len();
    let n5 = n4 + s5.len();
    let n6 = n5 + s6.len();
    let n7 = n6 + s7.len();
    let n8 = n7 + s8.len();
    let n9 = n8 + s9.len();
    let n10 = n9 + s10.len();
    if i < n0 {
        assert(criteria.is_set(0) && keys[0] == key);
    } else if i < n1 {
        assert(criteria.is_set(1) && keys[1] == key);
    } else if i < n2 {
        assert(criteria.is_set(2) && keys[2] == key);
    } else if i < n3 {
        assert(criteria.is_set(3) && keys[3] == key);
    } else if i < n4 {
        assert(criteria.is_set(4) && keys[4] == key);
    } else if i < n5 {
        assert(criteria.is_set(5) && keys[5] == key);
    } else if i < n6 {
        assert(criteria.is_set(6) && keys[6] == key);
    } else if i < n7 {
        assert(criteria.is_set(7) && keys[7] == key);
    } else if i < n8 {
        assert(criteria.is_set(8) && keys[8] == key);
    } else if i < n9 {
        assert(criteria.is_set(9) && keys[9] == key);
    } else if i < n10 {
        assert(criteria.is_set(10) && keys[10] == key);
    } else {
        assert(criteria.is_set(11) && keys[11] == key);
    }
}

/// A field that is unset never appears among the parameters: no parameter
/// stands under its key.
pub proof fn lemma_unset_field_emits_nothing(criteria: QueryView, k: int, i: int)
    requires
        0 <= k < 12,
        !criteria.is_set(k),
        0 <= i < criteria.params().len(),
    ensures
        criteria.params()[i].0 != QueryView::keys()[k],
{
    lemma_params_come_from_set_fields(criteria, i);
    lemma_keys_distinct();
}

/// Criteria with every field unset flatten to no parameters at all.
pub proof fn lemma_empty_query_has_no_params()
    ensures
        QueryView::empty().params() == Seq::<Param>::empty(),
{
}

/// Pairs a key with the text of a value.
pub fn make_elem<T: ParamValue>(key: &str, value: T) -> (elem: (String, String))
    ensures
        elem.0@ == key@,
        elem.1@ == value.rendered(),
{
    (key.to_owned(), value.to_param())
}

/// Appends the parameters of a list field to `queries`.
pub fn assemble_query_param<T: ParamValue>(
    queries: &mut Vec<(String, String)>,
    source: Option<Vec<T>>,
    query_key: &str,
)
    ensures
        final(queries).deep_view() == old(queries).deep_view() + repeated(
            query_key@,
            rendered_list(source),
        ),
{
    if let Some(elems) = source {
        let ghost before = queries.deep_view();
        let ghost texts = rendered_each(elems@);
        for elem in it: elems
            invariant
                it.seq() == elems@,
                texts == rendered_each(elems@),
                queries.deep_view() == before + repeated(
                    query_key@,
                    Some(texts.take(it.index() as int)),
                ),
        {
            let ghost done = queries.deep_view();
            queries.push(make_elem(query_key, elem));
            assert(queries.deep_view() =~= done.push((query_key@, elem.rendered())));
        }
    }
}

/// Appends the parameter of a scalar field to `queries`.
pub fn assemble_single_query_param<T: ParamValue>(
    queries: &mut Vec<(String, String)>,
    source: Option<T>,
    query_key: &str,
)
    ensures
        final(queries).deep_view() == old(queries).deep_view() + single(
            query_key@,
            rendered_single(source),
        ),
{
    if let Some(elem) = source {
        queries.push(make_elem(query_key, elem));
    }
}

} // verus!
