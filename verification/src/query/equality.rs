//! Equality of queries: two queries are equal when every field holds the same criteria.

use vstd::prelude::*;
use vstd::std_specs::cmp::PartialEqSpecImpl;
use crate::query::types::OrderOption;
use crate::query::{content, text_of, texts_of, Query};

verus! {

/// Whether two list fields of numbers hold the same content.
fn same_numbers(a: &Option<Vec<u32>>, b: &Option<Vec<u32>>) -> (r: bool)
    ensures
        r == (content(*a) == content(*b)),
{
    match a {
        Some(x) => match b {
            Some(y) => {
                if x.len() != y.len() {
                    return false;
                }
                let mut i: usize = 0;
                while i < x.len()
                    invariant
                        i <= x.len(),
                        x.len() == y.len(),
                        *a == Some(*x),
                        *b == Some(*y),
                        forall|j: int| 0 <= j < i ==> x@[j] == y@[j],
                    decreases x.len() - i,
                {
                    if x[i] != y[i] {
                        assert(x@[i as int] != y@[i as int]);
                        return false;
                    }
                    i += 1;
                }
                assert(x@ =~= y@);
                true
            },
            None => false,
        },
        None => b.is_none(),
    }
}

/// Whether two text fields hold the same content.
fn same_text(a: &Option<String>, b: &Option<String>) -> (r: bool)
    ensures
        r == (text_of(*a) == text_of(*b)),
{
    match a {
        Some(x) => match b {
            Some(y) => *x == *y,
            None => false,
        },
        None => b.is_none(),
    }
}

/// Whether two list fields of texts hold the same content.
fn same_texts(a: &Option<Vec<String>>, b: &Option<Vec<String>>) -> (r: bool)
    ensures
        r == (texts_of(*a) == texts_of(*b)),
{
    match a {
        Some(x) => match b {
            Some(y) => {
                let ghost xs = texts_of(*a)->0;
                let ghost ys = texts_of(*b)->0;
                if x.len() != y.len() {
                    assert(xs.len() != ys.len());
                    return false;
                }
                let mut i: usize = 0;
                while i < x.len()
                    invariant
                        i <= x.len(),
                        x.len() == y.len(),
                        xs == texts_of(*a)->0,
                        ys == texts_of(*b)->0,
                        *a == Some(*x),
                        *b == Some(*y),
                        forall|j: int| 0 <= j < i ==> xs[j] == ys[j],
                    decreases x.len() - i,
                {
                    if !(x[i] == y[i]) {
                        assert(xs[i as int] != ys[i as int]);
                        return false;
                    }
                    i += 1;
                }
                assert(xs =~= ys);
                true
            },
            None => false,
        },
        None => b.is_none(),
    }
}

/// Whether two order fields hold the same order.
fn same_order(a: Option<OrderOption>, b: Option<OrderOption>) -> (r: bool)
    ensures
        r == (a == b),
{
    match a {
        Some(x) => match b {
            Some(y) => x == y,
            None => false,
        },
        None => b.is_none(),
    }
}

impl PartialEq for Query {
    fn eq(&self, other: &Self) -> (r: bool) {
        same_numbers(&self.event_id, &other.event_id)
            && same_texts(&self.keyword, &other.keyword)
            && same_texts(&self.keyword_or, &other.keyword_or)
            && same_numbers(&self.ym, &other.ym)
            && same_numbers(&self.ymd, &other.ymd)
            && same_texts(&self.nickname, &other.nickname)
            && same_texts(&self.owner_nickname, &other.owner_nickname)
            && same_numbers(&self.series_id, &other.series_id)
            && self.start == other.start
            && same_order(self.order, other.order)
            && self.count == other.count
            && same_text(&self.format, &other.format)
    }
}

/// Queries are equal exactly when they hold the same criteria.
impl PartialEqSpecImpl for Query {
    open spec fn obeys_eq_spec() -> bool {
        true
    }

    open spec fn eq_spec(&self, other: &Self) -> bool {
        self@ == other@
    }
}

} // verus!
