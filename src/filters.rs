//! Label filters: predicates over a label's value, rendered as
//! `name=value` or `name!=value` tokens after `[WITHLABELS] FILTER`.

use crate::tokens::{push_str, toks};
use vstd::prelude::*;
use vstd::string::StringExecFns;
use vstd::utf8::encode_utf8;

verus! {

#[derive(PartialEq, Eq, Clone, Debug, Copy)]
enum TsCompare {
    Eq,
    NotEq,
}

/// What a `TsFilter` holds: a label name, the value (or parenthesised value
/// list) it is compared with, and whether the comparison is `!=`.
pub struct FilterView {
    pub name: Seq<char>,
    pub value: Seq<char>,
    pub negated: bool,
}

impl FilterView {
    /// `name=value`, or `name!=value` when negated.
    pub open spec fn text(self) -> Seq<char> {
        self.name + (if self.negated {
            "!="@
        } else {
            "="@
        }) + self.value
    }
}

/// Values joined by commas.
pub open spec fn joined(vs: Seq<Seq<char>>) -> Seq<char>
    decreases vs.len(),
{
    if vs.len() == 0 {
        seq![]
    } else if vs.len() == 1 {
        vs[0]
    } else {
        joined(vs.drop_last()) + ","@ + vs.last()
    }
}

/// A value list as written in a set-membership predicate: `(v1,v2,...)`.
pub open spec fn set_text(vs: Seq<Seq<char>>) -> Seq<char> {
    "("@ + joined(vs) + ")"@
}

/// The text of each string.
pub open spec fn strs_view(v: Seq<&str>) -> Seq<Seq<char>> {
    v.map_values(|s: &str| s@)
}

/// One label predicate.
#[derive(Debug, Clone)]
pub struct TsFilter {
    name: String,
    value: String,
    compare: TsCompare,
}

impl View for TsFilter {
    type V = FilterView;

    closed spec fn view(&self) -> FilterView {
        FilterView {
            name: self.name@,
            value: self.value@,
            negated: self.compare == TsCompare::NotEq,
        }
    }
}

impl TsFilter {
    fn new(name: &str, value: String, negated: bool) -> (r: TsFilter)
        ensures
            r@ == (FilterView { name: name@, value: value@, negated }),
    {
        TsFilter {
            name: String::from_str(name),
            value,
            compare: if negated {
                TsCompare::NotEq
            } else {
                TsCompare::Eq
            },
        }
    }

    /// Appends the predicate as one token.
    pub fn write_args(&self, out: &mut Vec<Vec<u8>>)
        ensures
            toks(final(out)@) == toks(old(out)@).push(encode_utf8(self@.text())),
    {
        let mut s = self.name.clone();
        match self.compare {
            TsCompare::Eq => s.append("="),
            TsCompare::NotEq => s.append("!="),
        }
        s.append(self.value.as_str());
        assert(s@ == self@.text());
        push_str(s.as_str(), out);
    }
}

/// `(v1,v2,...)` for the given values.
fn set_value(values: &Vec<&str>) -> (r: String)
    ensures
        r@ == set_text(strs_view(values@)),
{
    let ghost vs = strs_view(values@);
    let mut s = String::from_str("(");
    let mut i: usize = 0;
    while i < values.len()
        invariant
            i <= values@.len(),
            vs == strs_view(values@),
            s@ == "("@ + joined(vs.subrange(0, i as int)),
        decreases values@.len() - i,
    {
        let ghost prev = s@;
        if i > 0 {
            s.append(",");
        }
        s.append(values[i]);
        assert(vs.subrange(0, i + 1).drop_last() =~= vs.subrange(0, i as int));
        if i == 0 {
            assert(s@ =~= "("@ + joined(vs.subrange(0, i + 1)));
        } else {
            assert(s@ =~= "("@ + joined(vs.subrange(0, i + 1)));
        }
        i = i + 1;
    }
    assert(vs.subrange(0, values@.len() as int) =~= vs);
    s.append(")");
    s
}

/// What a `TsFilterOptions` holds.
pub struct FilterOptionsView {
    pub with_labels: bool,
    pub filters: Seq<FilterView>,
}

/// The predicate tokens, one per filter.
pub open spec fn filter_tokens(fs: Seq<FilterView>) -> Seq<Seq<u8>> {
    fs.map_values(|f: FilterView| encode_utf8(f.text()))
}

impl FilterOptionsView {
    /// `[WITHLABELS] FILTER pred ...`.
    pub open spec fn tokens(self) -> Seq<Seq<u8>> {
        (if self.with_labels {
            seq![encode_utf8("WITHLABELS"@)]
        } else {
            seq![]
        }) + seq![encode_utf8("FILTER"@)] + filter_tokens(self.filters)
    }

    /// The same options with one more predicate at the end.
    pub open spec fn and(self, f: FilterView) -> FilterOptionsView {
        FilterOptionsView { filters: self.filters.push(f), ..self }
    }
}

/// Label filters for the multi-series commands, and whether replies carry
/// the series' labels. The commands need at least one predicate; that is left
/// to the caller.
#[derive(Debug, Clone)]
pub struct TsFilterOptions {
    with_labels: bool,
    filters: Vec<TsFilter>,
}

impl View for TsFilterOptions {
    type V = FilterOptionsView;

    closed spec fn view(&self) -> FilterOptionsView {
        FilterOptionsView {
            with_labels: self.with_labels,
            filters: self.filters@.map_values(|f: TsFilter| f@),
        }
    }
}

impl Default for TsFilterOptions {
    fn default() -> (r: TsFilterOptions)
        ensures
            r@ == (FilterOptionsView { with_labels: false, filters: seq![] }),
    {
        let r = TsFilterOptions { with_labels: false, filters: Vec::new() };
        assert(r@.filters =~= seq![]);
        r
    }
}

impl TsFilterOptions {
    fn add(self, f: TsFilter) -> (r: Self)
        ensures
            r@ == self@.and(f@),
    {
        let mut s = self;
        s.filters.push(f);
        assert(s@.filters =~= self@.filters.push(f@));
        s
    }

    /// Sets whether replies carry each series' labels.
    pub fn with_labels(self, value: bool) -> (r: Self)
        ensures
            r@ == (FilterOptionsView { with_labels: value, ..self@ }),
    {
        let mut s = self;
        s.with_labels = value;
        s
    }

    /// Series whose label `name` equals `value`.
    pub fn equals(self, name: &str, value: &str) -> (r: Self)
        ensures
            r@ == self@.and(FilterView { name: name@, value: value@, negated: false }),
    {
        self.add(TsFilter::new(name, String::from_str(value), false))
    }

    /// Series whose label `name` differs from `value`.
    pub fn not_equals(self, name: &str, value: &str) -> (r: Self)
        ensures
            r@ == self@.and(FilterView { name: name@, value: value@, negated: true }),
    {
        self.add(TsFilter::new(name, String::from_str(value), true))
    }

    /// Series whose label `name` is one of `values`.
    pub fn in_set(self, name: &str, values: Vec<&str>) -> (r: Self)
        ensures
            r@ == self@.and(
                FilterView { name: name@, value: set_text(strs_view(values@)), negated: false },
            ),
    {
        self.add(TsFilter::new(name, set_value(&values), false))
    }

    /// Series whose label `name` is none of `values`.
    pub fn not_in_set(self, name: &str, values: Vec<&str>) -> (r: Self)
        ensures
            r@ == self@.and(
                FilterView { name: name@, value: set_text(strs_view(values@)), negated: true },
            ),
    {
        self.add(TsFilter::new(name, set_value(&values), true))
    }

    /// Series that have the label `name`: written `name!=`.
    pub fn has_label(self, name: &str) -> (r: Self)
        ensures
            r@ == self@.and(FilterView { name: name@, value: seq![], negated: true }),
    {
        self.add(TsFilter::new(name, String::new(), true))
    }

    /// Series that lack the label `name`: written `name=`.
    pub fn not_has_label(self, name: &str) -> (r: Self)
        ensures
            r@ == self@.and(FilterView { name: name@, value: seq![], negated: false }),
    {
        self.add(TsFilter::new(name, String::new(), false))
    }

    /// The predicates, in the order they were added.
    pub fn get_filters(self) -> (r: Vec<TsFilter>)
        ensures
            r@.map_values(|f: TsFilter| f@) == self@.filters,
    {
        self.filters
    }

    /// Appends `[WITHLABELS] FILTER pred ...`.
    pub fn write_args(&self, out: &mut Vec<Vec<u8>>)
        ensures
            toks(final(out)@) == toks(old(out)@) + self@.tokens(),
    {
        if self.with_labels {
            push_str("WITHLABELS", out);
        }
        push_str("FILTER", out);
        let ghost head = toks(out@);
        let ghost fs = self@.filters;
        let mut i: usize = 0;
        while i < self.filters.len()
            invariant
                i <= self.filters@.len(),
                fs == self@.filters,
                toks(out@) == head + filter_tokens(fs.subrange(0, i as int)),
            decreases self.filters@.len() - i,
        {
            self.filters[i].write_args(out);
            assert(filter_tokens(fs.subrange(0, i + 1)) =~= filter_tokens(
                fs.subrange(0, i as int),
            ).push(encode_utf8(fs[i as int].text())));
            i = i + 1;
        }
        assert(fs.subrange(0, fs.len() as int) =~= fs);
        assert(toks(final(out)@) =~= toks(old(out)@) + self@.tokens());
    }

    /// The filter clause as a fresh token list.
    pub fn to_args(&self) -> (r: Vec<Vec<u8>>)
        ensures
            toks(r@) == self@.tokens(),
    {
        let mut out: Vec<Vec<u8>> = Vec::new();
        self.write_args(&mut out);
        assert(toks(Seq::<Vec<u8>>::empty()) =~= seq![]);
        assert(toks(out@) =~= self@.tokens());
        out
    }
}

} // verus!
