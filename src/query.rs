//! Range queries: bounds, sample filters, a result cap and an optional
//! aggregation clause with its alignment, bucket-timestamp and empty-bucket
//! options.

use crate::args::{Integer, TsAggregationType, TsAlign, TsBucketTimestamp};
use crate::tokens::{int_text, nat_text, push_str, push_unsigned, toks};
use vstd::prelude::*;
use vstd::std_specs::convert::FromSpec;
use vstd::string::StringExecFns;
use vstd::utf8::encode_utf8;

verus! {

/// One decimal token per integer.
pub open spec fn ints_tokens(v: Seq<Integer>) -> Seq<Seq<u8>> {
    v.map_values(|i: Integer| int_text(i.value()))
}

/// What a `TsRangeQuery` holds. The value-range bounds are held as the
/// decimal text of the two numbers.
pub struct RangeQueryView {
    pub from: Option<Integer>,
    pub to: Option<Integer>,
    pub latest: bool,
    pub filter_by_ts: Seq<Integer>,
    pub filter_by_value: Option<(Seq<char>, Seq<char>)>,
    pub count: Option<u64>,
    pub align: Option<TsAlign>,
    pub aggregation_type: Option<TsAggregationType>,
    pub bucket_timestamp: Option<TsBucketTimestamp>,
    pub empty: bool,
}

impl RangeQueryView {
    /// Nothing set.
    pub open spec fn empty_query() -> RangeQueryView {
        RangeQueryView {
            from: None,
            to: None,
            latest: false,
            filter_by_ts: seq![],
            filter_by_value: None,
            count: None,
            align: None,
            aggregation_type: None,
            bucket_timestamp: None,
            empty: false,
        }
    }

    /// `from to [LATEST]`, with `-` and `+` for absent bounds.
    pub open spec fn bounds_tokens(self) -> Seq<Seq<u8>> {
        (match self.from {
            Some(i) => i.spec_tokens(),
            None => seq![encode_utf8("-"@)],
        }) + (match self.to {
            Some(i) => i.spec_tokens(),
            None => seq![encode_utf8("+"@)],
        }) + (if self.latest {
            seq![encode_utf8("LATEST"@)]
        } else {
            seq![]
        })
    }

    /// `[FILTER_BY_TS ts...]`, left out when no timestamp is given.
    pub open spec fn ts_filter_tokens(self) -> Seq<Seq<u8>> {
        if self.filter_by_ts.len() > 0 {
            seq![encode_utf8("FILTER_BY_TS"@)] + ints_tokens(self.filter_by_ts)
        } else {
            seq![]
        }
    }

    /// `[FILTER_BY_VALUE min max] [COUNT n]`.
    pub open spec fn value_count_tokens(self) -> Seq<Seq<u8>> {
        (match self.filter_by_value {
            Some(b) => seq![encode_utf8("FILTER_BY_VALUE"@), encode_utf8(b.0), encode_utf8(b.1)],
            None => seq![],
        }) + (match self.count {
            Some(n) => seq![encode_utf8("COUNT"@), nat_text(n as nat)],
            None => seq![],
        })
    }

    /// Everything before the aggregation clause.
    pub open spec fn head_tokens(self) -> Seq<Seq<u8>> {
        self.bounds_tokens() + self.ts_filter_tokens() + self.value_count_tokens()
    }

    /// `[ALIGN a] AGGREGATION kind bucket [BUCKETTIMESTAMP b] [EMPTY]` when an
    /// aggregation is set; nothing otherwise.
    pub open spec fn aggregation_tokens(self) -> Seq<Seq<u8>> {
        match self.aggregation_type {
            None => seq![],
            Some(a) => (match self.align {
                Some(al) => al.spec_tokens(),
                None => seq![],
            }) + a.spec_tokens() + (match self.bucket_timestamp {
                Some(b) => b.spec_tokens(),
                None => seq![],
            }) + (if self.empty {
                seq![encode_utf8("EMPTY"@)]
            } else {
                seq![]
            }),
        }
    }

    /// The whole query.
    pub open spec fn tokens(self) -> Seq<Seq<u8>> {
        self.head_tokens() + self.aggregation_tokens()
    }
}

/// A range query over one or many series, built by chained setters.
#[derive(Debug, Clone)]
pub struct TsRangeQuery {
    from: Option<Integer>,
    to: Option<Integer>,
    latest: bool,
    filter_by_ts: Vec<Integer>,
    filter_by_value: Option<(String, String)>,
    count: Option<u64>,
    align: Option<TsAlign>,
    aggregation_type: Option<TsAggregationType>,
    bucket_timestamp: Option<TsBucketTimestamp>,
    empty: bool,
}

impl View for TsRangeQuery {
    type V = RangeQueryView;

    closed spec fn view(&self) -> RangeQueryView {
        RangeQueryView {
            from: self.from,
            to: self.to,
            latest: self.latest,
            filter_by_ts: self.filter_by_ts@,
            filter_by_value: match self.filter_by_value {
                Some(b) => Some((b.0@, b.1@)),
                None => None,
            },
            count: self.count,
            align: self.align,
            aggregation_type: self.aggregation_type,
            bucket_timestamp: self.bucket_timestamp,
            empty: self.empty,
        }
    }
}

impl Default for TsRangeQuery {
    fn default() -> (r: TsRangeQuery)
        ensures
            r@ == RangeQueryView::empty_query(),
    {
        let r = TsRangeQuery {
            from: None,
            to: None,
            latest: false,
            filter_by_ts: Vec::new(),
            filter_by_value: None,
            count: None,
            align: None,
            aggregation_type: None,
            bucket_timestamp: None,
            empty: false,
        };
        assert(r@.filter_by_ts =~= seq![]);
        r
    }
}

impl TsRangeQuery {
    /// Start of the range; `-` (the earliest sample) when never set.
    pub fn from<T>(self, from: T) -> (r: Self) where Integer: From<T>
        requires
            <Integer as FromSpec<T>>::obeys_from_spec(),
        ensures
            r@ == (RangeQueryView { from: Some(Integer::from_spec(from)), ..self@ }),
    {
        let mut s = self;
        s.from = Some(Integer::from(from));
        s
    }

    /// End of the range; `+` (the latest sample) when never set.
    pub fn to<T>(self, to: T) -> (r: Self) where Integer: From<T>
        requires
            <Integer as FromSpec<T>>::obeys_from_spec(),
        ensures
            r@ == (RangeQueryView { to: Some(Integer::from_spec(to)), ..self@ }),
    {
        let mut s = self;
        s.to = Some(Integer::from(to));
        s
    }

    /// Sets the `LATEST` flag.
    pub fn latest(self, latest: bool) -> (r: Self)
        ensures
            r@ == (RangeQueryView { latest, ..self@ }),
    {
        let mut s = self;
        s.latest = latest;
        s
    }

    /// Keeps only samples at the given timestamps; an empty list leaves the
    /// clause out.
    pub fn filter_by_ts<T: Copy>(self, ts: Vec<T>) -> (r: Self) where Integer: From<T>
        requires
            <Integer as FromSpec<T>>::obeys_from_spec(),
        ensures
            r@ == (RangeQueryView {
                filter_by_ts: ts@.map_values(|t: T| Integer::from_spec(t)),
                ..self@
            }),
    {
        let mut v: Vec<Integer> = Vec::new();
        let mut i: usize = 0;
        while i < ts.len()
            invariant
                i <= ts@.len(),
                <Integer as FromSpec<T>>::obeys_from_spec(),
                v@ =~= ts@.subrange(0, i as int).map_values(|t: T| Integer::from_spec(t)),
            decreases ts@.len() - i,
        {
            v.push(Integer::from(ts[i]));
            assert(ts@.subrange(0, i + 1).map_values(|t: T| Integer::from_spec(t))
                =~= ts@.subrange(0, i as int).map_values(|t: T| Integer::from_spec(t)).push(
                Integer::from_spec(ts@[i as int]),
            ));
            i = i + 1;
        }
        assert(ts@.subrange(0, ts@.len() as int) =~= ts@);
        let mut s = self;
        s.filter_by_ts = v;
        s
    }

    /// Keeps only samples whose value lies between `min` and `max`, given
    /// as the decimal text of the two numbers.
    pub fn filter_by_value(self, min: &str, max: &str) -> (r: Self)
        ensures
            r@ == (RangeQueryView { filter_by_value: Some((min@, max@)), ..self@ }),
    {
        let mut s = self;
        s.filter_by_value = Some((String::from_str(min), String::from_str(max)));
        s
    }

    /// Caps the number of samples returned.
    pub fn count(self, count: u64) -> (r: Self)
        ensures
            r@ == (RangeQueryView { count: Some(count), ..self@ }),
    {
        let mut s = self;
        s.count = Some(count);
        s
    }

    /// Sets the bucket alignment; it is sent only with an aggregation.
    pub fn align(self, align: TsAlign) -> (r: Self)
        ensures
            r@ == (RangeQueryView { align: Some(align), ..self@ }),
    {
        let mut s = self;
        s.align = Some(align);
        s
    }

    /// Sets the aggregation and its bucket size.
    pub fn aggregation_type(self, aggregation_type: TsAggregationType) -> (r: Self)
        ensures
            r@ == (RangeQueryView { aggregation_type: Some(aggregation_type), ..self@ }),
    {
        let mut s = self;
        s.aggregation_type = Some(aggregation_type);
        s
    }

    /// Sets how bucket timestamps are reported; sent only with an aggregation.
    pub fn bucket_timestamp(self, bucket_timestamp: TsBucketTimestamp) -> (r: Self)
        ensures
            r@ == (RangeQueryView { bucket_timestamp: Some(bucket_timestamp), ..self@ }),
    {
        let mut s = self;
        s.bucket_timestamp = Some(bucket_timestamp);
        s
    }

    /// Sets the `EMPTY` flag (report empty buckets); sent only with an
    /// aggregation.
    pub fn empty(self, empty: bool) -> (r: Self)
        ensures
            r@ == (RangeQueryView { empty, ..self@ }),
    {
        let mut s = self;
        s.empty = empty;
        s
    }

    fn write_bounds(&self, out: &mut Vec<Vec<u8>>)
        ensures
            toks(final(out)@) == toks(old(out)@) + self@.bounds_tokens(),
    {
        match self.from {
            Some(i) => i.write_args(out),
            None => push_str("-", out),
        }
        match self.to {
            Some(i) => i.write_args(out),
            None => push_str("+", out),
        }
        if self.latest {
            push_str("LATEST", out);
        }
        assert(toks(final(out)@) =~= toks(old(out)@) + self@.bounds_tokens());
    }

    fn write_ts_filter(&self, out: &mut Vec<Vec<u8>>)
        ensures
            toks(final(out)@) == toks(old(out)@) + self@.ts_filter_tokens(),
    {
        if self.filter_by_ts.len() > 0 {
            push_str("FILTER_BY_TS", out);
            let ghost head = toks(out@);
            let ghost ts = self.filter_by_ts@;
            let mut i: usize = 0;
            while i < self.filter_by_ts.len()
                invariant
                    i <= ts.len(),
                    ts == self.filter_by_ts@,
                    toks(out@) == head + ints_tokens(ts.subrange(0, i as int)),
                decreases ts.len() - i,
            {
                self.filter_by_ts[i].write_args(out);
                assert(ints_tokens(ts.subrange(0, i + 1)) =~= ints_tokens(
                    ts.subrange(0, i as int),
                ).push(int_text(ts[i as int].value())));
                i = i + 1;
            }
            assert(ts.subrange(0, ts.len() as int) =~= ts);
        }
        assert(toks(final(out)@) =~= toks(old(out)@) + self@.ts_filter_tokens());
    }

    fn write_value_count(&self, out: &mut Vec<Vec<u8>>)
        ensures
            toks(final(out)@) == toks(old(out)@) + self@.value_count_tokens(),
    {
        if let Some(b) = &self.filter_by_value {
            push_str("FILTER_BY_VALUE", out);
            push_str(b.0.as_str(), out);
            push_str(b.1.as_str(), out);
        }
        if let Some(n) = self.count {
            push_str("COUNT", out);
            push_unsigned(n, out);
        }
        assert(toks(final(out)@) =~= toks(old(out)@) + self@.value_count_tokens());
    }

    fn write_aggregation(&self, out: &mut Vec<Vec<u8>>)
        ensures
            toks(final(out)@) == toks(old(out)@) + self@.aggregation_tokens(),
    {
        if let Some(a) = self.aggregation_type {
            if let Some(al) = self.align {
                al.write_args(out);
            }
            a.write_args(out);
            if let Some(b) = self.bucket_timestamp {
                b.write_args(out);
            }
            if self.empty {
                push_str("EMPTY", out);
            }
        }
        assert(toks(final(out)@) =~= toks(old(out)@) + self@.aggregation_tokens());
    }

    /// Appends the query's tokens in the order the server expects.
    pub fn write_args(&self, out: &mut Vec<Vec<u8>>)
        ensures
            toks(final(out)@) == toks(old(out)@) + self@.tokens(),
    {
        self.write_bounds(out);
        self.write_ts_filter(out);
        self.write_value_count(out);
        self.write_aggregation(out);
        assert(toks(final(out)@) =~= toks(old(out)@) + self@.tokens());
    }

    /// The query's tokens as a fresh list.
    pub fn to_args(&self) -> (r: Vec<Vec<u8>>)
        ensures
            toks(r@) == self@.tokens(),
    {
        let mut out: Vec<Vec<u8>> = Vec::new();
        self.write_args(&mut out);
        assert(toks(Seq::<Vec<u8>>::empty()) =~= seq![]);
        assert(toks(out@) =~= self@.tokens());
        out
    }
}

} // verus!
