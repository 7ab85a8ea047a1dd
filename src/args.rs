//! The small closed enumerations of a query and their clauses.

use crate::tokens::{push_signed, push_str, push_unsigned, toks, int_text, nat_text};
use vstd::prelude::*;
use vstd::utf8::encode_utf8;

verus! {

/// An aggregation kind together with its time bucket in milliseconds.
#[derive(PartialEq, Eq, Clone, Debug, Copy)]
pub enum TsAggregationType {
    Avg(u64),
    Sum(u64),
    Min(u64),
    Max(u64),
    Range(u64),
    Count(u64),
    First(u64),
    Last(u64),
    StdP(u64),
    StdS(u64),
    VarP(u64),
    VarS(u64),
    Twa(u64),
}

impl TsAggregationType {
    /// The wire name of the aggregation kind.
    pub open spec fn kind_text(self) -> Seq<u8> {
        match self {
            TsAggregationType::Avg(_) => encode_utf8("avg"@),
            TsAggregationType::Sum(_) => encode_utf8("sum"@),
            TsAggregationType::Min(_) => encode_utf8("min"@),
            TsAggregationType::Max(_) => encode_utf8("max"@),
            TsAggregationType::Range(_) => encode_utf8("range"@),
            TsAggregationType::Count(_) => encode_utf8("count"@),
            TsAggregationType::First(_) => encode_utf8("first"@),
            TsAggregationType::Last(_) => encode_utf8("last"@),
            TsAggregationType::StdP(_) => encode_utf8("std.p"@),
            TsAggregationType::StdS(_) => encode_utf8("std.s"@),
            TsAggregationType::VarP(_) => encode_utf8("var.p"@),
            TsAggregationType::VarS(_) => encode_utf8("var.s"@),
            TsAggregationType::Twa(_) => encode_utf8("twa"@),
        }
    }

    /// The time bucket in milliseconds.
    pub open spec fn bucket(self) -> u64 {
        match self {
            TsAggregationType::Avg(v) => v,
            TsAggregationType::Sum(v) => v,
            TsAggregationType::Min(v) => v,
            TsAggregationType::Max(v) => v,
            TsAggregationType::Range(v) => v,
            TsAggregationType::Count(v) => v,
            TsAggregationType::First(v) => v,
            TsAggregationType::Last(v) => v,
            TsAggregationType::StdP(v) => v,
            TsAggregationType::StdS(v) => v,
            TsAggregationType::VarP(v) => v,
            TsAggregationType::VarS(v) => v,
            TsAggregationType::Twa(v) => v,
        }
    }

    /// `AGGREGATION <kind> <bucket>`.
    pub open spec fn spec_tokens(self) -> Seq<Seq<u8>> {
        seq![encode_utf8("AGGREGATION"@), self.kind_text(), nat_text(self.bucket() as nat)]
    }

    /// Appends the `AGGREGATION` clause.
    pub fn write_args(&self, out: &mut Vec<Vec<u8>>)
        ensures
            toks(final(out)@) == toks(old(out)@) + self.spec_tokens(),
    {
        let (t, v) = match *self {
            TsAggregationType::Avg(v) => ("avg", v),
            TsAggregationType::Sum(v) => ("sum", v),
            TsAggregationType::Min(v) => ("min", v),
            TsAggregationType::Max(v) => ("max", v),
            TsAggregationType::Range(v) => ("range", v),
            TsAggregationType::Count(v) => ("count", v),
            TsAggregationType::First(v) => ("first", v),
            TsAggregationType::Last(v) => ("last", v),
            TsAggregationType::StdP(v) => ("std.p", v),
            TsAggregationType::StdS(v) => ("std.s", v),
            TsAggregationType::VarP(v) => ("var.p", v),
            TsAggregationType::VarS(v) => ("var.s", v),
            TsAggregationType::Twa(v) => ("twa", v),
        };
        assert(encode_utf8(t@) == self.kind_text() && v == self.bucket());
        push_str("AGGREGATION", out);
        push_str(t, out);
        push_unsigned(v, out);
        assert(toks(final(out)@) =~= toks(old(out)@) + self.spec_tokens());
    }
}

/// Where aggregation buckets are anchored: the query start, the query end,
/// or a given timestamp.
#[derive(PartialEq, Eq, Clone, Copy, Debug)]
pub enum TsAlign {
    Start,
    End,
    Ts(u64),
}

impl TsAlign {
    /// `ALIGN <anchor>`.
    pub open spec fn spec_tokens(self) -> Seq<Seq<u8>> {
        seq![
            encode_utf8("ALIGN"@),
            match self {
                TsAlign::Start => encode_utf8("-"@),
                TsAlign::End => encode_utf8("+"@),
                TsAlign::Ts(v) => nat_text(v as nat),
            },
        ]
    }

    /// Appends the `ALIGN` clause.
    pub fn write_args(&self, out: &mut Vec<Vec<u8>>)
        ensures
            toks(final(out)@) == toks(old(out)@) + self.spec_tokens(),
    {
        push_str("ALIGN", out);
        match *self {
            TsAlign::Start => push_str("-", out),
            TsAlign::End => push_str("+", out),
            TsAlign::Ts(v) => push_unsigned(v, out),
        }
        assert(toks(final(out)@) =~= toks(old(out)@) + self.spec_tokens());
    }
}

/// Which instant of a bucket its reported timestamp stands for.
#[derive(PartialEq, Eq, Clone, Debug, Copy)]
pub enum TsBucketTimestamp {
    Low,
    High,
    Mid,
}

impl TsBucketTimestamp {
    /// `BUCKETTIMESTAMP <mode>`.
    pub open spec fn spec_tokens(self) -> Seq<Seq<u8>> {
        seq![
            encode_utf8("BUCKETTIMESTAMP"@),
            match self {
                TsBucketTimestamp::Low => encode_utf8("-"@),
                TsBucketTimestamp::High => encode_utf8("+"@),
                TsBucketTimestamp::Mid => encode_utf8("~"@),
            },
        ]
    }

    /// Appends the `BUCKETTIMESTAMP` clause.
    pub fn write_args(&self, out: &mut Vec<Vec<u8>>)
        ensures
            toks(final(out)@) == toks(old(out)@) + self.spec_tokens(),
    {
        push_str("BUCKETTIMESTAMP", out);
        match *self {
            TsBucketTimestamp::Low => push_str("-", out),
            TsBucketTimestamp::High => push_str("+", out),
            TsBucketTimestamp::Mid => push_str("~", out),
        }
        assert(toks(final(out)@) =~= toks(old(out)@) + self.spec_tokens());
    }
}

/// An integer argument of any width; it encodes to its decimal text.
#[derive(Clone, Debug, Copy)]
pub enum Integer {
    Usize(usize),
    U8(u8),
    U16(u16),
    U32(u32),
    U64(u64),
    Isize(isize),
    I8(i8),
    I16(i16),
    I32(i32),
    I64(i64),
}

impl Integer {
    /// The mathematical value held.
    pub open spec fn value(self) -> int {
        match self {
            Integer::Usize(v) => v as int,
            Integer::U8(v) => v as int,
            Integer::U16(v) => v as int,
            Integer::U32(v) => v as int,
            Integer::U64(v) => v as int,
            Integer::Isize(v) => v as int,
            Integer::I8(v) => v as int,
            Integer::I16(v) => v as int,
            Integer::I32(v) => v as int,
            Integer::I64(v) => v as int,
        }
    }

    /// One token: the decimal text of the value.
    pub open spec fn spec_tokens(self) -> Seq<Seq<u8>> {
        seq![int_text(self.value())]
    }

    /// Appends the decimal text of the value as one token.
    pub fn write_args(&self, out: &mut Vec<Vec<u8>>)
        ensures
            toks(final(out)@) == toks(old(out)@) + self.spec_tokens(),
    {
        match *self {
            Integer::Usize(v) => push_unsigned(v as u64, out),
            Integer::U8(v) => push_unsigned(v as u64, out),
            Integer::U16(v) => push_unsigned(v as u64, out),
            Integer::U32(v) => push_unsigned(v as u64, out),
            Integer::U64(v) => push_unsigned(v, out),
            Integer::Isize(v) => push_signed(v as i64, out),
            Integer::I8(v) => push_signed(v as i64, out),
            Integer::I16(v) => push_signed(v as i64, out),
            Integer::I32(v) => push_signed(v as i64, out),
            Integer::I64(v) => push_signed(v, out),
        }
        assert(toks(final(out)@) =~= toks(old(out)@) + self.spec_tokens());
    }
}

impl From<usize> for Integer {
    fn from(value: usize) -> (r: Integer)
        ensures
            r == Integer::Usize(value),
    {
        Integer::Usize(value)
    }
}

impl vstd::std_specs::convert::FromSpecImpl<usize> for Integer {
    open spec fn obeys_from_spec() -> bool {
        true
    }

    open spec fn from_spec(v: usize) -> Integer {
        Integer::Usize(v)
    }
}

impl From<u8> for Integer {
    fn from(value: u8) -> (r: Integer)
        ensures
            r == Integer::U8(value),
    {
        Integer::U8(value)
    }
}

impl vstd::std_specs::convert::FromSpecImpl<u8> for Integer {
    open spec fn obeys_from_spec() -> bool {
        true
    }

    open spec fn from_spec(v: u8) -> Integer {
        Integer::U8(v)
    }
}

impl From<u16> for Integer {
    fn from(value: u16) -> (r: Integer)
        ensures
            r == Integer::U16(value),
    {
        Integer::U16(value)
    }
}

impl vstd::std_specs::convert::FromSpecImpl<u16> for Integer {
    open spec fn obeys_from_spec() -> bool {
        true
    }

    open spec fn from_spec(v: u16) -> Integer {
        Integer::U16(v)
    }
}

impl From<u32> for Integer {
    fn from(value: u32) -> (r: Integer)
        ensures
            r == Integer::U32(value),
    {
        Integer::U32(value)
    }
}

impl vstd::std_specs::convert::FromSpecImpl<u32> for Integer {
    open spec fn obeys_from_spec() -> bool {
        true
    }

    open spec fn from_spec(v: u32) -> Integer {
        Integer::U32(v)
    }
}

impl From<u64> for Integer {
    fn from(value: u64) -> (r: Integer)
        ensures
            r == Integer::U64(value),
    {
        Integer::U64(value)
    }
}

impl vstd::std_specs::convert::FromSpecImpl<u64> for Integer {
    open spec fn obeys_from_spec() -> bool {
        true
    }

    open spec fn from_spec(v: u64) -> Integer {
        Integer::U64(v)
    }
}

impl From<isize> for Integer {
    fn from(value: isize) -> (r: Integer)
        ensures
            r == Integer::Isize(value),
    {
        Integer::Isize(value)
    }
}

impl vstd::std_specs::convert::FromSpecImpl<isize> for Integer {
    open spec fn obeys_from_spec() -> bool {
        true
    }

    open spec fn from_spec(v: isize) -> Integer {
        Integer::Isize(v)
    }
}

impl From<i8> for Integer {
    fn from(value: i8) -> (r: Integer)
        ensures
            r == Integer::I8(value),
    {
        Integer::I8(value)
    }
}

impl vstd::std_specs::convert::FromSpecImpl<i8> for Integer {
    open spec fn obeys_from_spec() -> bool {
        true
    }

    open spec fn from_spec(v: i8) -> Integer {
        Integer::I8(v)
    }
}

impl From<i16> for Integer {
    fn from(value: i16) -> (r: Integer)
        ensures
            r == Integer::I16(value),
    {
        Integer::I16(value)
    }
}

impl vstd::std_specs::convert::FromSpecImpl<i16> for Integer {
    open spec fn obeys_from_spec() -> bool {
        true
    }

    open spec fn from_spec(v: i16) -> Integer {
        Integer::I16(v)
    }
}

impl From<i32> for Integer {
    fn from(value: i32) -> (r: Integer)
        ensures
            r == Integer::I32(value),
    {
        Integer::I32(value)
    }
}

impl vstd::std_specs::convert::FromSpecImpl<i32> for Integer {
    open spec fn obeys_from_spec() -> bool {
        true
    }

    open spec fn from_spec(v: i32) -> Integer {
        Integer::I32(v)
    }
}

impl From<i64> for Integer {
    fn from(value: i64) -> (r: Integer)
        ensures
            r == Integer::I64(value),
    {
        Integer::I64(value)
    }
}

impl vstd::std_specs::convert::FromSpecImpl<i64> for Integer {
    open spec fn obeys_from_spec() -> bool {
        true
    }

    open spec fn from_spec(v: i64) -> Integer {
        Integer::I64(v)
    }
}

} // verus!
