//! Series configuration: retention, compression, duplicate policy, chunk
//! size and labels, encoded in the order the server's parser expects.

use crate::tokens::{nat_text, push_str, push_unsigned, toks};
use vstd::prelude::*;
use vstd::string::StringExecFns;
use vstd::utf8::encode_utf8;

verus! {

/// How the server resolves a sample inserted at a timestamp that already
/// holds one. `Other` carries a policy name this library does not know.
#[derive(PartialEq, Eq, Clone, Debug)]
pub enum TsDuplicatePolicy {
    Block,
    First,
    Last,
    Min,
    Max,
    Other(String),
}

impl TsDuplicatePolicy {
    /// The wire name: upper case for the known policies, the name as given
    /// for `Other`.
    pub open spec fn name_text(self) -> Seq<u8> {
        match self {
            TsDuplicatePolicy::Block => encode_utf8("BLOCK"@),
            TsDuplicatePolicy::First => encode_utf8("FIRST"@),
            TsDuplicatePolicy::Last => encode_utf8("LAST"@),
            TsDuplicatePolicy::Min => encode_utf8("MIN"@),
            TsDuplicatePolicy::Max => encode_utf8("MAX"@),
            TsDuplicatePolicy::Other(s) => encode_utf8(s@),
        }
    }

    /// `DUPLICATE_POLICY <name>`.
    pub open spec fn spec_tokens(self) -> Seq<Seq<u8>> {
        seq![encode_utf8("DUPLICATE_POLICY"@), self.name_text()]
    }

    /// Appends the `DUPLICATE_POLICY` clause.
    pub fn write_args(&self, out: &mut Vec<Vec<u8>>)
        ensures
            toks(final(out)@) == toks(old(out)@) + self.spec_tokens(),
    {
        push_str("DUPLICATE_POLICY", out);
        match self {
            TsDuplicatePolicy::Block => push_str("BLOCK", out),
            TsDuplicatePolicy::First => push_str("FIRST", out),
            TsDuplicatePolicy::Last => push_str("LAST", out),
            TsDuplicatePolicy::Min => push_str("MIN", out),
            TsDuplicatePolicy::Max => push_str("MAX", out),
            TsDuplicatePolicy::Other(s) => push_str(s.as_str(), out),
        }
        assert(toks(final(out)@) =~= toks(old(out)@) + self.spec_tokens());
    }
}

/// Label pairs seen as their text.
pub open spec fn pairs_view(v: Seq<(String, String)>) -> Seq<(Seq<char>, Seq<char>)> {
    v.map_values(|p: (String, String)| (p.0@, p.1@))
}

/// Label pairs flattened to alternating name and value tokens.
pub open spec fn label_tokens(l: Seq<(Seq<char>, Seq<char>)>) -> Seq<Seq<u8>>
    decreases l.len(),
{
    if l.len() == 0 {
        seq![]
    } else {
        label_tokens(l.drop_last()) + seq![encode_utf8(l.last().0), encode_utf8(l.last().1)]
    }
}

/// What a `TsOptions` holds.
pub struct OptionsView {
    pub retention_time: Option<u64>,
    pub uncompressed: bool,
    pub labels: Seq<(Seq<char>, Seq<char>)>,
    pub duplicate_policy: Option<TsDuplicatePolicy>,
    pub chunk_size: Option<u64>,
}

impl OptionsView {
    /// Nothing set.
    pub open spec fn empty() -> OptionsView {
        OptionsView {
            retention_time: None,
            uncompressed: false,
            labels: seq![],
            duplicate_policy: None,
            chunk_size: None,
        }
    }

    /// `[RETENTION d] [UNCOMPRESSED] [DUPLICATE_POLICY p] [CHUNK_SIZE c]
    /// [LABELS name value ...]`, the labels clause only when there are labels.
    pub open spec fn tokens(self) -> Seq<Seq<u8>> {
        (match self.retention_time {
            Some(t) => seq![encode_utf8("RETENTION"@), nat_text(t as nat)],
            None => seq![],
        }) + (if self.uncompressed {
            seq![encode_utf8("UNCOMPRESSED"@)]
        } else {
            seq![]
        }) + (match self.duplicate_policy {
            Some(p) => p.spec_tokens(),
            None => seq![],
        }) + (match self.chunk_size {
            Some(c) => seq![encode_utf8("CHUNK_SIZE"@), nat_text(c as nat)],
            None => seq![],
        }) + (if self.labels.len() > 0 {
            seq![encode_utf8("LABELS"@)] + label_tokens(self.labels)
        } else {
            seq![]
        })
    }
}

/// Configuration of a series, for creating or altering it or for adding
/// samples that may create it. Labels keep the order in which they were
/// added, duplicates included.
#[derive(Debug, Clone)]
pub struct TsOptions {
    retention_time: Option<u64>,
    uncompressed: bool,
    labels: Vec<(String, String)>,
    duplicate_policy: Option<TsDuplicatePolicy>,
    chunk_size: Option<u64>,
}

impl View for TsOptions {
    type V = OptionsView;

    closed spec fn view(&self) -> OptionsView {
        OptionsView {
            retention_time: self.retention_time,
            uncompressed: self.uncompressed,
            labels: pairs_view(self.labels@),
            duplicate_policy: self.duplicate_policy,
            chunk_size: self.chunk_size,
        }
    }
}

impl Default for TsOptions {
    fn default() -> (r: TsOptions)
        ensures
            r@ == OptionsView::empty(),
    {
        let r = TsOptions {
            retention_time: None,
            uncompressed: false,
            labels: Vec::new(),
            duplicate_policy: None,
            chunk_size: None,
        };
        assert(r@.labels =~= seq![]);
        r
    }
}

impl TsOptions {
    /// Sets the retention time in milliseconds.
    pub fn retention_time(self, time: u64) -> (r: Self)
        ensures
            r@ == (OptionsView { retention_time: Some(time), ..self@ }),
    {
        let mut s = self;
        s.retention_time = Some(time);
        s
    }

    /// Sets whether the series is stored uncompressed.
    pub fn uncompressed(self, value: bool) -> (r: Self)
        ensures
            r@ == (OptionsView { uncompressed: value, ..self@ }),
    {
        let mut s = self;
        s.uncompressed = value;
        s
    }

    /// Replaces all labels by the given pairs; an empty list clears them.
    pub fn labels(self, labels: Vec<(&str, &str)>) -> (r: Self)
        ensures
            r@ == (OptionsView {
                labels: labels@.map_values(|p: (&str, &str)| (p.0@, p.1@)),
                ..self@
            }),
    {
        let mut v: Vec<(String, String)> = Vec::new();
        let mut i: usize = 0;
        while i < labels.len()
            invariant
                i <= labels@.len(),
                pairs_view(v@) =~= labels@.subrange(0, i as int).map_values(
                    |p: (&str, &str)| (p.0@, p.1@),
                ),
            decreases labels@.len() - i,
        {
            let (n, w) = labels[i];
            let ghost before = v@;
            v.push((String::from_str(n), String::from_str(w)));
            assert(pairs_view(v@) =~= pairs_view(before).push((n@, w@)));
            assert(labels@.subrange(0, i + 1).map_values(|p: (&str, &str)| (p.0@, p.1@))
                =~= labels@.subrange(0, i as int).map_values(|p: (&str, &str)| (p.0@, p.1@)).push(
                (n@, w@),
            ));
            i = i + 1;
        }
        assert(labels@.subrange(0, labels@.len() as int) =~= labels@);
        let mut s = self;
        s.labels = v;
        s
    }

    /// Appends one label after those already present.
    pub fn label(self, name: &str, value: &str) -> (r: Self)
        ensures
            r@ == (OptionsView { labels: self@.labels.push((name@, value@)), ..self@ }),
    {
        let mut s = self;
        s.labels.push((String::from_str(name), String::from_str(value)));
        assert(pairs_view(s.labels@) =~= pairs_view(self.labels@).push((name@, value@)));
        s
    }

    /// Sets the policy for samples inserted at an occupied timestamp.
    pub fn duplicate_policy(self, policy: TsDuplicatePolicy) -> (r: Self)
        ensures
            r@ == (OptionsView { duplicate_policy: Some(policy), ..self@ }),
    {
        let mut s = self;
        s.duplicate_policy = Some(policy);
        s
    }

    /// Sets the memory chunk size in bytes.
    pub fn chunk_size(self, size: u64) -> (r: Self)
        ensures
            r@ == (OptionsView { chunk_size: Some(size), ..self@ }),
    {
        let mut s = self;
        s.chunk_size = Some(size);
        s
    }

    /// Appends the configuration's clauses in their fixed order.
    pub fn write_args(&self, out: &mut Vec<Vec<u8>>)
        ensures
            toks(final(out)@) == toks(old(out)@) + self@.tokens(),
    {
        if let Some(rt) = self.retention_time {
            push_str("RETENTION", out);
            push_unsigned(rt, out);
        }
        if self.uncompressed {
            push_str("UNCOMPRESSED", out);
        }
        if let Some(p) = &self.duplicate_policy {
            p.write_args(out);
        }
        if let Some(c) = self.chunk_size {
            push_str("CHUNK_SIZE", out);
            push_unsigned(c, out);
        }
        if self.labels.len() > 0 {
            push_str("LABELS", out);
            let ghost lab = toks(out@);
            let mut i: usize = 0;
            while i < self.labels.len()
                invariant
                    i <= self.labels@.len(),
                    toks(out@) == lab + label_tokens(pairs_view(self.labels@.subrange(0, i as int))),
                decreases self.labels@.len() - i,
            {
                let ghost prev = toks(out@);
                push_str(self.labels[i].0.as_str(), out);
                push_str(self.labels[i].1.as_str(), out);
                assert(pairs_view(self.labels@.subrange(0, i + 1)).drop_last() =~= pairs_view(
                    self.labels@.subrange(0, i as int),
                ));
                assert(toks(out@) =~= prev + seq![
                    encode_utf8(self.labels@[i as int].0@),
                    encode_utf8(self.labels@[i as int].1@),
                ]);
                i = i + 1;
            }
            assert(self.labels@.subrange(0, self.labels@.len() as int) =~= self.labels@);
        }
        assert(toks(final(out)@) =~= toks(old(out)@) + self@.tokens());
    }

    /// The configuration's clauses as a fresh token list.
    pub fn to_args(&self) -> (r: Vec<Vec<u8>>)
        ensures
            toks(r@) == self@.tokens(),
    {
        let mut out: Vec<Vec<u8>> = Vec::new();
        self.write_args(&mut out);
        assert(toks(Seq::<Vec<u8>>::empty()) =~= seq![]);
        assert(toks(out@) =~= self@.tokens());
        out
    }
}

} // verus!
