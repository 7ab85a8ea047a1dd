//! Decoding of range, multi-range, get and multi-get replies.

use crate::options::pairs_view;
use crate::reply::{reply_text, view_opt, FromReply, Reply, TsError};
use vstd::prelude::*;

verus! {

/// A sample node: a sequence of exactly a timestamp and a value, both
/// readable.
pub open spec fn sample_of<TS: FromReply, V: FromReply>(e: Reply) -> Option<(TS::V, V::V)> {
    match e {
        Reply::Bulk(xs) => if xs@.len() == 2 {
            match (TS::spec_from_reply(xs@[0]), V::spec_from_reply(xs@[1])) {
                (Some(t), Some(v)) => Some((t, v)),
                _ => None,
            }
        } else {
            None
        },
        _ => None,
    }
}

/// All samples in order, or `None` as soon as one node is not a sample.
pub open spec fn samples_of<TS: FromReply, V: FromReply>(items: Seq<Reply>) -> Option<
    Seq<(TS::V, V::V)>,
>
    decreases items.len(),
{
    if items.len() == 0 {
        Some(seq![])
    } else {
        match (samples_of::<TS, V>(items.drop_last()), sample_of::<TS, V>(items.last())) {
            (Some(s), Some(x)) => Some(s.push(x)),
            _ => None,
        }
    }
}

/// Decoded samples seen through their views.
pub open spec fn samples_view<TS: View, V: View>(v: Seq<(TS, V)>) -> Seq<(TS::V, V::V)> {
    v.map_values(|p: (TS, V)| (p.0@, p.1@))
}

/// A label node: a sequence of exactly a name and a value, both text.
pub open spec fn label_of(e: Reply) -> Option<(Seq<char>, Seq<char>)> {
    match e {
        Reply::Bulk(xs) => if xs@.len() == 2 {
            match (reply_text(xs@[0]), reply_text(xs@[1])) {
                (Some(a), Some(b)) => Some((a, b)),
                _ => None,
            }
        } else {
            None
        },
        _ => None,
    }
}

/// The label nodes that are well formed, in order; the others are skipped.
pub open spec fn labels_of(items: Seq<Reply>) -> Seq<(Seq<char>, Seq<char>)>
    decreases items.len(),
{
    if items.len() == 0 {
        seq![]
    } else {
        let rest = labels_of(items.drop_last());
        match label_of(items.last()) {
            Some(l) => rest.push(l),
            None => rest,
        }
    }
}

/// The labels of a labels slot: empty unless it is a sequence.
pub open spec fn labels_field(r: Reply) -> Seq<(Seq<char>, Seq<char>)> {
    match r {
        Reply::Bulk(xs) => labels_of(xs@),
        _ => seq![],
    }
}

proof fn lemma_samples_each<TS: FromReply, V: FromReply>(items: Seq<Reply>, k: int)
    requires
        0 <= k < items.len(),
        samples_of::<TS, V>(items) is Some,
    ensures
        sample_of::<TS, V>(items[k]) is Some,
    decreases items.len(),
{
    if k < items.len() - 1 {
        assert(items.drop_last()[k] == items[k]);
        lemma_samples_each::<TS, V>(items.drop_last(), k);
    }
}

/// Reads one sample node.
fn decode_sample<TS: FromReply, V: FromReply>(e: &Reply) -> (r: Option<(TS, V)>)
    ensures
        match r {
            Some(p) => sample_of::<TS, V>(*e) == Some((p.0@, p.1@)),
            None => sample_of::<TS, V>(*e) is None,
        },
{
    match e {
        Reply::Bulk(xs) => {
            if xs.len() == 2 {
                let t = TS::from_reply(&xs[0]);
                let v = V::from_reply(&xs[1]);
                match (t, v) {
                    (Some(t), Some(v)) => Some((t, v)),
                    _ => None,
                }
            } else {
                None
            }
        },
        _ => None,
    }
}

/// Reads every node as a sample; fails if any one is not.
fn decode_samples<TS: FromReply, V: FromReply>(items: &Vec<Reply>) -> (r: Result<
    Vec<(TS, V)>,
    TsError,
>)
    ensures
        match r {
            Ok(v) => samples_of::<TS, V>(items@) == Some(samples_view(v@)),
            Err(_) => samples_of::<TS, V>(items@) is None,
        },
{
    let mut out: Vec<(TS, V)> = Vec::new();
    let mut i: usize = 0;
    while i < items.len()
        invariant
            i <= items@.len(),
            samples_of::<TS, V>(items@.subrange(0, i as int)) == Some(samples_view(out@)),
        decreases items@.len() - i,
    {
        assert(items@.subrange(0, i + 1).drop_last() =~= items@.subrange(0, i as int));
        match decode_sample::<TS, V>(&items[i]) {
            Some(p) => {
                let ghost before = out@;
                out.push(p);
                assert(samples_view(out@) =~= samples_view(before).push((p.0@, p.1@)));
            },
            None => {
                proof {
                    if samples_of::<TS, V>(items@) is Some {
                        lemma_samples_each::<TS, V>(items@, i as int);
                    }
                }
                return Err(TsError::MalformedReply);
            },
        }
        i = i + 1;
    }
    assert(items@.subrange(0, items@.len() as int) =~= items@);
    Ok(out)
}

/// Reads a labels slot, skipping malformed pairs.
pub fn decode_labels(r: &Reply) -> (v: Vec<(String, String)>)
    ensures
        pairs_view(v@) == labels_field(*r),
{
    let mut out: Vec<(String, String)> = Vec::new();
    match r {
        Reply::Bulk(items) => {
            let mut i: usize = 0;
            while i < items.len()
                invariant
                    i <= items@.len(),
                    pairs_view(out@) == labels_of(items@.subrange(0, i as int)),
                decreases items@.len() - i,
            {
                assert(items@.subrange(0, i + 1).drop_last() =~= items@.subrange(0, i as int));
                let ghost before = out@;
                if let Reply::Bulk(xs) = &items[i] {
                    if xs.len() == 2 {
                        let a = String::from_reply(&xs[0]);
                        let b = String::from_reply(&xs[1]);
                        if let (Some(a), Some(b)) = (a, b) {
                            out.push((a, b));
                            assert(pairs_view(out@) =~= pairs_view(before).push((a@, b@)));
                        }
                    }
                }
                i = i + 1;
            }
            assert(items@.subrange(0, items@.len() as int) =~= items@);
        },
        _ => {
            assert(pairs_view(out@) =~= seq![]);
        },
    }
    out
}

/// The result of a range read of one series: its samples in the order the
/// store sent them.
#[derive(Debug)]
pub struct TsRange<TS, V> {
    pub values: Vec<(TS, V)>,
}

impl<TS: View, V: View> View for TsRange<TS, V> {
    type V = Seq<(TS::V, V::V)>;

    open spec fn view(&self) -> Seq<(TS::V, V::V)> {
        samples_view(self.values@)
    }
}

/// A range reply: a sequence of samples, all of them well formed.
pub open spec fn range_of<TS: FromReply, V: FromReply>(r: Reply) -> Option<Seq<(TS::V, V::V)>> {
    match r {
        Reply::Bulk(items) => samples_of::<TS, V>(items@),
        _ => None,
    }
}

impl<TS: FromReply, V: FromReply> TsRange<TS, V> {
    /// Decodes a range reply; any malformed sample fails the whole result.
    pub fn from_reply(r: &Reply) -> (res: Result<Self, TsError>)
        ensures
            match res {
                Ok(v) => range_of::<TS, V>(*r) == Some(v@),
                Err(_) => range_of::<TS, V>(*r) is None,
            },
    {
        match r {
            Reply::Bulk(items) => match decode_samples::<TS, V>(items) {
                Ok(values) => Ok(TsRange { values }),
                Err(e) => Err(e),
            },
            _ => Err(TsError::MalformedReply),
        }
    }
}

/// The latest sample of a series: any reply that is not a well-formed
/// sample, an empty or nil one included, means no sample.
pub fn latest_sample<TS: FromReply, V: FromReply>(r: &Reply) -> (res: Option<(TS, V)>)
    ensures
        match res {
            Some(p) => sample_of::<TS, V>(*r) == Some((p.0@, p.1@)),
            None => sample_of::<TS, V>(*r) is None,
        },
{
    decode_sample::<TS, V>(r)
}

/// One series of a multi-range reply, seen as key, labels and samples.
pub type MrangeEntryView<T, U> = (Seq<char>, Seq<(Seq<char>, Seq<char>)>, Seq<(T, U)>);

/// A multi-range entry node: a sequence of exactly a key (text), a labels
/// slot (read leniently) and a sequence of well-formed samples.
pub open spec fn mrange_entry_of<TS: FromReply, V: FromReply>(e: Reply) -> Option<
    MrangeEntryView<TS::V, V::V>,
> {
    match e {
        Reply::Bulk(xs) => if xs@.len() == 3 {
            match (reply_text(xs@[0]), range_of::<TS, V>(xs@[2])) {
                (Some(k), Some(s)) => Some((k, labels_field(xs@[1]), s)),
                _ => None,
            }
        } else {
            None
        },
        _ => None,
    }
}

/// All entries in order, or `None` as soon as one is malformed.
pub open spec fn mrange_entries_of<TS: FromReply, V: FromReply>(items: Seq<Reply>) -> Option<
    Seq<MrangeEntryView<TS::V, V::V>>,
>
    decreases items.len(),
{
    if items.len() == 0 {
        Some(seq![])
    } else {
        match (
            mrange_entries_of::<TS, V>(items.drop_last()),
            mrange_entry_of::<TS, V>(items.last()),
        ) {
            (Some(s), Some(x)) => Some(s.push(x)),
            _ => None,
        }
    }
}

/// A multi-range reply: a sequence of well-formed entries.
pub open spec fn mrange_of<TS: FromReply, V: FromReply>(r: Reply) -> Option<
    Seq<MrangeEntryView<TS::V, V::V>>,
> {
    match r {
        Reply::Bulk(items) => mrange_entries_of::<TS, V>(items@),
        _ => None,
    }
}

proof fn lemma_mrange_each<TS: FromReply, V: FromReply>(items: Seq<Reply>, k: int)
    requires
        0 <= k < items.len(),
        mrange_entries_of::<TS, V>(items) is Some,
    ensures
        mrange_entry_of::<TS, V>(items[k]) is Some,
    decreases items.len(),
{
    if k < items.len() - 1 {
        assert(items.drop_last()[k] == items[k]);
        lemma_mrange_each::<TS, V>(items.drop_last(), k);
    }
}

/// One series of a multi-range result.
#[derive(Debug)]
pub struct TsMrangeEntry<TS, V> {
    pub key: String,
    pub labels: Vec<(String, String)>,
    pub values: Vec<(TS, V)>,
}

impl<TS: View, V: View> View for TsMrangeEntry<TS, V> {
    type V = MrangeEntryView<TS::V, V::V>;

    open spec fn view(&self) -> MrangeEntryView<TS::V, V::V> {
        (self.key@, pairs_view(self.labels@), samples_view(self.values@))
    }
}

impl<TS: FromReply, V: FromReply> TsMrangeEntry<TS, V> {
    /// Decodes one entry of a multi-range reply.
    pub fn from_reply(e: &Reply) -> (res: Result<Self, TsError>)
        ensures
            match res {
                Ok(v) => mrange_entry_of::<TS, V>(*e) == Some(v@),
                Err(_) => mrange_entry_of::<TS, V>(*e) is None,
            },
    {
        match e {
            Reply::Bulk(xs) => {
                if xs.len() != 3 {
                    return Err(TsError::MalformedReply);
                }
                let key = match String::from_reply(&xs[0]) {
                    Some(k) => k,
                    None => return Err(TsError::MalformedReply),
                };
                let values = match TsRange::<TS, V>::from_reply(&xs[2]) {
                    Ok(r) => r.values,
                    Err(err) => return Err(err),
                };
                let labels = decode_labels(&xs[1]);
                Ok(TsMrangeEntry { key, labels, values })
            },
            _ => Err(TsError::MalformedReply),
        }
    }
}

/// The result of a range read over many series: one entry per series, in
/// the order the store sent them.
#[derive(Debug)]
pub struct TsMrange<TS, V> {
    pub values: Vec<TsMrangeEntry<TS, V>>,
}

impl<TS: View, V: View> View for TsMrange<TS, V> {
    type V = Seq<MrangeEntryView<TS::V, V::V>>;

    open spec fn view(&self) -> Seq<MrangeEntryView<TS::V, V::V>> {
        self.values@.map_values(|e: TsMrangeEntry<TS, V>| e@)
    }
}

impl<TS: FromReply, V: FromReply> TsMrange<TS, V> {
    /// Decodes a multi-range reply; any malformed entry fails the result.
    pub fn from_reply(r: &Reply) -> (res: Result<Self, TsError>)
        ensures
            match res {
                Ok(v) => mrange_of::<TS, V>(*r) == Some(v@),
                Err(_) => mrange_of::<TS, V>(*r) is None,
            },
    {
        match r {
            Reply::Bulk(items) => Self::from_items(items),
            _ => Err(TsError::MalformedReply),
        }
    }

    fn from_items(items: &Vec<Reply>) -> (res: Result<Self, TsError>)
        ensures
            match res {
                Ok(v) => mrange_entries_of::<TS, V>(items@) == Some(v@),
                Err(_) => mrange_entries_of::<TS, V>(items@) is None,
            },
    {
        let mut out: Vec<TsMrangeEntry<TS, V>> = Vec::new();
        let mut i: usize = 0;
        while i < items.len()
            invariant
                i <= items@.len(),
                mrange_entries_of::<TS, V>(items@.subrange(0, i as int)) == Some(
                    out@.map_values(|e: TsMrangeEntry<TS, V>| e@),
                ),
            decreases items@.len() - i,
        {
            assert(items@.subrange(0, i + 1).drop_last() =~= items@.subrange(0, i as int));
            match TsMrangeEntry::<TS, V>::from_reply(&items[i]) {
                Ok(e) => {
                    let ghost before = out@;
                    let ghost ev = e@;
                    out.push(e);
                    assert(out@.map_values(|e: TsMrangeEntry<TS, V>| e@) =~= before.map_values(
                        |e: TsMrangeEntry<TS, V>| e@,
                    ).push(ev));
                },
                Err(_) => {
                    proof {
                        if mrange_entries_of::<TS, V>(items@) is Some {
                            lemma_mrange_each::<TS, V>(items@, i as int);
                        }
                    }
                    return Err(TsError::MalformedReply);
                },
            }
            i = i + 1;
        }
        assert(items@.subrange(0, items@.len() as int) =~= items@);
        Ok(TsMrange { values: out })
    }
}

/// One series of a multi-get reply, seen as key, labels and latest sample.
pub type MgetEntryView<T, U> = (Seq<char>, Seq<(Seq<char>, Seq<char>)>, Option<(T, U)>);

/// The value slot of a multi-get entry: an empty sequence or a non-sequence
/// means no sample; a non-empty sequence must be a well-formed sample.
pub open spec fn mget_value_of<TS: FromReply, V: FromReply>(r: Reply) -> Option<
    Option<(TS::V, V::V)>,
> {
    match r {
        Reply::Bulk(vs) => if vs@.len() == 0 {
            Some(None)
        } else {
            match sample_of::<TS, V>(r) {
                Some(s) => Some(Some(s)),
                None => None,
            }
        },
        _ => Some(None),
    }
}

/// A multi-get entry node: a sequence of exactly a key (text), a labels slot
/// (read leniently) and a value slot.
pub open spec fn mget_entry_of<TS: FromReply, V: FromReply>(e: Reply) -> Option<
    MgetEntryView<TS::V, V::V>,
> {
    match e {
        Reply::Bulk(xs) => if xs@.len() == 3 {
            match (reply_text(xs@[0]), mget_value_of::<TS, V>(xs@[2])) {
                (Some(k), Some(v)) => Some((k, labels_field(xs@[1]), v)),
                _ => None,
            }
        } else {
            None
        },
        _ => None,
    }
}

/// All entries in order, or `None` as soon as one is malformed.
pub open spec fn mget_entries_of<TS: FromReply, V: FromReply>(items: Seq<Reply>) -> Option<
    Seq<MgetEntryView<TS::V, V::V>>,
>
    decreases items.len(),
{
    if items.len() == 0 {
        Some(seq![])
    } else {
        match (mget_entries_of::<TS, V>(items.drop_last()), mget_entry_of::<TS, V>(items.last())) {
            (Some(s), Some(x)) => Some(s.push(x)),
            _ => None,
        }
    }
}

/// A multi-get reply: a sequence of well-formed entries.
pub open spec fn mget_of<TS: FromReply, V: FromReply>(r: Reply) -> Option<
    Seq<MgetEntryView<TS::V, V::V>>,
> {
    match r {
        Reply::Bulk(items) => mget_entries_of::<TS, V>(items@),
        _ => None,
    }
}

proof fn lemma_mget_each<TS: FromReply, V: FromReply>(items: Seq<Reply>, k: int)
    requires
        0 <= k < items.len(),
        mget_entries_of::<TS, V>(items) is Some,
    ensures
        mget_entry_of::<TS, V>(items[k]) is Some,
    decreases items.len(),
{
    if k < items.len() - 1 {
        assert(items.drop_last()[k] == items[k]);
        lemma_mget_each::<TS, V>(items.drop_last(), k);
    }
}

/// One series of a multi-get result.
#[derive(Debug)]
pub struct TsMgetEntry<TS, V> {
    pub key: String,
    pub labels: Vec<(String, String)>,
    pub value: Option<(TS, V)>,
}

impl<TS: View, V: View> View for TsMgetEntry<TS, V> {
    type V = MgetEntryView<TS::V, V::V>;

    open spec fn view(&self) -> MgetEntryView<TS::V, V::V> {
        (
            self.key@,
            pairs_view(self.labels@),
            match self.value {
                Some(p) => Some((p.0@, p.1@)),
                None => None,
            },
        )
    }
}

impl<TS: FromReply, V: FromReply> TsMgetEntry<TS, V> {
    /// Decodes one entry of a multi-get reply.
    pub fn from_reply(e: &Reply) -> (res: Result<Self, TsError>)
        ensures
            match res {
                Ok(v) => mget_entry_of::<TS, V>(*e) == Some(v@),
                Err(_) => mget_entry_of::<TS, V>(*e) is None,
            },
    {
        match e {
            Reply::Bulk(xs) => {
                if xs.len() != 3 {
                    return Err(TsError::MalformedReply);
                }
                let key = match String::from_reply(&xs[0]) {
                    Some(k) => k,
                    None => return Err(TsError::MalformedReply),
                };
                let value = match &xs[2] {
                    Reply::Bulk(vs) => {
                        if vs.len() == 0 {
                            None
                        } else {
                            match decode_sample::<TS, V>(&xs[2]) {
                                Some(p) => Some(p),
                                None => return Err(TsError::MalformedReply),
                            }
                        }
                    },
                    _ => None,
                };
                let labels = decode_labels(&xs[1]);
                Ok(TsMgetEntry { key, labels, value })
            },
            _ => Err(TsError::MalformedReply),
        }
    }
}

/// The result of a latest-value read over many series.
#[derive(Debug)]
pub struct TsMget<TS, V> {
    pub values: Vec<TsMgetEntry<TS, V>>,
}

impl<TS: View, V: View> View for TsMget<TS, V> {
    type V = Seq<MgetEntryView<TS::V, V::V>>;

    open spec fn view(&self) -> Seq<MgetEntryView<TS::V, V::V>> {
        self.values@.map_values(|e: TsMgetEntry<TS, V>| e@)
    }
}

impl<TS: FromReply, V: FromReply> TsMget<TS, V> {
    /// Decodes a multi-get reply; series without samples get no value, a
    /// malformed entry fails the result.
    pub fn from_reply(r: &Reply) -> (res: Result<Self, TsError>)
        ensures
            match res {
                Ok(v) => mget_of::<TS, V>(*r) == Some(v@),
                Err(_) => mget_of::<TS, V>(*r) is None,
            },
    {
        match r {
            Reply::Bulk(items) => Self::from_items(items),
            _ => Err(TsError::MalformedReply),
        }
    }

    fn from_items(items: &Vec<Reply>) -> (res: Result<Self, TsError>)
        ensures
            match res {
                Ok(v) => mget_entries_of::<TS, V>(items@) == Some(v@),
                Err(_) => mget_entries_of::<TS, V>(items@) is None,
            },
    {
        let mut out: Vec<TsMgetEntry<TS, V>> = Vec::new();
        let mut i: usize = 0;
        while i < items.len()
            invariant
                i <= items@.len(),
                mget_entries_of::<TS, V>(items@.subrange(0, i as int)) == Some(
                    out@.map_values(|e: TsMgetEntry<TS, V>| e@),
                ),
            decreases items@.len() - i,
        {
            assert(items@.subrange(0, i + 1).drop_last() =~= items@.subrange(0, i as int));
            match TsMgetEntry::<TS, V>::from_reply(&items[i]) {
                Ok(e) => {
                    let ghost before = out@;
                    let ghost ev = e@;
                    out.push(e);
                    assert(out@.map_values(|e: TsMgetEntry<TS, V>| e@) =~= before.map_values(
                        |e: TsMgetEntry<TS, V>| e@,
                    ).push(ev));
                },
                Err(_) => {
                    proof {
                        if mget_entries_of::<TS, V>(items@) is Some {
                            lemma_mget_each::<TS, V>(items@, i as int);
                        }
                    }
                    return Err(TsError::MalformedReply);
                },
            }
            i = i + 1;
        }
        assert(items@.subrange(0, items@.len() as int) =~= items@);
        Ok(TsMget { values: out })
    }
}

} // verus!
