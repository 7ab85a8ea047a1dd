//! Properties that hold across the encoders and decoders.

use crate::args::{Integer, TsAggregationType, TsAlign, TsBucketTimestamp};
use crate::decode::{label_of, labels_of, sample_of};
use crate::info::{field, field_in, info_matches, rules_view, TsInfo};
use crate::options::{label_tokens, pairs_view, OptionsView};
use crate::query::{ints_tokens, RangeQueryView};
use crate::reply::{reply_text, reply_u64, FromReply, Reply};
use crate::tokens::{int_text, nat_text};
use vstd::prelude::*;
use vstd::utf8::{decode_utf8, encode_utf8, encode_utf8_decode_utf8, encode_utf8_valid_utf8};

verus! {

broadcast use {encode_utf8_decode_utf8, encode_utf8_valid_utf8};

/// `e` is a sequence of two byte strings holding `name` and `value`.
pub open spec fn label_node(e: Reply, name: Seq<char>, value: Seq<char>) -> bool {
    &&& e is Bulk
    &&& e->Bulk_0@.len() == 2
    &&& e->Bulk_0@[0] is Data
    &&& e->Bulk_0@[0]->Data_0@ == encode_utf8(name)
    &&& e->Bulk_0@[1] is Data
    &&& e->Bulk_0@[1]->Data_0@ == encode_utf8(value)
}

proof fn lemma_label_tokens_at(l: Seq<(Seq<char>, Seq<char>)>, i: int)
    requires
        0 <= i < l.len(),
    ensures
        label_tokens(l).len() == 2 * l.len(),
        label_tokens(l)[2 * i] == encode_utf8(l[i].0),
        label_tokens(l)[2 * i + 1] == encode_utf8(l[i].1),
    decreases l.len(),
{
    lemma_label_tokens_len(l);
    lemma_label_tokens_len(l.drop_last());
    if i < l.len() - 1 {
        lemma_label_tokens_at(l.drop_last(), i);
    }
}

proof fn lemma_label_tokens_len(l: Seq<(Seq<char>, Seq<char>)>)
    ensures
        label_tokens(l).len() == 2 * l.len(),
    decreases l.len(),
{
    if l.len() > 0 {
        lemma_label_tokens_len(l.drop_last());
    }
}

proof fn lemma_labels_decode(items: Seq<Reply>, l: Seq<(Seq<char>, Seq<char>)>)
    requires
        items.len() == l.len(),
        forall|i: int| 0 <= i < items.len() ==> label_node(#[trigger] items[i], l[i].0, l[i].1),
    ensures
        labels_of(items) == l,
    decreases items.len(),
{
    if items.len() > 0 {
        let n = items.len() - 1;
        assert forall|i: int| 0 <= i < items.drop_last().len() implies label_node(
            #[trigger] items.drop_last()[i],
            l.drop_last()[i].0,
            l.drop_last()[i].1,
        ) by {
            assert(label_node(items[i], l[i].0, l[i].1));
        }
        lemma_labels_decode(items.drop_last(), l.drop_last());
        assert(label_node(items[n], l[n].0, l[n].1));
        assert(label_of(items.last()) == Some(l.last()));
        assert(l =~= l.drop_last().push(l.last()));
    }
}

/// Labels keep their order both ways. The labels of a configuration are
/// encoded at its end, after `LABELS`, as name and value tokens in the order
/// they were added; and an information reply whose `labels` field lists
/// those pairs, in that order, decodes to the same ordered list.
pub proof fn label_order_round_trip(
    o: OptionsView,
    labels_reply: Reply,
    vals: Seq<Reply>,
    info: TsInfo,
)
    requires
        o.labels.len() > 0,
        labels_reply is Bulk,
        labels_reply->Bulk_0@.len() == o.labels.len(),
        forall|i: int|
            0 <= i < o.labels.len() ==> label_node(
                #[trigger] labels_reply->Bulk_0@[i],
                o.labels[i].0,
                o.labels[i].1,
            ),
        field(vals, "labels"@) == Some(labels_reply),
        info_matches(info, vals),
    ensures
        o.tokens().subrange(
            o.tokens().len() - (2 * o.labels.len() + 1),
            o.tokens().len() as int,
        ) == seq![encode_utf8("LABELS"@)] + label_tokens(o.labels),
        label_tokens(o.labels).len() == 2 * o.labels.len(),
        forall|i: int|
            0 <= i < o.labels.len() ==> label_tokens(o.labels)[2 * i] == encode_utf8(
                #[trigger] o.labels[i].0,
            ) && label_tokens(o.labels)[2 * i + 1] == encode_utf8(o.labels[i].1),
        pairs_view(info.labels@) == o.labels,
{
    lemma_label_tokens_len(o.labels);
    assert forall|i: int| 0 <= i < o.labels.len() implies label_tokens(o.labels)[2 * i]
        == encode_utf8(#[trigger] o.labels[i].0) && label_tokens(o.labels)[2 * i + 1]
        == encode_utf8(o.labels[i].1) by {
        lemma_label_tokens_at(o.labels, i);
    }
    let t = o.tokens();
    let tail = seq![encode_utf8("LABELS"@)] + label_tokens(o.labels);
    assert(t.subrange(t.len() - tail.len(), t.len() as int) =~= tail);
    lemma_labels_decode(labels_reply->Bulk_0@, o.labels);
}

/// Without an aggregation, alignment, bucket-timestamp mode and the empty
/// flag are not encoded: the query encodes exactly as the same query with
/// those three cleared, and its tokens end with the `COUNT` clause.
pub proof fn sub_clauses_need_aggregation(q: RangeQueryView)
    requires
        q.aggregation_type is None,
    ensures
        q.tokens() == q.head_tokens(),
        q.tokens() == (RangeQueryView { align: None, bucket_timestamp: None, empty: false, ..q })
            .tokens(),
{
    assert(q.tokens() =~= q.head_tokens());
    assert(q.tokens() =~= (RangeQueryView {
        align: None,
        bucket_timestamp: None,
        empty: false,
        ..q
    }).tokens());
}

/// One of the three words that only follow an aggregation.
pub open spec fn is_sub_clause_word(t: Seq<u8>) -> bool {
    t == encode_utf8("ALIGN"@) || t == encode_utf8("BUCKETTIMESTAMP"@) || t == encode_utf8(
        "EMPTY"@,
    )
}

/// No token of `s` is one of those three words.
pub open spec fn no_sub_clause_word(s: Seq<Seq<u8>>) -> bool {
    forall|i: int| 0 <= i < s.len() ==> !is_sub_clause_word(#[trigger] s[i])
}

proof fn lemma_no_word_add(a: Seq<Seq<u8>>, b: Seq<Seq<u8>>)
    requires
        no_sub_clause_word(a),
        no_sub_clause_word(b),
    ensures
        no_sub_clause_word(a + b),
{
    assert forall|i: int| 0 <= i < (a + b).len() implies !is_sub_clause_word(
        #[trigger] (a + b)[i],
    ) by {
        if i < a.len() {
            assert((a + b)[i] == a[i]);
        } else {
            assert((a + b)[i] == b[i - a.len()]);
        }
    }
}

proof fn lemma_word_first_bytes()
    ensures
        encode_utf8("ALIGN"@).len() > 0 && encode_utf8("ALIGN"@)[0] == 65,
        encode_utf8("BUCKETTIMESTAMP"@).len() > 0 && encode_utf8("BUCKETTIMESTAMP"@)[0] == 66,
        encode_utf8("EMPTY"@).len() > 0 && encode_utf8("EMPTY"@)[0] == 69,
        encode_utf8("-"@).len() > 0 && encode_utf8("-"@)[0] == 45,
        encode_utf8("+"@).len() > 0 && encode_utf8("+"@)[0] == 43,
        encode_utf8("LATEST"@).len() > 0 && encode_utf8("LATEST"@)[0] == 76,
        encode_utf8("FILTER_BY_TS"@).len() > 0 && encode_utf8("FILTER_BY_TS"@)[0] == 70,
        encode_utf8("FILTER_BY_VALUE"@).len() > 0 && encode_utf8("FILTER_BY_VALUE"@)[0] == 70,
        encode_utf8("COUNT"@).len() > 0 && encode_utf8("COUNT"@)[0] == 67,
{
    broadcast use vstd::utf8::is_ascii_chars_encode_utf8;

    reveal_strlit("ALIGN");
    reveal_strlit("BUCKETTIMESTAMP");
    reveal_strlit("EMPTY");
    reveal_strlit("-");
    reveal_strlit("+");
    reveal_strlit("LATEST");
    reveal_strlit("FILTER_BY_TS");
    reveal_strlit("FILTER_BY_VALUE");
    reveal_strlit("COUNT");
    assert(vstd::utf8::is_ascii_chars("ALIGN"@));
    assert(vstd::utf8::is_ascii_chars("BUCKETTIMESTAMP"@));
    assert(vstd::utf8::is_ascii_chars("EMPTY"@));
    assert(vstd::utf8::is_ascii_chars("-"@));
    assert(vstd::utf8::is_ascii_chars("+"@));
    assert(vstd::utf8::is_ascii_chars("LATEST"@));
    assert(vstd::utf8::is_ascii_chars("FILTER_BY_TS"@));
    assert(vstd::utf8::is_ascii_chars("FILTER_BY_VALUE"@));
    assert(vstd::utf8::is_ascii_chars("COUNT"@));
}

/// A token whose first byte is not `A`, `B` or `E` is none of the words.
proof fn lemma_not_word(t: Seq<u8>)
    requires
        t.len() > 0,
        t[0] != 65 && t[0] != 66 && t[0] != 69,
    ensures
        !is_sub_clause_word(t),
{
    lemma_word_first_bytes();
}

proof fn lemma_nat_text_first(n: nat)
    ensures
        nat_text(n).len() > 0,
        48 <= nat_text(n)[0] <= 57,
    decreases n,
{
    if n >= 10 {
        lemma_nat_text_first(n / 10);
    }
}

proof fn lemma_int_text_not_word(i: int)
    ensures
        !is_sub_clause_word(int_text(i)),
{
    if i < 0 {
        lemma_nat_text_first((-i) as nat);
    } else {
        lemma_nat_text_first(i as nat);
    }
    lemma_not_word(int_text(i));
}

proof fn lemma_ints_no_word(v: Seq<Integer>)
    ensures
        no_sub_clause_word(ints_tokens(v)),
{
    assert forall|i: int| 0 <= i < ints_tokens(v).len() implies !is_sub_clause_word(
        #[trigger] ints_tokens(v)[i],
    ) by {
        lemma_int_text_not_word(v[i].value());
    }
}

proof fn lemma_bound_no_word(b: Option<Integer>, absent: Seq<u8>)
    requires
        absent.len() > 0,
        absent[0] != 65 && absent[0] != 66 && absent[0] != 69,
    ensures
        no_sub_clause_word(
            match b {
                Some(i) => i.spec_tokens(),
                None => seq![absent],
            },
        ),
{
    match b {
        Some(i) => lemma_int_text_not_word(i.value()),
        None => lemma_not_word(absent),
    }
}

/// Without an aggregation, no `ALIGN`, `BUCKETTIMESTAMP` or `EMPTY` token is
/// encoded. (The value-range bounds are text supplied by the caller; they are
/// taken not to be one of those words, as no number's text is.)
pub proof fn no_sub_clause_tokens_without_aggregation(q: RangeQueryView)
    requires
        q.aggregation_type is None,
        q.filter_by_value matches Some(b) ==> b.0 != "ALIGN"@ && b.0 != "BUCKETTIMESTAMP"@
            && b.0 != "EMPTY"@ && b.1 != "ALIGN"@ && b.1 != "BUCKETTIMESTAMP"@ && b.1
            != "EMPTY"@,
    ensures
        !q.tokens().contains(encode_utf8("ALIGN"@)),
        !q.tokens().contains(encode_utf8("BUCKETTIMESTAMP"@)),
        !q.tokens().contains(encode_utf8("EMPTY"@)),
{
    lemma_word_first_bytes();
    lemma_bound_no_word(q.from, encode_utf8("-"@));
    lemma_bound_no_word(q.to, encode_utf8("+"@));
    let from_t = match q.from {
        Some(i) => i.spec_tokens(),
        None => seq![encode_utf8("-"@)],
    };
    let to_t = match q.to {
        Some(i) => i.spec_tokens(),
        None => seq![encode_utf8("+"@)],
    };
    let latest_t = if q.latest {
        seq![encode_utf8("LATEST"@)]
    } else {
        seq![]
    };
    if q.latest {
        lemma_not_word(encode_utf8("LATEST"@));
    }
    assert(no_sub_clause_word(latest_t));
    lemma_no_word_add(from_t, to_t);
    lemma_no_word_add(from_t + to_t, latest_t);
    assert(q.bounds_tokens() == from_t + to_t + latest_t);
    lemma_ints_no_word(q.filter_by_ts);
    if q.filter_by_ts.len() > 0 {
        lemma_not_word(encode_utf8("FILTER_BY_TS"@));
        assert(no_sub_clause_word(seq![encode_utf8("FILTER_BY_TS"@)]));
        lemma_no_word_add(seq![encode_utf8("FILTER_BY_TS"@)], ints_tokens(q.filter_by_ts));
    }
    assert(no_sub_clause_word(q.ts_filter_tokens()));
    let value_t = match q.filter_by_value {
        Some(b) => seq![encode_utf8("FILTER_BY_VALUE"@), encode_utf8(b.0), encode_utf8(b.1)],
        None => seq![],
    };
    let count_t = match q.count {
        Some(n) => seq![encode_utf8("COUNT"@), nat_text(n as nat)],
        None => seq![],
    };
    if let Some(b) = q.filter_by_value {
        lemma_not_word(encode_utf8("FILTER_BY_VALUE"@));
        assert(decode_utf8(encode_utf8(b.0)) == b.0);
        assert(decode_utf8(encode_utf8(b.1)) == b.1);
        assert(!is_sub_clause_word(encode_utf8(b.0)));
        assert(!is_sub_clause_word(encode_utf8(b.1)));
    }
    assert(no_sub_clause_word(value_t));
    if let Some(n) = q.count {
        lemma_not_word(encode_utf8("COUNT"@));
        lemma_int_text_not_word(n as int);
    }
    assert(no_sub_clause_word(count_t));
    lemma_no_word_add(value_t, count_t);
    assert(q.value_count_tokens() == value_t + count_t);
    lemma_no_word_add(q.bounds_tokens(), q.ts_filter_tokens());
    lemma_no_word_add(q.bounds_tokens() + q.ts_filter_tokens(), q.value_count_tokens());
    assert(q.tokens() =~= q.head_tokens());
    let t = q.tokens();
    assert(!t.contains(encode_utf8("ALIGN"@)));
    assert(!t.contains(encode_utf8("BUCKETTIMESTAMP"@)));
    assert(!t.contains(encode_utf8("EMPTY"@)));
}

/// With an aggregation and every option set, the tokens come in exactly
/// this order: bounds, `LATEST`, `FILTER_BY_TS` and its timestamps,
/// `FILTER_BY_VALUE min max`, `COUNT n`, the `ALIGN` clause, the
/// `AGGREGATION` clause, the `BUCKETTIMESTAMP` clause, `EMPTY`.
pub proof fn full_query_clause_order(
    q: RangeQueryView,
    from: Integer,
    to: Integer,
    ts: Seq<Integer>,
    min: Seq<char>,
    max: Seq<char>,
    count: u64,
    align: TsAlign,
    agg: TsAggregationType,
    bucket_ts: TsBucketTimestamp,
)
    requires
        q.from == Some(from),
        q.to == Some(to),
        q.latest,
        q.filter_by_ts == ts,
        ts.len() > 0,
        q.filter_by_value == Some((min, max)),
        q.count == Some(count),
        q.align == Some(align),
        q.aggregation_type == Some(agg),
        q.bucket_timestamp == Some(bucket_ts),
        q.empty,
    ensures
        q.tokens() == seq![int_text(from.value()), int_text(to.value()), encode_utf8("LATEST"@)]
            + seq![encode_utf8("FILTER_BY_TS"@)] + ints_tokens(ts) + seq![
            encode_utf8("FILTER_BY_VALUE"@),
            encode_utf8(min),
            encode_utf8(max),
            encode_utf8("COUNT"@),
            nat_text(count as nat),
        ] + align.spec_tokens() + seq![
            encode_utf8("AGGREGATION"@),
            agg.kind_text(),
            nat_text(agg.bucket() as nat),
        ] + bucket_ts.spec_tokens() + seq![encode_utf8("EMPTY"@)],
{
    assert(q.tokens() =~= seq![
        int_text(from.value()),
        int_text(to.value()),
        encode_utf8("LATEST"@),
    ] + seq![encode_utf8("FILTER_BY_TS"@)] + ints_tokens(ts) + seq![
        encode_utf8("FILTER_BY_VALUE"@),
        encode_utf8(min),
        encode_utf8(max),
        encode_utf8("COUNT"@),
        nat_text(count as nat),
    ] + align.spec_tokens() + seq![
        encode_utf8("AGGREGATION"@),
        agg.kind_text(),
        nat_text(agg.bucket() as nat),
    ] + bucket_ts.spec_tokens() + seq![encode_utf8("EMPTY"@)]);
}

/// A latest-value reply that is nil or an empty sequence gives no sample,
/// not a failure.
pub proof fn get_absent_is_none<TS: FromReply, V: FromReply>(r: Reply)
    requires
        r is Nil || (r is Bulk && r->Bulk_0@.len() == 0),
    ensures
        sample_of::<TS, V>(r) is None,
{
}

/// An information reply holding only the `totalSamples` field decodes to
/// that count (when readable) with every other field at its zero or empty
/// default.
pub proof fn info_with_only_total_samples(key: Reply, value: Reply, vals: Seq<Reply>, info: TsInfo)
    requires
        reply_text(key) == Some("totalSamples"@),
        vals == seq![key, value],
        info_matches(info, vals),
    ensures
        info.total_samples == (match reply_u64(value) {
            Some(n) => n,
            None => 0,
        }),
        info.memory_usage == 0,
        info.first_timestamp == 0,
        info.last_timestamp == 0,
        info.retention_time == 0,
        info.chunk_count == 0,
        info.max_samples_per_chunk == 0,
        info.chunk_size == 0,
        info.duplicate_policy is None,
        info.labels@.len() == 0,
        info.source_key is None,
        info.rules@.len() == 0,
{
    reveal_strlit("totalSamples");
    reveal_strlit("memoryUsage");
    reveal_strlit("firstTimestamp");
    reveal_strlit("lastTimestamp");
    reveal_strlit("retentionTime");
    reveal_strlit("chunkCount");
    reveal_strlit("maxSamplesPerChunk");
    reveal_strlit("chunkSize");
    reveal_strlit("sourceKey");
    reveal_strlit("duplicatePolicy");
    reveal_strlit("labels");
    reveal_strlit("rules");
    assert(field(vals, "totalSamples"@) == Some(value));
    assert("memoryUsage"@.len() != "totalSamples"@.len());
    assert(field_in(vals, "memoryUsage"@, 0) is None);
    assert(field(vals, "memoryUsage"@) is None);
    assert("firstTimestamp"@.len() != "totalSamples"@.len());
    assert(field_in(vals, "firstTimestamp"@, 0) is None);
    assert(field(vals, "firstTimestamp"@) is None);
    assert("lastTimestamp"@.len() != "totalSamples"@.len());
    assert(field_in(vals, "lastTimestamp"@, 0) is None);
    assert(field(vals, "lastTimestamp"@) is None);
    assert("retentionTime"@.len() != "totalSamples"@.len());
    assert(field_in(vals, "retentionTime"@, 0) is None);
    assert(field(vals, "retentionTime"@) is None);
    assert("chunkCount"@.len() != "totalSamples"@.len());
    assert(field_in(vals, "chunkCount"@, 0) is None);
    assert(field(vals, "chunkCount"@) is None);
    assert("maxSamplesPerChunk"@.len() != "totalSamples"@.len());
    assert(field_in(vals, "maxSamplesPerChunk"@, 0) is None);
    assert(field(vals, "maxSamplesPerChunk"@) is None);
    assert("chunkSize"@.len() != "totalSamples"@.len());
    assert(field_in(vals, "chunkSize"@, 0) is None);
    assert(field(vals, "chunkSize"@) is None);
    assert("sourceKey"@.len() != "totalSamples"@.len());
    assert(field_in(vals, "sourceKey"@, 0) is None);
    assert(field(vals, "sourceKey"@) is None);
    assert("duplicatePolicy"@.len() != "totalSamples"@.len());
    assert(field_in(vals, "duplicatePolicy"@, 0) is None);
    assert(field(vals, "duplicatePolicy"@) is None);
    assert("labels"@.len() != "totalSamples"@.len());
    assert(field_in(vals, "labels"@, 0) is None);
    assert(field(vals, "labels"@) is None);
    assert("rules"@.len() != "totalSamples"@.len());
    assert(field_in(vals, "rules"@, 0) is None);
    assert(field(vals, "rules"@) is None);
    assert(pairs_view(info.labels@).len() == info.labels@.len());
    assert(rules_view(info.rules@).len() == info.rules@.len());
}

} // verus!
