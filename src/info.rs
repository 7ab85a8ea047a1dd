//! Decoding of a series' information reply: a flat sequence of alternating
//! field names and values, read field by field with defaults for what is
//! absent or unreadable.

use crate::decode::{decode_labels, labels_field};
use crate::options::{pairs_view, TsDuplicatePolicy};
use crate::reply::{reply_text, reply_u16, reply_u64, view_opt, FromReply, Reply, TsError};
use vstd::prelude::*;
use vstd::string::{StringExecFns, StringSliceAdditionalSpecFns};
use vstd::utf8::encode_utf8;

verus! {

/// `b` with an ASCII upper-case letter turned lower case.
pub open spec fn ascii_lower(b: u8) -> u8 {
    if 65 <= b <= 90 {
        (b + 32) as u8
    } else {
        b
    }
}

/// `s` with every ASCII upper-case letter turned lower case.
pub open spec fn lower_bytes(s: Seq<u8>) -> Seq<u8> {
    s.map_values(|b: u8| ascii_lower(b))
}

/// Whether `p` is the policy named `t`, matched without regard to ASCII
/// case; a name outside the known set gives `Other` with the name as sent.
pub open spec fn policy_named(p: TsDuplicatePolicy, t: Seq<char>) -> bool {
    let l = lower_bytes(encode_utf8(t));
    if l == encode_utf8("block"@) {
        p == TsDuplicatePolicy::Block
    } else if l == encode_utf8("first"@) {
        p == TsDuplicatePolicy::First
    } else if l == encode_utf8("last"@) {
        p == TsDuplicatePolicy::Last
    } else if l == encode_utf8("min"@) {
        p == TsDuplicatePolicy::Min
    } else if l == encode_utf8("max"@) {
        p == TsDuplicatePolicy::Max
    } else {
        p matches TsDuplicatePolicy::Other(s) && s@ == t
    }
}

fn ascii_lower_byte(b: u8) -> (r: u8)
    ensures
        r == ascii_lower(b),
{
    if 65 <= b && b <= 90 {
        b + 32
    } else {
        b
    }
}

/// Whether `a`, with ASCII letters lowered, equals `lower`.
fn ascii_ieq(a: &[u8], lower: &[u8]) -> (r: bool)
    ensures
        r == (lower_bytes(a@) == lower@),
{
    if a.len() != lower.len() {
        assert(lower_bytes(a@).len() != lower@.len());
        return false;
    }
    let mut i: usize = 0;
    while i < a.len()
        invariant
            i <= a@.len(),
            a@.len() == lower@.len(),
            forall|j: int| 0 <= j < i ==> ascii_lower(#[trigger] a@[j]) == lower@[j],
        decreases a@.len() - i,
    {
        if ascii_lower_byte(a[i]) != lower[i] {
            assert(lower_bytes(a@)[i as int] != lower@[i as int]);
            return false;
        }
        i = i + 1;
    }
    assert(lower_bytes(a@) =~= lower@);
    true
}

impl TsDuplicatePolicy {
    /// The policy named `name`, matched without regard to ASCII case.
    pub fn from_name(name: String) -> (p: TsDuplicatePolicy)
        ensures
            policy_named(p, name@),
    {
        let b = name.as_str().as_bytes();
        if ascii_ieq(b, "block".as_bytes()) {
            TsDuplicatePolicy::Block
        } else if ascii_ieq(b, "first".as_bytes()) {
            TsDuplicatePolicy::First
        } else if ascii_ieq(b, "last".as_bytes()) {
            TsDuplicatePolicy::Last
        } else if ascii_ieq(b, "min".as_bytes()) {
            TsDuplicatePolicy::Min
        } else if ascii_ieq(b, "max".as_bytes()) {
            TsDuplicatePolicy::Max
        } else {
            TsDuplicatePolicy::Other(name)
        }
    }

    /// Reads a policy name from a reply node; fails only when the node is
    /// not text.
    pub fn from_reply(r: &Reply) -> (res: Result<TsDuplicatePolicy, TsError>)
        ensures
            match res {
                Ok(p) => reply_text(*r) is Some && policy_named(p, reply_text(*r)->Some_0),
                Err(_) => reply_text(*r) is None,
            },
    {
        match String::from_reply(r) {
            Some(s) => Ok(TsDuplicatePolicy::from_name(s)),
            None => Err(TsError::MalformedReply),
        }
    }
}

/// The value of the last of the first `n` name/value pairs whose name is
/// `key`.
pub open spec fn field_in(vals: Seq<Reply>, key: Seq<char>, n: nat) -> Option<Reply>
    decreases n,
{
    if n == 0 {
        None
    } else if reply_text(vals[2 * n - 2]) == Some(key) {
        Some(vals[2 * n - 1])
    } else {
        field_in(vals, key, (n - 1) as nat)
    }
}

/// The value of field `key`: that of its last occurrence; a trailing name
/// without a value is ignored.
pub open spec fn field(vals: Seq<Reply>, key: Seq<char>) -> Option<Reply> {
    field_in(vals, key, vals.len() / 2)
}

/// A numeric field, 0 when absent or unreadable.
pub open spec fn field_u64(vals: Seq<Reply>, key: Seq<char>) -> u64 {
    match field(vals, key) {
        Some(v) => match reply_u64(v) {
            Some(n) => n,
            None => 0,
        },
        None => 0,
    }
}

/// A small numeric field, 0 when absent or unreadable.
pub open spec fn field_u16(vals: Seq<Reply>, key: Seq<char>) -> u16 {
    match field(vals, key) {
        Some(v) => match reply_u16(v) {
            Some(n) => n,
            None => 0,
        },
        None => 0,
    }
}

/// An optional text field: absent when missing, nil or not text.
pub open spec fn field_text(vals: Seq<Reply>, key: Seq<char>) -> Option<Seq<char>> {
    match field(vals, key) {
        Some(v) => reply_text(v),
        None => None,
    }
}

/// A compaction rule node: exactly a destination key, a bucket duration
/// and an aggregation name.
pub open spec fn rule_of(e: Reply) -> Option<(Seq<char>, u64, Seq<char>)> {
    match e {
        Reply::Bulk(xs) => if xs@.len() == 3 {
            match (reply_text(xs@[0]), reply_u64(xs@[1]), reply_text(xs@[2])) {
                (Some(a), Some(b), Some(c)) => Some((a, b, c)),
                _ => None,
            }
        } else {
            None
        },
        _ => None,
    }
}

/// The rule nodes that are well formed, in order; the others are skipped.
pub open spec fn rules_of(items: Seq<Reply>) -> Seq<(Seq<char>, u64, Seq<char>)>
    decreases items.len(),
{
    if items.len() == 0 {
        seq![]
    } else {
        let rest = rules_of(items.drop_last());
        match rule_of(items.last()) {
            Some(x) => rest.push(x),
            None => rest,
        }
    }
}

/// The rules of a rules slot: empty unless it is a sequence.
pub open spec fn rules_field(r: Reply) -> Seq<(Seq<char>, u64, Seq<char>)> {
    match r {
        Reply::Bulk(xs) => rules_of(xs@),
        _ => seq![],
    }
}

/// Rules seen through their text.
pub open spec fn rules_view(v: Seq<(String, u64, String)>) -> Seq<(Seq<char>, u64, Seq<char>)> {
    v.map_values(|x: (String, u64, String)| (x.0@, x.1, x.2@))
}

/// Information on one series.
#[derive(Debug)]
pub struct TsInfo {
    pub total_samples: u64,
    pub memory_usage: u64,
    pub first_timestamp: u64,
    pub last_timestamp: u64,
    pub retention_time: u64,
    pub chunk_count: u64,
    pub max_samples_per_chunk: u16,
    pub chunk_size: u64,
    pub duplicate_policy: Option<TsDuplicatePolicy>,
    pub labels: Vec<(String, String)>,
    pub source_key: Option<String>,
    pub rules: Vec<(String, u64, String)>,
}

/// Whether `info` is what the field sequence `vals` describes.
pub open spec fn info_matches(info: TsInfo, vals: Seq<Reply>) -> bool {
    &&& info.total_samples == field_u64(vals, "totalSamples"@)
    &&& info.memory_usage == field_u64(vals, "memoryUsage"@)
    &&& info.first_timestamp == field_u64(vals, "firstTimestamp"@)
    &&& info.last_timestamp == field_u64(vals, "lastTimestamp"@)
    &&& info.retention_time == field_u64(vals, "retentionTime"@)
    &&& info.chunk_count == field_u64(vals, "chunkCount"@)
    &&& info.max_samples_per_chunk == field_u16(vals, "maxSamplesPerChunk"@)
    &&& info.chunk_size == field_u64(vals, "chunkSize"@)
    &&& view_opt(info.source_key) == field_text(vals, "sourceKey"@)
    &&& match field_text(vals, "duplicatePolicy"@) {
        Some(t) => info.duplicate_policy matches Some(p) && policy_named(p, t),
        None => info.duplicate_policy is None,
    }
    &&& pairs_view(info.labels@) == match field(vals, "labels"@) {
        Some(v) => labels_field(v),
        None => seq![],
    }
    &&& rules_view(info.rules@) == match field(vals, "rules"@) {
        Some(v) => rules_field(v),
        None => seq![],
    }
}

/// Finds the value of field `key` among alternating names and values.
fn find_field<'a>(vals: &'a Vec<Reply>, key: &str) -> (r: Option<&'a Reply>)
    ensures
        match r {
            Some(x) => field(vals@, key@) == Some(*x),
            None => field(vals@, key@) is None,
        },
{
    let k = String::from_str(key);
    let n: usize = vals.len();
    let mut p: usize = n / 2;
    assert(p * 2 <= vals@.len());
    while p > 0
        invariant
            p <= vals@.len() / 2,
            p * 2 <= vals@.len(),
            n == vals@.len(),
            k@ == key@,
            field(vals@, key@) == field_in(vals@, key@, p as nat),
        decreases p,
    {
        let i: usize = p + p - 2;
        if let Some(name) = String::from_reply(&vals[i]) {
            if name == k {
                return Some(&vals[i + 1]);
            }
        }
        p = p - 1;
    }
    None
}

fn read_u64(vals: &Vec<Reply>, key: &str) -> (r: u64)
    ensures
        r == field_u64(vals@, key@),
{
    match find_field(vals, key) {
        Some(v) => match u64::from_reply(v) {
            Some(n) => n,
            None => 0,
        },
        None => 0,
    }
}

fn read_text(vals: &Vec<Reply>, key: &str) -> (r: Option<String>)
    ensures
        view_opt(r) == field_text(vals@, key@),
{
    match find_field(vals, key) {
        Some(v) => String::from_reply(v),
        None => None,
    }
}

/// Reads a rules slot, skipping malformed rules.
fn decode_rules(r: &Reply) -> (v: Vec<(String, u64, String)>)
    ensures
        rules_view(v@) == rules_field(*r),
{
    let mut out: Vec<(String, u64, String)> = Vec::new();
    match r {
        Reply::Bulk(items) => {
            let mut i: usize = 0;
            while i < items.len()
                invariant
                    i <= items@.len(),
                    rules_view(out@) == rules_of(items@.subrange(0, i as int)),
                decreases items@.len() - i,
            {
                assert(items@.subrange(0, i + 1).drop_last() =~= items@.subrange(0, i as int));
                let ghost before = out@;
                if let Reply::Bulk(xs) = &items[i] {
                    if xs.len() == 3 {
                        let a = String::from_reply(&xs[0]);
                        let b = u64::from_reply(&xs[1]);
                        let c = String::from_reply(&xs[2]);
                        if let (Some(a), Some(b), Some(c)) = (a, b, c) {
                            out.push((a, b, c));
                            assert(rules_view(out@) =~= rules_view(before).push((a@, b, c@)));
                        }
                    }
                }
                i = i + 1;
            }
            assert(items@.subrange(0, items@.len() as int) =~= items@);
        },
        _ => {
            assert(rules_view(out@) =~= seq![]);
        },
    }
    out
}

impl TsInfo {
    /// Decodes an information reply. Missing or unreadable fields keep their
    /// zero or empty default; only a reply that is not a sequence fails.
    pub fn from_reply(r: &Reply) -> (res: Result<TsInfo, TsError>)
        ensures
            match res {
                Ok(info) => r is Bulk && info_matches(info, r->Bulk_0@),
                Err(_) => !(r is Bulk),
            },
    {
        match r {
            Reply::Bulk(vals) => Ok(Self::from_fields(vals)),
            _ => Err(TsError::MalformedReply),
        }
    }

    fn from_fields(vals: &Vec<Reply>) -> (info: TsInfo)
        ensures
            info_matches(info, vals@),
    {
        let max_samples_per_chunk = match find_field(vals, "maxSamplesPerChunk") {
            Some(v) => match u16::from_reply(v) {
                Some(n) => n,
                None => 0,
            },
            None => 0,
        };
        let duplicate_policy = match read_text(vals, "duplicatePolicy") {
            Some(t) => Some(TsDuplicatePolicy::from_name(t)),
            None => None,
        };
        let labels = match find_field(vals, "labels") {
            Some(v) => decode_labels(v),
            None => Vec::new(),
        };
        let rules = match find_field(vals, "rules") {
            Some(v) => decode_rules(v),
            None => Vec::new(),
        };
        let info = TsInfo {
            total_samples: read_u64(vals, "totalSamples"),
            memory_usage: read_u64(vals, "memoryUsage"),
            first_timestamp: read_u64(vals, "firstTimestamp"),
            last_timestamp: read_u64(vals, "lastTimestamp"),
            retention_time: read_u64(vals, "retentionTime"),
            chunk_count: read_u64(vals, "chunkCount"),
            max_samples_per_chunk,
            chunk_size: read_u64(vals, "chunkSize"),
            duplicate_policy,
            labels,
            source_key: read_text(vals, "sourceKey"),
            rules,
        };
        assert(pairs_view(Seq::<(String, String)>::empty()) =~= seq![]);
        assert(rules_view(Seq::<(String, u64, String)>::empty()) =~= seq![]);
        info
    }
}

} // verus!
