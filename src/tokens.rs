//! Command tokens: the byte strings a command is made of, and the textual
//! form of integers on the wire.

use vstd::prelude::*;
use vstd::string::StringSliceAdditionalSpecFns;

verus! {

/// The tokens of a command, each seen as its bytes.
pub open spec fn toks(v: Seq<Vec<u8>>) -> Seq<Seq<u8>> {
    v.map_values(|t: Vec<u8>| t@)
}

/// The ASCII digit for `d < 10`.
pub open spec fn digit(d: nat) -> u8 {
    (d + 48) as u8
}

/// Base-10 digits of `n`, most significant first, without leading zeros.
pub open spec fn nat_text(n: nat) -> Seq<u8>
    decreases n,
{
    if n < 10 {
        seq![digit(n)]
    } else {
        nat_text(n / 10).push(digit(n % 10))
    }
}

/// Base-10 text of `i`: a `-` before the digits of a negative value.
pub open spec fn int_text(i: int) -> Seq<u8> {
    if i < 0 {
        seq![45u8] + nat_text((-i) as nat)
    } else {
        nat_text(i as nat)
    }
}

/// Relies on redis's `ToRedisArgs` for `u64`: it appends one argument, the
/// value formatted in base 10 by itoa.
#[verifier::external_body]
fn write_u64(v: u64, out: &mut Vec<Vec<u8>>)
    ensures
        toks(final(out)@) == toks(old(out)@).push(nat_text(v as nat)),
{
    redis::ToRedisArgs::write_redis_args(&v, out)
}

/// Relies on redis's `ToRedisArgs` for `i64`: it appends one argument, the
/// value formatted in base 10 by itoa, with a leading `-` when negative.
#[verifier::external_body]
fn write_i64(v: i64, out: &mut Vec<Vec<u8>>)
    ensures
        toks(final(out)@) == toks(old(out)@).push(int_text(v as int)),
{
    redis::ToRedisArgs::write_redis_args(&v, out)
}

/// Appends the decimal text of an unsigned value as one token.
pub fn push_unsigned(v: u64, out: &mut Vec<Vec<u8>>)
    ensures
        toks(final(out)@) == toks(old(out)@).push(nat_text(v as nat)),
{
    write_u64(v, out);
}

/// Appends the decimal text of a signed value as one token.
pub fn push_signed(v: i64, out: &mut Vec<Vec<u8>>)
    ensures
        toks(final(out)@) == toks(old(out)@).push(int_text(v as int)),
{
    write_i64(v, out);
}

/// The UTF-8 bytes of `s` as an owned buffer.
pub fn bytes_of(s: &str) -> (r: Vec<u8>)
    ensures
        r@ == s.spec_bytes(),
{
    let b = s.as_bytes();
    let mut r: Vec<u8> = Vec::new();
    let mut i: usize = 0;
    while i < b.len()
        invariant
            i <= b@.len(),
            b@ == s.spec_bytes(),
            r@ == b@.subrange(0, i as int),
        decreases b@.len() - i,
    {
        r.push(b[i]);
        i = i + 1;
    }
    assert(r@ =~= b@);
    r
}

/// Appends the UTF-8 bytes of `s` as one token.
pub fn push_str(s: &str, out: &mut Vec<Vec<u8>>)
    ensures
        toks(final(out)@) == toks(old(out)@).push(s.spec_bytes()),
{
    let t = bytes_of(s);
    out.push(t);
    assert(toks(final(out)@) =~= toks(old(out)@).push(s.spec_bytes()));
}

} // verus!
