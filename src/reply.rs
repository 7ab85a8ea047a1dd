//! The generic reply tree and the conversion of its scalar nodes into
//! integers and text.

use vstd::prelude::*;
use vstd::string::StringExecFns;
use vstd::utf8::{decode_utf8, valid_utf8};

verus! {

/// A reply as the store sends it: nil, an integer, a byte string, a nested
/// sequence, a status line, or the status `OK`.
#[derive(PartialEq, Eq, Debug)]
pub enum Reply {
    Nil,
    Int(i64),
    Data(Vec<u8>),
    Bulk(Vec<Reply>),
    Status(String),
    Okay,
}

/// The failure of a decode: the reply does not have the shape the result
/// needs.
#[derive(PartialEq, Eq, Clone, Copy, Debug)]
pub enum TsError {
    MalformedReply,
}

/// `Some(x@)` for `Some(x)`.
pub open spec fn view_opt<T: View>(o: Option<T>) -> Option<T::V> {
    match o {
        Some(x) => Some(x@),
        None => None,
    }
}

/// Whether `c` is an ASCII digit.
pub open spec fn is_digit(c: char) -> bool {
    '0' <= c <= '9'
}

/// The value of a string of ASCII digits.
pub open spec fn digits_value(s: Seq<char>) -> nat
    decreases s.len(),
{
    if s.len() == 0 {
        0
    } else {
        digits_value(s.drop_last()) * 10 + (s.last() as nat - '0' as nat) as nat
    }
}

/// The number written by `s`: an optional `+` and at least one ASCII digit.
pub open spec fn unsigned_text_value(s: Seq<char>) -> Option<nat> {
    let d = if s.len() > 0 && s[0] == '+' {
        s.drop_first()
    } else {
        s
    };
    if d.len() > 0 && forall|i: int| 0 <= i < d.len() ==> is_digit(#[trigger] d[i]) {
        Some(digits_value(d))
    } else {
        None
    }
}

/// `s` read as a `u64`, as `str::parse` reads it.
pub open spec fn parsed_u64(s: Seq<char>) -> Option<u64> {
    match unsigned_text_value(s) {
        Some(n) => if n <= u64::MAX {
            Some(n as u64)
        } else {
            None
        },
        None => None,
    }
}

/// `s` read as a `u16`, as `str::parse` reads it.
pub open spec fn parsed_u16(s: Seq<char>) -> Option<u16> {
    match unsigned_text_value(s) {
        Some(n) => if n <= u16::MAX {
            Some(n as u16)
        } else {
            None
        },
        None => None,
    }
}

/// Relies on `String::from_utf8`: it succeeds exactly on valid UTF-8, and the
/// string then holds the decoded characters.
#[verifier::external_body]
fn utf8_string(b: &Vec<u8>) -> (r: Option<String>)
    ensures
        r is Some <==> valid_utf8(b@),
        r is Some ==> r->Some_0@ == decode_utf8(b@),
{
    String::from_utf8(b.clone()).ok()
}

/// Relies on `str::parse::<u64>`: an optional `+`, then base-10 digits
/// whose value fits.
#[verifier::external_body]
fn parse_u64(s: &str) -> (r: Option<u64>)
    ensures
        r == parsed_u64(s@),
{
    s.parse::<u64>().ok()
}

/// Relies on `str::parse::<u16>`: an optional `+`, then base-10 digits
/// whose value fits.
#[verifier::external_body]
fn parse_u16(s: &str) -> (r: Option<u16>)
    ensures
        r == parsed_u16(s@),
{
    s.parse::<u16>().ok()
}

/// The text of a scalar reply: a byte string that is valid UTF-8, a status
/// line, or `OK`.
pub open spec fn reply_text(r: Reply) -> Option<Seq<char>> {
    match r {
        Reply::Data(b) => if valid_utf8(b@) {
            Some(decode_utf8(b@))
        } else {
            None
        },
        Reply::Status(s) => Some(s@),
        Reply::Okay => Some("OK"@),
        _ => None,
    }
}

/// A reply read as a `u64`: an integer (cast as `as` casts it), or decimal
/// text.
pub open spec fn reply_u64(r: Reply) -> Option<u64> {
    match r {
        Reply::Int(i) => Some(i as u64),
        Reply::Status(s) => parsed_u64(s@),
        Reply::Data(b) => if valid_utf8(b@) {
            parsed_u64(decode_utf8(b@))
        } else {
            None
        },
        _ => None,
    }
}

/// A reply read as a `u16`: an integer (cast as `as` casts it), or decimal
/// text.
pub open spec fn reply_u16(r: Reply) -> Option<u16> {
    match r {
        Reply::Int(i) => Some(i as u16),
        Reply::Status(s) => parsed_u16(s@),
        Reply::Data(b) => if valid_utf8(b@) {
            parsed_u16(decode_utf8(b@))
        } else {
            None
        },
        _ => None,
    }
}

/// A scalar type that a reply node can be read as.
pub trait FromReply: Sized + View {
    /// What reading `r` gives, if it can be read.
    spec fn spec_from_reply(r: Reply) -> Option<Self::V>;

    /// Reads `r`.
    fn from_reply(r: &Reply) -> (res: Option<Self>)
        ensures
            view_opt(res) == Self::spec_from_reply(*r),
    ;
}

impl FromReply for String {
    open spec fn spec_from_reply(r: Reply) -> Option<Seq<char>> {
        reply_text(r)
    }

    fn from_reply(r: &Reply) -> (res: Option<String>) {
        match r {
            Reply::Data(b) => utf8_string(b),
            Reply::Status(s) => Some(s.clone()),
            Reply::Okay => Some(String::from_str("OK")),
            _ => None,
        }
    }
}

impl FromReply for u64 {
    open spec fn spec_from_reply(r: Reply) -> Option<u64> {
        reply_u64(r)
    }

    fn from_reply(r: &Reply) -> (res: Option<u64>) {
        match r {
            Reply::Int(i) => Some(*i as u64),
            Reply::Status(s) => parse_u64(s.as_str()),
            Reply::Data(b) => match utf8_string(b) {
                Some(s) => parse_u64(s.as_str()),
                None => None,
            },
            _ => None,
        }
    }
}

impl FromReply for u16 {
    open spec fn spec_from_reply(r: Reply) -> Option<u16> {
        reply_u16(r)
    }

    fn from_reply(r: &Reply) -> (res: Option<u16>) {
        match r {
            Reply::Int(i) => Some(*i as u16),
            Reply::Status(s) => parse_u16(s.as_str()),
            Reply::Data(b) => match utf8_string(b) {
                Some(s) => parse_u16(s.as_str()),
                None => None,
            },
            _ => None,
        }
    }
}

} // verus!
