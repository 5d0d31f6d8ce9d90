//! A JSON value as read from the app-server, and the lookups that the
//! rate-limit reply needs.
use vstd::prelude::*;

use crate::text::str_eq;

verus! {

/// A share of one percent: shares are kept in millionths of a percent.
pub const PER_PERCENT: u32 = 1_000_000;

/// The whole share, 100%, in millionths of a percent.
pub const FULL_SHARE: u32 = 100_000_000;

/// A JSON number as the reader classified it. Integers are kept exactly;
/// any other number is kept as its value times one million, rounded down
/// (so comparisons with whole percentages stay exact).
#[derive(Copy, Clone, Debug)]
pub enum JsonNumber {
    PosInt(u64),
    NegInt(i64),
    Float(i64),
}

/// A JSON value. An object keeps its members in order, each key once.
#[derive(Debug)]
pub enum Json {
    Null,
    Bool(bool),
    Number(JsonNumber),
    Str(String),
    Array(Vec<Json>),
    Object(Vec<(String, Json)>),
}

/// The value of the first member named `key`.
pub open spec fn member(m: Seq<(String, Json)>, key: Seq<char>) -> Option<Json>
    decreases m.len(),
{
    if m.len() == 0 {
        None
    } else if m.last().0@ == key {
        if member(m.drop_last(), key) is Some {
            member(m.drop_last(), key)
        } else {
            Some(m.last().1)
        }
    } else {
        member(m.drop_last(), key)
    }
}

/// `value[key]` for an object, `None` for anything else.
pub open spec fn field(value: Json, key: Seq<char>) -> Option<Json> {
    match value {
        Json::Object(m) => member(m@, key),
        _ => None,
    }
}

/// `field` on an optional value.
pub open spec fn field_of(value: Option<Json>, key: Seq<char>) -> Option<Json> {
    match value {
        Some(v) => field(v, key),
        None => None,
    }
}

/// The value as an unsigned integer, when it is one.
pub open spec fn as_u64(value: Option<Json>) -> Option<u64> {
    match value {
        Some(Json::Number(JsonNumber::PosInt(n))) => Some(n),
        _ => None,
    }
}

/// The value as a signed 64-bit integer, when it is an integer that fits.
pub open spec fn as_i64(value: Option<Json>) -> Option<i64> {
    match value {
        Some(Json::Number(JsonNumber::PosInt(n))) => if n <= i64::MAX {
            Some(n as i64)
        } else {
            None
        },
        Some(Json::Number(JsonNumber::NegInt(n))) => Some(n),
        _ => None,
    }
}

/// The value as a boolean, when it is one.
pub open spec fn as_bool(value: Option<Json>) -> Option<bool> {
    match value {
        Some(Json::Bool(b)) => Some(b),
        _ => None,
    }
}

/// The value as text, when it is a string.
pub open spec fn as_text(value: Option<Json>) -> Option<Seq<char>> {
    match value {
        Some(Json::Str(s)) => Some(s@),
        _ => None,
    }
}

/// A number of millionths of a percent clamped to 0%..=100%.
pub open spec fn clamp_percent(units: int) -> u32 {
    if units < 0 {
        0
    } else if units > FULL_SHARE {
        FULL_SHARE
    } else {
        units as u32
    }
}

/// The value as a percentage clamped to 0..=100, in millionths of a
/// percent, when it is a number.
pub open spec fn as_percent(value: Option<Json>) -> Option<u32> {
    match value {
        Some(Json::Number(JsonNumber::PosInt(n))) => Some(clamp_percent(n * PER_PERCENT)),
        Some(Json::Number(JsonNumber::NegInt(n))) => Some(clamp_percent(n * PER_PERCENT)),
        Some(Json::Number(JsonNumber::Float(h))) => Some(clamp_percent(h as int)),
        _ => None,
    }
}

impl Json {
    /// The value of member `key` of an object; `None` for anything else.
    pub fn get(&self, key: &str) -> (r: Option<&Json>)
        ensures
            match r {
                Some(v) => field(*self, key@) == Some(*v),
                None => field(*self, key@) is None,
            },
    {
        match self {
            Json::Object(m) => {
                let mut i: usize = 0;
                while i < m.len()
                    invariant
                        i <= m.len(),
                        field(*self, key@) == member(m@, key@),
                        member(m@.take(i as int), key@) is None,
                    decreases m.len() - i,
                {
                    assert(m@.take(i + 1).drop_last() =~= m@.take(i as int));
                    if str_eq(m[i].0.as_str(), key) {
                        proof {
                            assert(m@.take(i + 1).last() == m@[i as int]);
                            assert(member(m@.take(i + 1), key@) == Some(m@[i as int].1));
                            lemma_member_prefix(m@, i as int + 1, key@);
                        }
                        return Some(&m[i].1);
                    }
                    i = i + 1;
                }
                assert(m@.take(m.len() as int) =~= m@);
                None
            },
            _ => None,
        }
    }

    /// Removes member `key` of an object and gives its value; `None`, with
    /// the value unchanged, when there is no such member.
    pub fn take_field(self, key: &str) -> (r: Option<Json>)
        ensures
            r == field(self, key@),
    {
        let ghost whole = field(self, key@);
        match self {
            Json::Object(members) => {
                let mut m = members;
                let ghost orig = m@;
                assert(whole == member(orig, key@));
                let mut i: usize = 0;
                while i < m.len()
                    invariant
                        m@ == orig,
                        whole == member(orig, key@),
                        whole == field(self, key@),
                        i <= m.len(),
                        member(m@.take(i as int), key@) is None,
                    decreases m.len() - i,
                {
                    assert(m@.take(i + 1).drop_last() =~= m@.take(i as int));
                    if str_eq(m[i].0.as_str(), key) {
                        proof {
                            assert(m@.take(i + 1).last() == m@[i as int]);
                            assert(member(m@.take(i + 1), key@) == Some(m@[i as int].1));
                            lemma_member_prefix(m@, i as int + 1, key@);
                        }
                        let pair = m.remove(i);
                        assert(pair == orig[i as int]);
                        return Some(pair.1);
                    }
                    i = i + 1;
                }
                assert(m@.take(m.len() as int) =~= m@);
                None
            },
            _ => None,
        }
    }
}

/// A member found in a prefix is the member of the whole.
pub proof fn lemma_member_prefix(m: Seq<(String, Json)>, n: int, key: Seq<char>)
    requires
        0 <= n <= m.len(),
        member(m.take(n), key) is Some,
    ensures
        member(m, key) == member(m.take(n), key),
    decreases m.len() - n,
{
    if n < m.len() {
        assert(m.take(n + 1).drop_last() =~= m.take(n));
        lemma_member_prefix(m, n + 1, key);
    } else {
        assert(m.take(n) =~= m);
    }
}

/// The value of an optional number as an unsigned integer.
pub fn get_u64(value: Option<&Json>) -> (r: Option<u64>)
    ensures
        r == as_u64(match value { Some(v) => Some(*v), None => None }),
{
    match value {
        Some(Json::Number(JsonNumber::PosInt(n))) => Some(*n),
        _ => None,
    }
}

/// The value of an optional number as a signed integer, when it fits.
pub fn get_i64(value: Option<&Json>) -> (r: Option<i64>)
    ensures
        r == as_i64(match value { Some(v) => Some(*v), None => None }),
{
    match value {
        Some(Json::Number(JsonNumber::PosInt(n))) => if *n <= i64::MAX as u64 {
            Some(*n as i64)
        } else {
            None
        },
        Some(Json::Number(JsonNumber::NegInt(n))) => Some(*n),
        _ => None,
    }
}

/// The value of an optional boolean.
pub fn get_bool(value: Option<&Json>) -> (r: Option<bool>)
    ensures
        r == as_bool(match value { Some(v) => Some(*v), None => None }),
{
    match value {
        Some(Json::Bool(b)) => Some(*b),
        _ => None,
    }
}

/// An owned copy of an optional string.
pub fn get_text(value: Option<&Json>) -> (r: Option<String>)
    ensures
        match r {
            Some(s) => as_text(match value { Some(v) => Some(*v), None => None }) == Some(s@),
            None => as_text(match value { Some(v) => Some(*v), None => None }) is None,
        },
{
    match value {
        Some(Json::Str(s)) => Some(s.clone()),
        _ => None,
    }
}

/// Clamps millionths of a percent to 0%..=100%.
fn clamp_units(h: i128) -> (r: u32)
    ensures
        r == clamp_percent(h as int),
{
    if h < 0 {
        0
    } else if h > FULL_SHARE as i128 {
        FULL_SHARE
    } else {
        h as u32
    }
}

/// The value of an optional number as a clamped percentage, in millionths.
pub fn get_percent(value: Option<&Json>) -> (r: Option<u32>)
    ensures
        r == as_percent(match value { Some(v) => Some(*v), None => None }),
{
    match value {
        Some(Json::Number(JsonNumber::PosInt(n))) => Some(clamp_units((*n as i128) * (PER_PERCENT as i128))),
        Some(Json::Number(JsonNumber::NegInt(n))) => Some(clamp_units((*n as i128) * (PER_PERCENT as i128))),
        Some(Json::Number(JsonNumber::Float(h))) => Some(clamp_units(*h as i128)),
        _ => None,
    }
}

} // verus!
