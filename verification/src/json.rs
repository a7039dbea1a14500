//! A JSON document model holding, as plain values, what the response
//! parsers read.
//!
//! Objects keep their fields in the order the decoder yields them, with no
//! key repeated. A number carries what the parsers read from it: its value
//! as a `u64` when it is a non-negative integer, and the two readings the
//! parsers take of its floating-point value (computed by the decoder).
use vstd::prelude::*;

use crate::text::{parse_u32, parsed_u32, text_eq};

verus! {

/// A decoded JSON value.
#[derive(Debug)]
pub enum Json {
    Null,
    Bool(bool),
    Number(JsonNumber),
    Str(String),
    Array(Vec<Json>),
    Object(Vec<(String, Json)>),
}

/// What the parsers read from a JSON number.
#[derive(Debug)]
pub struct JsonNumber {
    /// The value as a `u64`, when it is a non-negative integer that fits.
    pub as_u64: Option<u64>,
    /// The floating-point value converted with `as u32`: truncated toward
    /// zero and clamped to `0..=u32::MAX`.
    pub float_as_u32: u32,
    /// The floating-point value formatted with three decimals (`{:.3}`).
    pub fixed3: String,
}

// ─── Specs ──────────────────────────────────────────────────────────────────

/// The value of the first field named `key`.
pub open spec fn field_lookup(fields: Seq<(String, Json)>, key: Seq<char>) -> Option<Json>
    decreases fields.len(),
{
    if fields.len() == 0 {
        None
    } else if fields[0].0@ == key {
        Some(fields[0].1)
    } else {
        field_lookup(fields.drop_first(), key)
    }
}

/// `value.get(key)`: the field of an object, `None` for anything else.
pub open spec fn get(v: Json, key: Seq<char>) -> Option<Json> {
    match v {
        Json::Object(fields) => field_lookup(fields@, key),
        _ => None,
    }
}

/// `opt.and_then(|v| v.get(key))`.
pub open spec fn get_opt(v: Option<Json>, key: Seq<char>) -> Option<Json> {
    match v {
        Some(x) => get(x, key),
        None => None,
    }
}

/// The value of the first of `keys` present in the object (as a chain of
/// `get(..).or_else(|| get(..))` picks it).
pub open spec fn first_present(v: Json, keys: Seq<Seq<char>>) -> Option<Json>
    decreases keys.len(),
{
    if keys.len() == 0 {
        None
    } else {
        match get(v, keys[0]) {
            Some(x) => Some(x),
            None => first_present(v, keys.drop_first()),
        }
    }
}

/// `as_u64`.
pub open spec fn u64_of(v: Json) -> Option<u64> {
    match v {
        Json::Number(n) => n.as_u64,
        _ => None,
    }
}

/// `as_str`, by the string's characters.
pub open spec fn str_of(v: Json) -> Option<Seq<char>> {
    match v {
        Json::Str(s) => Some(s@),
        _ => None,
    }
}

pub open spec fn u64_of_opt(v: Option<Json>) -> Option<u64> {
    match v {
        Some(x) => u64_of(x),
        None => None,
    }
}

pub open spec fn str_of_opt(v: Option<Json>) -> Option<Seq<char>> {
    match v {
        Some(x) => str_of(x),
        None => None,
    }
}

/// `as_str().unwrap_or(default)`.
pub open spec fn str_or(v: Option<Json>, default: Seq<char>) -> Seq<char> {
    match str_of_opt(v) {
        Some(s) => s,
        None => default,
    }
}

/// `as_u64().unwrap_or_default()`.
pub open spec fn u64_or_zero(v: Option<Json>) -> u64 {
    match u64_of_opt(v) {
        Some(n) => n,
        None => 0,
    }
}

/// `as_array`.
pub open spec fn array_of(v: Json) -> Option<Seq<Json>> {
    match v {
        Json::Array(a) => Some(a@),
        _ => None,
    }
}

pub open spec fn array_of_opt(v: Option<Json>) -> Option<Seq<Json>> {
    match v {
        Some(x) => array_of(x),
        None => None,
    }
}

// ─── Accessors ──────────────────────────────────────────────────────────────

/// `value.get(key)`.
pub fn json_get<'a>(v: &'a Json, key: &str) -> (r: Option<&'a Json>)
    ensures
        match r {
            Some(x) => get(*v, key@) == Some(*x),
            None => get(*v, key@) is None,
        },
{
    match v {
        Json::Object(fields) => {
            let mut i: usize = 0;
            assert(fields@.skip(0) =~= fields@);
            while i < fields.len()
                invariant
                    i <= fields@.len(),
                    *v == Json::Object(*fields),
                    field_lookup(fields@, key@) == field_lookup(fields@.skip(i as int), key@),
                decreases fields@.len() - i,
            {
                assert(fields@.skip(i as int)[0] == fields@[i as int]);
                assert(fields@.skip(i as int).drop_first() =~= fields@.skip(i + 1));
                if text_eq(fields[i].0.as_str(), key) {
                    return Some(&fields[i].1);
                }
                i = i + 1;
            }
            None
        },
        _ => None,
    }
}

/// `opt.and_then(|v| v.get(key))`.
pub fn json_get_opt<'a>(v: Option<&'a Json>, key: &str) -> (r: Option<&'a Json>)
    ensures
        match r {
            Some(x) => get_opt(opt_val(v), key@) == Some(*x),
            None => get_opt(opt_val(v), key@) is None,
        },
{
    match v {
        Some(x) => json_get(x, key),
        None => None,
    }
}

/// The value behind an optional reference.
pub open spec fn opt_val(v: Option<&Json>) -> Option<Json> {
    match v {
        Some(x) => Some(*x),
        None => None,
    }
}

/// The value of the first of `keys` present in the object.
pub fn json_first_present<'a>(v: &'a Json, keys: &Vec<&str>) -> (r: Option<&'a Json>)
    ensures
        opt_val(r) == first_present(*v, keys@.map_values(|k: &str| k@)),
{
    let ghost ks = keys@.map_values(|k: &str| k@);
    let mut i: usize = 0;
    assert(ks.skip(0) =~= ks);
    while i < keys.len()
        invariant
            i <= keys@.len(),
            ks == keys@.map_values(|k: &str| k@),
            first_present(*v, ks) == first_present(*v, ks.skip(i as int)),
        decreases keys@.len() - i,
    {
        assert(ks.skip(i as int)[0] == keys@[i as int]@);
        assert(ks.skip(i as int).drop_first() =~= ks.skip(i + 1));
        match json_get(v, keys[i]) {
            Some(x) => {
                return Some(x);
            },
            None => {},
        }
        i = i + 1;
    }
    assert(ks.skip(i as int).len() == 0);
    None
}

/// `as_u64`.
pub fn json_as_u64(v: &Json) -> (r: Option<u64>)
    ensures
        r == u64_of(*v),
{
    match v {
        Json::Number(n) => n.as_u64,
        _ => None,
    }
}

/// `as_str`.
pub fn json_as_str(v: &Json) -> (r: Option<&String>)
    ensures
        match r {
            Some(s) => str_of(*v) == Some(s@),
            None => str_of(*v) is None,
        },
{
    match v {
        Json::Str(s) => Some(s),
        _ => None,
    }
}

/// `opt.and_then(|v| v.as_u64())`.
pub fn opt_as_u64(v: Option<&Json>) -> (r: Option<u64>)
    ensures
        r == u64_of_opt(opt_val(v)),
{
    match v {
        Some(x) => json_as_u64(x),
        None => None,
    }
}

/// `opt.and_then(|v| v.as_str()).unwrap_or(default).to_string()`.
pub fn opt_str_or(v: Option<&Json>, default: &str) -> (r: String)
    ensures
        r@ == str_or(opt_val(v), default@),
{
    match v {
        Some(x) => match json_as_str(x) {
            Some(s) => s.clone(),
            None => crate::text::owned(default),
        },
        None => crate::text::owned(default),
    }
}

/// `opt.and_then(|v| v.as_str()).map(String::from)`.
pub fn opt_str(v: Option<&Json>) -> (r: Option<String>)
    ensures
        match r {
            Some(s) => str_of_opt(opt_val(v)) == Some(s@),
            None => str_of_opt(opt_val(v)) is None,
        },
{
    match v {
        Some(x) => match json_as_str(x) {
            Some(s) => Some(s.clone()),
            None => None,
        },
        None => None,
    }
}

/// `opt.and_then(|v| v.as_array())`.
pub fn opt_as_array(v: Option<&Json>) -> (r: Option<&Vec<Json>>)
    ensures
        match r {
            Some(a) => array_of_opt(opt_val(v)) == Some(a@),
            None => array_of_opt(opt_val(v)) is None,
        },
{
    match v {
        Some(Json::Array(a)) => Some(a),
        _ => None,
    }
}

/// The fields of an object (`as_object`).
pub open spec fn object_of(v: Option<Json>) -> Option<Seq<(String, Json)>> {
    match v {
        Some(Json::Object(fields)) => Some(fields@),
        _ => None,
    }
}

/// `a`, or `b` when `a` is absent (as `Option::or_else` picks).
pub open spec fn or_else(a: Option<Json>, b: Option<Json>) -> Option<Json> {
    match a {
        Some(x) => Some(x),
        None => b,
    }
}

/// The field `a` of `v`, else its field `b`.
pub open spec fn get2(v: Json, a: Seq<char>, b: Seq<char>) -> Option<Json> {
    or_else(get(v, a), get(v, b))
}

/// The field `a` of `v`, else its field `b`, else its field `c`.
pub open spec fn get3(v: Json, a: Seq<char>, b: Seq<char>, c: Seq<char>) -> Option<Json> {
    or_else(get(v, a), or_else(get(v, b), get(v, c)))
}

/// A value read as a `u32`: an integer truncated to 32 bits, another number
/// from its floating-point value, a string that parses as a `u32`; nothing
/// for anything else.
pub open spec fn u32_reading(v: Json) -> Option<u32> {
    match v {
        Json::Number(n) => Some(
            match n.as_u64 {
                Some(k) => k as u32,
                None => n.float_as_u32,
            },
        ),
        Json::Str(s) => parsed_u32(s@),
        _ => None,
    }
}

/// The reading of the first of `keys` whose field is present and reads as
/// a `u32`.
pub open spec fn first_u32(v: Json, keys: Seq<Seq<char>>) -> Option<u32>
    decreases keys.len(),
{
    if keys.len() == 0 {
        None
    } else {
        match get(v, keys[0]) {
            Some(x) => match u32_reading(x) {
                Some(n) => Some(n),
                None => first_u32(v, keys.drop_first()),
            },
            None => first_u32(v, keys.drop_first()),
        }
    }
}

/// `a.or_else(|| b)`.
pub fn json_or<'a>(a: Option<&'a Json>, b: Option<&'a Json>) -> (r: Option<&'a Json>)
    ensures
        opt_val(r) == or_else(opt_val(a), opt_val(b)),
{
    match a {
        Some(x) => Some(x),
        None => b,
    }
}

/// The field `a` of `v`, else its field `b`.
pub fn json_get2<'a>(v: &'a Json, a: &str, b: &str) -> (r: Option<&'a Json>)
    ensures
        opt_val(r) == get2(*v, a@, b@),
{
    json_or(json_get(v, a), json_get(v, b))
}

/// The field `a` of `v`, else its field `b`, else its field `c`.
pub fn json_get3<'a>(v: &'a Json, a: &str, b: &str, c: &str) -> (r: Option<&'a Json>)
    ensures
        opt_val(r) == get3(*v, a@, b@, c@),
{
    json_or(json_get(v, a), json_or(json_get(v, b), json_get(v, c)))
}

/// Reads a value as a `u32`.
pub fn json_u32_of(v: &Json) -> (r: Option<u32>)
    ensures
        r == u32_reading(*v),
{
    match v {
        Json::Number(n) => Some(
            match n.as_u64 {
                Some(k) => k as u32,
                None => n.float_as_u32,
            },
        ),
        Json::Str(s) => parse_u32(s.as_str()),
        _ => None,
    }
}

/// Tries each key in turn and returns the first field that reads as a
/// `u32`; `None` when none does.
pub fn json_u32(obj: &Json, keys: &[&str]) -> (r: Option<u32>)
    ensures
        r == first_u32(*obj, keys@.map_values(|k: &str| k@)),
{
    let ghost ks = keys@.map_values(|k: &str| k@);
    let mut i: usize = 0;
    assert(ks.skip(0) =~= ks);
    while i < keys.len()
        invariant
            i <= keys@.len(),
            ks == keys@.map_values(|k: &str| k@),
            first_u32(*obj, ks) == first_u32(*obj, ks.skip(i as int)),
        decreases keys@.len() - i,
    {
        assert(ks.skip(i as int)[0] == keys@[i as int]@);
        assert(ks.skip(i as int).drop_first() =~= ks.skip(i + 1));
        match json_get(obj, keys[i]) {
            Some(v) => match json_u32_of(v) {
                Some(n) => {
                    return Some(n);
                },
                None => {},
            },
            None => {},
        }
        i = i + 1;
    }
    assert(ks.skip(i as int).len() == 0);
    None
}

} // verus!
