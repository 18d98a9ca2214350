//! A generic JSON document, as handed to the loader by whatever read the
//! map file.
//!
//! The loader never tokenizes JSON text itself; a caller parses the file
//! with any JSON reader and rebuilds the document as a `JsonValue` tree of
//! plain values.  A JSON number is carried in both of its useful readings:
//! as an exact integer when the literal is integral and fits `i64`, and as
//! the bit pattern of the nearest IEEE-754 double either way.  The loader
//! picks whichever reading a field calls for and never does floating-point
//! arithmetic itself.
//!
//! The `spec_*` functions here are the contract-level mirrors of the field
//! readers: each reader promises to return exactly what its mirror
//! computes, and the record constructors state their contracts over the
//! same mirrors.

use vstd::prelude::*;
use crate::error::LoadError;

verus! {

/// A 64-bit IEEE-754 value, held as its raw bit pattern.
///
/// The loader only ever stores and compares these; arithmetic on them is
/// the caller's business.
#[derive(Debug, Clone, Copy, PartialEq, Eq, Structural)]
pub struct Real {
    pub bits: u64,
}

impl Real {
    /// The bit pattern of 1.0.
    pub open spec fn spec_one() -> Real {
        Real { bits: 0x3FF0_0000_0000_0000 }
    }

    /// The bit pattern of 0.0.
    pub open spec fn spec_zero() -> Real {
        Real { bits: 0 }
    }

    pub fn from_bits(bits: u64) -> (r: Real)
        ensures
            r.bits == bits,
    {
        Real { bits }
    }

    pub fn to_bits(&self) -> (r: u64)
        ensures
            r == self.bits,
    {
        self.bits
    }

    pub fn one() -> (r: Real)
        ensures
            r == Real::spec_one(),
    {
        Real { bits: 0x3FF0_0000_0000_0000 }
    }

    pub fn zero() -> (r: Real)
        ensures
            r == Real::spec_zero(),
    {
        Real { bits: 0 }
    }
}

/// A JSON number in both readings: the exact integer (when the literal is
/// integral and representable) and the bits of the nearest double.
#[derive(Debug, Clone, Copy, PartialEq)]
pub struct JsonNum {
    pub int: Option<i64>,
    pub bits: u64,
}

/// One member of a JSON object.
#[derive(Debug)]
pub struct JsonField {
    pub key: String,
    pub value: JsonValue,
}

/// A generic JSON value.
#[derive(Debug)]
pub enum JsonValue {
    Null,
    Bool(bool),
    Num(JsonNum),
    Str(String),
    Arr(Vec<JsonValue>),
    Obj(Vec<JsonField>),
}

/// The value of the first member named `key`, if any.
pub open spec fn spec_field(fields: Seq<JsonField>, key: Seq<char>) -> Option<JsonValue>
    decreases fields.len(),
{
    if fields.len() == 0 {
        None
    } else if fields[0].key@ == key {
        Some(fields[0].value)
    } else {
        spec_field(fields.drop_first(), key)
    }
}

pub open spec fn spec_int_of(v: JsonValue) -> Option<i64> {
    match v {
        JsonValue::Num(n) => n.int,
        _ => None,
    }
}

pub open spec fn spec_real_of(v: JsonValue) -> Option<Real> {
    match v {
        JsonValue::Num(n) => Some(Real { bits: n.bits }),
        _ => None,
    }
}

pub open spec fn spec_bool_of(v: JsonValue) -> Option<bool> {
    match v {
        JsonValue::Bool(b) => Some(b),
        _ => None,
    }
}

pub open spec fn spec_str_of(v: JsonValue) -> Option<Seq<char>> {
    match v {
        JsonValue::Str(s) => Some(s@),
        _ => None,
    }
}

/// Mirror of `req_str_field`: `None` means the load fails.
pub open spec fn spec_req_str(fields: Seq<JsonField>, key: Seq<char>) -> Option<Seq<char>> {
    match spec_field(fields, key) {
        Some(v) => spec_str_of(v),
        None => None,
    }
}

/// Mirror of `opt_str_field`.
pub open spec fn spec_opt_str(fields: Seq<JsonField>, key: Seq<char>, default: Seq<char>) -> Option<
    Seq<char>,
> {
    match spec_field(fields, key) {
        Some(v) => spec_str_of(v),
        None => Some(default),
    }
}

/// Mirror of `maybe_str_field`: outer `None` means the load fails, inner
/// `None` means the member is absent.
pub open spec fn spec_maybe_str(fields: Seq<JsonField>, key: Seq<char>) -> Option<
    Option<Seq<char>>,
> {
    match spec_field(fields, key) {
        Some(v) => match spec_str_of(v) {
            Some(cs) => Some(Some(cs)),
            None => None,
        },
        None => Some(None),
    }
}

/// An integral member value within `[min, max]`, `None` otherwise.
pub open spec fn spec_int_in(v: JsonValue, min: i64, max: i64) -> Option<i64> {
    match spec_int_of(v) {
        Some(i) => if min <= i <= max {
            Some(i)
        } else {
            None
        },
        None => None,
    }
}

/// Mirror of `req_nat_field`.
pub open spec fn spec_req_nat(fields: Seq<JsonField>, key: Seq<char>, max: u64) -> Option<u64> {
    match spec_field(fields, key) {
        Some(v) => match spec_int_in(v, 0, max as i64) {
            Some(i) => Some(i as u64),
            None => None,
        },
        None => None,
    }
}

/// Mirror of `opt_nat_field`.
pub open spec fn spec_opt_nat(fields: Seq<JsonField>, key: Seq<char>, default: u64, max: u64) -> Option<
    u64,
> {
    match spec_field(fields, key) {
        Some(v) => match spec_int_in(v, 0, max as i64) {
            Some(i) => Some(i as u64),
            None => None,
        },
        None => Some(default),
    }
}

/// Mirror of `maybe_nat_field`.
pub open spec fn spec_maybe_nat(fields: Seq<JsonField>, key: Seq<char>, max: u64) -> Option<
    Option<u64>,
> {
    match spec_field(fields, key) {
        Some(v) => match spec_int_in(v, 0, max as i64) {
            Some(i) => Some(Some(i as u64)),
            None => None,
        },
        None => Some(None),
    }
}

/// Mirror of `req_int_field`.
pub open spec fn spec_req_int(fields: Seq<JsonField>, key: Seq<char>, min: i64, max: i64) -> Option<
    i64,
> {
    match spec_field(fields, key) {
        Some(v) => spec_int_in(v, min, max),
        None => None,
    }
}

/// Mirror of `opt_bool_field`.
pub open spec fn spec_opt_bool(fields: Seq<JsonField>, key: Seq<char>, default: bool) -> Option<
    bool,
> {
    match spec_field(fields, key) {
        Some(v) => spec_bool_of(v),
        None => Some(default),
    }
}

/// Mirror of `req_real_field`.
pub open spec fn spec_req_real(fields: Seq<JsonField>, key: Seq<char>) -> Option<Real> {
    match spec_field(fields, key) {
        Some(v) => spec_real_of(v),
        None => None,
    }
}

/// Mirror of `opt_real_field`.
pub open spec fn spec_opt_real(fields: Seq<JsonField>, key: Seq<char>, default: Real) -> Option<
    Real,
> {
    match spec_field(fields, key) {
        Some(v) => spec_real_of(v),
        None => Some(default),
    }
}

/// A value that `spec_field` finds is one of the object's members; in
/// particular it sits structurally inside the object.
pub proof fn lemma_spec_field_is_member(fields: Seq<JsonField>, key: Seq<char>)
    requires
        spec_field(fields, key) is Some,
    ensures
        exists|k: int|
            0 <= k < fields.len() && #[trigger] fields[k].value == spec_field(fields, key)->0,
    decreases fields.len(),
{
    if fields.len() > 0 {
        if fields[0].key@ == key {
            assert(fields[0].value == spec_field(fields, key)->0);
        } else {
            lemma_spec_field_is_member(fields.drop_first(), key);
            let k = choose|k: int|
                0 <= k < fields.drop_first().len() && #[trigger] fields.drop_first()[k].value
                    == spec_field(fields.drop_first(), key)->0;
            assert(fields[k + 1].value == spec_field(fields, key)->0);
        }
    }
}

/// String equality by contents.
pub fn str_eq(a: &str, b: &str) -> (r: bool)
    ensures
        r == (a@ == b@),
{
    let sa: String = a.to_owned();
    let sb: String = b.to_owned();
    sa == sb
}

/// Finds the first member named `key`, the reading that `spec_field` gives.
pub fn json_field<'a>(fields: &'a Vec<JsonField>, key: &str) -> (r: Option<&'a JsonValue>)
    ensures
        match r {
            Some(v) => spec_field(fields@, key@) == Some(*v)
                && exists|k: int|
                    0 <= k < fields@.len() && #[trigger] fields@[k].value == *v,
            None => spec_field(fields@, key@) is None,
        },
{
    let n = fields.len();
    let mut i: usize = 0;
    proof {
        assert(fields@.skip(0) =~= fields@);
    }
    while i < n
        invariant
            n == fields@.len(),
            i <= n,
            spec_field(fields@, key@) == spec_field(fields@.skip(i as int), key@),
        decreases n - i,
    {
        proof {
            assert(fields@.skip(i as int)[0] == fields@[i as int]);
        }
        if str_eq(fields[i].key.as_str(), key) {
            return Some(&fields[i].value);
        }
        proof {
            assert(fields@.skip(i as int).drop_first() =~= fields@.skip(i as int + 1));
        }
        i += 1;
    }
    proof {
        assert(fields@.skip(n as int) =~= Seq::<JsonField>::empty());
    }
    None
}

/// A required string member: absent or non-string fails the load.
pub fn req_str_field(fields: &Vec<JsonField>, key: &str) -> (r: Result<String, LoadError>)
    ensures
        match spec_req_str(fields@, key@) {
            Some(cs) => r matches Ok(rs) && rs@ == cs,
            None => r matches Err(e) && e is MalformedDocument,
        },
{
    match json_field(fields, key) {
        Some(JsonValue::Str(s)) => Ok(s.clone()),
        _ => Err(LoadError::MalformedDocument),
    }
}

/// An optional string member: absent means `default`, present must be a
/// string.
pub fn opt_str_field(fields: &Vec<JsonField>, key: &str, default: &str) -> (r: Result<
    String,
    LoadError,
>)
    ensures
        match spec_opt_str(fields@, key@, default@) {
            Some(cs) => r matches Ok(rs) && rs@ == cs,
            None => r matches Err(e) && e is MalformedDocument,
        },
{
    match json_field(fields, key) {
        None => Ok(default.to_owned()),
        Some(JsonValue::Str(s)) => Ok(s.clone()),
        Some(_) => Err(LoadError::MalformedDocument),
    }
}

/// An optional string member with no default: absent stays `None`, present
/// must be a string.
pub fn maybe_str_field(fields: &Vec<JsonField>, key: &str) -> (r: Result<
    Option<String>,
    LoadError,
>)
    ensures
        match spec_maybe_str(fields@, key@) {
            Some(Some(cs)) => r matches Ok(o) && o matches Some(rs) && rs@ == cs,
            Some(None) => r matches Ok(o) && o is None,
            None => r matches Err(e) && e is MalformedDocument,
        },
{
    match json_field(fields, key) {
        None => Ok(None),
        Some(JsonValue::Str(s)) => Ok(Some(s.clone())),
        Some(_) => Err(LoadError::MalformedDocument),
    }
}

/// A required unsigned integer member, at most `max`.
pub fn req_nat_field(fields: &Vec<JsonField>, key: &str, max: u64) -> (r: Result<u64, LoadError>)
    requires
        max <= 0x7fff_ffff_ffff_ffff,
    ensures
        match spec_req_nat(fields@, key@, max) {
            Some(x) => r matches Ok(y) && y == x,
            None => r matches Err(e) && e is MalformedDocument,
        },
{
    match json_field(fields, key) {
        Some(JsonValue::Num(n)) => match n.int {
            Some(i) => if 0 <= i && i <= max as i64 {
                Ok(i as u64)
            } else {
                Err(LoadError::MalformedDocument)
            },
            None => Err(LoadError::MalformedDocument),
        },
        _ => Err(LoadError::MalformedDocument),
    }
}

/// An optional unsigned integer member, at most `max`: absent means
/// `default`.
pub fn opt_nat_field(fields: &Vec<JsonField>, key: &str, default: u64, max: u64) -> (r: Result<
    u64,
    LoadError,
>)
    requires
        max <= 0x7fff_ffff_ffff_ffff,
    ensures
        match spec_opt_nat(fields@, key@, default, max) {
            Some(x) => r matches Ok(y) && y == x,
            None => r matches Err(e) && e is MalformedDocument,
        },
{
    match json_field(fields, key) {
        Some(JsonValue::Num(n)) => match n.int {
            Some(i) => if 0 <= i && i <= max as i64 {
                Ok(i as u64)
            } else {
                Err(LoadError::MalformedDocument)
            },
            None => Err(LoadError::MalformedDocument),
        },
        Some(_) => Err(LoadError::MalformedDocument),
        None => Ok(default),
    }
}

/// An optional unsigned integer member kept optional: absent stays `None`.
pub fn maybe_nat_field(fields: &Vec<JsonField>, key: &str, max: u64) -> (r: Result<
    Option<u64>,
    LoadError,
>)
    requires
        max <= 0x7fff_ffff_ffff_ffff,
    ensures
        match spec_maybe_nat(fields@, key@, max) {
            Some(Some(x)) => r matches Ok(o) && o matches Some(y) && y == x,
            Some(None) => r matches Ok(o) && o is None,
            None => r matches Err(e) && e is MalformedDocument,
        },
{
    match json_field(fields, key) {
        Some(JsonValue::Num(n)) => match n.int {
            Some(i) => if 0 <= i && i <= max as i64 {
                Ok(Some(i as u64))
            } else {
                Err(LoadError::MalformedDocument)
            },
            None => Err(LoadError::MalformedDocument),
        },
        Some(_) => Err(LoadError::MalformedDocument),
        None => Ok(None),
    }
}

/// A required signed integer member within `[min, max]`.
pub fn req_int_field(fields: &Vec<JsonField>, key: &str, min: i64, max: i64) -> (r: Result<
    i64,
    LoadError,
>)
    ensures
        match spec_req_int(fields@, key@, min, max) {
            Some(x) => r matches Ok(y) && y == x,
            None => r matches Err(e) && e is MalformedDocument,
        },
{
    match json_field(fields, key) {
        Some(JsonValue::Num(n)) => match n.int {
            Some(i) => if min <= i && i <= max {
                Ok(i)
            } else {
                Err(LoadError::MalformedDocument)
            },
            None => Err(LoadError::MalformedDocument),
        },
        _ => Err(LoadError::MalformedDocument),
    }
}

/// An optional boolean member: absent means `default`.
pub fn opt_bool_field(fields: &Vec<JsonField>, key: &str, default: bool) -> (r: Result<
    bool,
    LoadError,
>)
    ensures
        match spec_opt_bool(fields@, key@, default) {
            Some(b) => r matches Ok(x) && x == b,
            None => r matches Err(e) && e is MalformedDocument,
        },
{
    match json_field(fields, key) {
        Some(JsonValue::Bool(b)) => Ok(*b),
        Some(_) => Err(LoadError::MalformedDocument),
        None => Ok(default),
    }
}

/// A required number member, read as a double's bit pattern.
pub fn req_real_field(fields: &Vec<JsonField>, key: &str) -> (r: Result<Real, LoadError>)
    ensures
        match spec_req_real(fields@, key@) {
            Some(x) => r matches Ok(y) && y == x,
            None => r matches Err(e) && e is MalformedDocument,
        },
{
    match json_field(fields, key) {
        Some(JsonValue::Num(n)) => Ok(Real { bits: n.bits }),
        _ => Err(LoadError::MalformedDocument),
    }
}

/// An optional number member, read as a double's bit pattern: absent means
/// `default`.
pub fn opt_real_field(fields: &Vec<JsonField>, key: &str, default: Real) -> (r: Result<
    Real,
    LoadError,
>)
    ensures
        match spec_opt_real(fields@, key@, default) {
            Some(x) => r matches Ok(y) && y == x,
            None => r matches Err(e) && e is MalformedDocument,
        },
{
    match json_field(fields, key) {
        Some(JsonValue::Num(n)) => Ok(Real { bits: n.bits }),
        Some(_) => Err(LoadError::MalformedDocument),
        None => Ok(default),
    }
}

} // verus!
