//! The loosely-typed JSON tree of a response body, and the typed decoding of
//! it.

use vstd::prelude::*;

use crate::decimal::{is_numeral, Decimal};
use crate::errors::{status_token, DecodeError, OsrmStatus};
use crate::text::{all_digits, digits_value, parse_digits, str_eq};

verus! {

/// A JSON value. A number is kept as its decimal text.
#[derive(Debug)]
pub enum Json {
    Null,
    Bool(bool),
    Number(String),
    Str(String),
    Array(Vec<Json>),
    Object(Vec<(String, Json)>),
}

/// The value of the first entry named `key`, if any.
pub open spec fn lookup(entries: Seq<(String, Json)>, key: Seq<char>) -> Option<Json>
    decreases entries.len(),
{
    if entries.len() == 0 {
        None
    } else if entries[0].0@ == key {
        Some(entries[0].1)
    } else {
        lookup(entries.skip(1), key)
    }
}

/// The elements of an array; none where `j` is no array.
pub open spec fn array_items(j: Json) -> Seq<Json> {
    match j {
        Json::Array(items) => items@,
        _ => Seq::empty(),
    }
}

/// The text of a number; empty where `j` is no number.
pub open spec fn number_text(j: Json) -> Seq<char> {
    match j {
        Json::Number(s) => s@,
        _ => Seq::empty(),
    }
}

/// The field `key` of an object; `null` where it is absent or `j` is no
/// object, as an absent field and a `null` one mean the same.
pub open spec fn field(j: Json, key: Seq<char>) -> Json {
    match j {
        Json::Object(entries) => match lookup(entries@, key) {
            Some(v) => v,
            None => Json::Null,
        },
        _ => Json::Null,
    }
}

/// Looks up the field `key` of `j`; `None` stands for `null`.
pub fn get_field<'a>(j: &'a Json, key: &str) -> (r: Option<&'a Json>)
    ensures
        match r {
            Some(v) => *v == field(*j, key@),
            None => field(*j, key@) == Json::Null,
        },
{
    match j {
        Json::Object(entries) => {
            let mut i: usize = 0;
            assert(entries@.skip(0) == entries@);
            while i < entries.len()
                invariant
                    *j == Json::Object(*entries),
                    i <= entries@.len(),
                    lookup(entries@, key@) == lookup(entries@.skip(i as int), key@),
                decreases entries@.len() - i,
            {
                assert(entries@.skip(i as int).skip(1) == entries@.skip(i + 1));
                assert(entries@.skip(i as int)[0] == entries@[i as int]);
                if str_eq(entries[i].0.as_str(), key) {
                    assert(entries@[i as int].0@ == key@);
                    assert(entries@.skip(i as int).len() > 0);
                    assert(lookup(entries@.skip(i as int), key@) == Some(entries@[i as int].1));
                    return Some(&entries[i].1);
                }
                i += 1;
            }
            None
        },
        _ => None,
    }
}

/// A type that can be read from a JSON value.
pub trait FromJson: Sized {
    /// Whether `j` has the shape of a value of this type.
    spec fn decodes(j: Json) -> bool;

    /// Whether `v` is what `j` stands for.
    spec fn decoded(j: Json, v: Self) -> bool;

    /// Reads a value from `j`; fails exactly where `j` does not have the shape.
    fn from_json(j: &Json) -> (r: Result<Self, DecodeError>)
        ensures
            r is Ok <==> Self::decodes(*j),
            r matches Ok(v) ==> Self::decoded(*j, v),
    ;
}

/// Reads the field `key` of `j` as a `T`.
pub fn decode_field<T: FromJson>(j: &Json, key: &str) -> (r: Result<T, DecodeError>)
    ensures
        r is Ok <==> T::decodes(field(*j, key@)),
        r matches Ok(v) ==> T::decoded(field(*j, key@), v),
{
    match get_field(j, key) {
        Some(v) => T::from_json(v),
        None => T::from_json(&Json::Null),
    }
}

/// The object shape that every record decoder starts from.
pub fn expect_object(j: &Json) -> (r: Result<(), DecodeError>)
    ensures
        r is Ok <==> j is Object,
{
    match j {
        Json::Object(_) => Ok(()),
        _ => Err(DecodeError { expected: "object" }),
    }
}

impl FromJson for bool {
    open spec fn decodes(j: Json) -> bool {
        j is Bool
    }

    open spec fn decoded(j: Json, v: bool) -> bool {
        j == Json::Bool(v)
    }

    fn from_json(j: &Json) -> (r: Result<bool, DecodeError>) {
        match j {
            Json::Bool(b) => Ok(*b),
            _ => Err(DecodeError { expected: "boolean" }),
        }
    }
}

impl FromJson for String {
    open spec fn decodes(j: Json) -> bool {
        j is Str
    }

    open spec fn decoded(j: Json, v: String) -> bool {
        j matches Json::Str(s) && v@ == s@
    }

    fn from_json(j: &Json) -> (r: Result<String, DecodeError>) {
        match j {
            Json::Str(s) => Ok(s.clone()),
            _ => Err(DecodeError { expected: "string" }),
        }
    }
}

impl FromJson for Decimal {
    open spec fn decodes(j: Json) -> bool {
        j matches Json::Number(s) && is_numeral(s@)
    }

    open spec fn decoded(j: Json, v: Decimal) -> bool {
        j matches Json::Number(s) && v@ == s@
    }

    fn from_json(j: &Json) -> (r: Result<Decimal, DecodeError>) {
        match j {
            Json::Number(s) => match Decimal::parse(s.as_str()) {
                Some(d) => Ok(d),
                None => Err(DecodeError { expected: "number" }),
            },
            _ => Err(DecodeError { expected: "number" }),
        }
    }
}

/// Whether `j` is a number written as digits alone, of value at most `max`.
pub open spec fn is_uint(j: Json, max: nat) -> bool {
    j matches Json::Number(s) && all_digits(s@) && digits_value(s@) <= max
}

/// The value of a number written as digits alone.
pub open spec fn uint_value(j: Json) -> nat {
    match j {
        Json::Number(s) => digits_value(s@),
        _ => 0,
    }
}

fn decode_uint(j: &Json, max: u64) -> (r: Result<u64, DecodeError>)
    ensures
        r is Ok <==> is_uint(*j, max as nat),
        r matches Ok(v) ==> v == uint_value(*j),
{
    match j {
        Json::Number(s) => match parse_digits(s.as_str(), max) {
            Some(v) => Ok(v),
            None => Err(DecodeError { expected: "unsigned integer" }),
        },
        _ => Err(DecodeError { expected: "unsigned integer" }),
    }
}

impl FromJson for u64 {
    open spec fn decodes(j: Json) -> bool {
        is_uint(j, u64::MAX as nat)
    }

    open spec fn decoded(j: Json, v: u64) -> bool {
        v == uint_value(j)
    }

    fn from_json(j: &Json) -> (r: Result<u64, DecodeError>) {
        decode_uint(j, u64::MAX)
    }
}

impl FromJson for usize {
    open spec fn decodes(j: Json) -> bool {
        is_uint(j, usize::MAX as nat)
    }

    open spec fn decoded(j: Json, v: usize) -> bool {
        v == uint_value(j)
    }

    fn from_json(j: &Json) -> (r: Result<usize, DecodeError>) {
        let v = decode_uint(j, usize::MAX as u64)?;
        Ok(v as usize)
    }
}

impl FromJson for u16 {
    open spec fn decodes(j: Json) -> bool {
        is_uint(j, u16::MAX as nat)
    }

    open spec fn decoded(j: Json, v: u16) -> bool {
        v == uint_value(j)
    }

    fn from_json(j: &Json) -> (r: Result<u16, DecodeError>) {
        let v = decode_uint(j, u16::MAX as u64)?;
        Ok(v as u16)
    }
}

impl FromJson for u8 {
    open spec fn decodes(j: Json) -> bool {
        is_uint(j, u8::MAX as nat)
    }

    open spec fn decoded(j: Json, v: u8) -> bool {
        v == uint_value(j)
    }

    fn from_json(j: &Json) -> (r: Result<u8, DecodeError>) {
        let v = decode_uint(j, u8::MAX as u64)?;
        Ok(v as u8)
    }
}

impl<T: FromJson> FromJson for Option<T> {
    open spec fn decodes(j: Json) -> bool {
        j is Null || T::decodes(j)
    }

    open spec fn decoded(j: Json, v: Option<T>) -> bool {
        if j is Null {
            v is None
        } else {
            v matches Some(x) && T::decoded(j, x)
        }
    }

    fn from_json(j: &Json) -> (r: Result<Option<T>, DecodeError>) {
        match j {
            Json::Null => Ok(None),
            _ => match T::from_json(j) {
                Ok(x) => Ok(Some(x)),
                Err(e) => Err(e),
            },
        }
    }
}

impl<T: FromJson> FromJson for Vec<T> {
    open spec fn decodes(j: Json) -> bool {
        match j {
            Json::Array(items) => forall|i: int|
                0 <= i < items@.len() ==> T::decodes(#[trigger] items@[i]),
            _ => false,
        }
    }

    open spec fn decoded(j: Json, v: Vec<T>) -> bool {
        match j {
            Json::Array(items) => v@.len() == items@.len() && forall|i: int|
                0 <= i < items@.len() ==> T::decoded(#[trigger] items@[i], v@[i]),
            _ => false,
        }
    }

    fn from_json(j: &Json) -> (r: Result<Vec<T>, DecodeError>) {
        match j {
            Json::Array(items) => decode_items(items),
            _ => Err(DecodeError { expected: "array" }),
        }
    }
}

/// Reads every element of a JSON array as a `T`.
fn decode_items<T: FromJson>(items: &Vec<Json>) -> (r: Result<Vec<T>, DecodeError>)
    ensures
        r is Ok <==> forall|i: int| 0 <= i < items@.len() ==> T::decodes(#[trigger] items@[i]),
        r matches Ok(v) ==> v@.len() == items@.len() && forall|i: int|
            0 <= i < items@.len() ==> T::decoded(#[trigger] items@[i], v@[i]),
{
    let mut out: Vec<T> = Vec::new();
    let mut i: usize = 0;
    while i < items.len()
        invariant
            i <= items@.len(),
            out@.len() == i,
            forall|k: int| 0 <= k < i ==> T::decodes(#[trigger] items@[k]),
            forall|k: int| 0 <= k < i ==> T::decoded(#[trigger] items@[k], out@[k]),
        decreases items@.len() - i,
    {
        match T::from_json(&items[i]) {
            Ok(x) => out.push(x),
            Err(e) => {
                assert(!T::decodes(items@[i as int]));
                return Err(e);
            },
        }
        i += 1;
    }
    Ok(out)
}

impl<A: FromJson, B: FromJson> FromJson for (A, B) {
    open spec fn decodes(j: Json) -> bool {
        j matches Json::Array(items) && items@.len() == 2 && A::decodes(items@[0]) && B::decodes(
            items@[1],
        )
    }

    open spec fn decoded(j: Json, v: (A, B)) -> bool {
        j matches Json::Array(items) && items@.len() == 2 && A::decoded(items@[0], v.0)
            && B::decoded(items@[1], v.1)
    }

    fn from_json(j: &Json) -> (r: Result<(A, B), DecodeError>) {
        match j {
            Json::Array(items) => {
                if items.len() != 2 {
                    return Err(DecodeError { expected: "pair" });
                }
                let a = A::from_json(&items[0])?;
                let b = B::from_json(&items[1])?;
                Ok((a, b))
            },
            _ => Err(DecodeError { expected: "pair" }),
        }
    }
}

impl FromJson for OsrmStatus {
    open spec fn decodes(j: Json) -> bool {
        j matches Json::Str(s) && exists|st: OsrmStatus| status_token(st) == s@
    }

    open spec fn decoded(j: Json, v: OsrmStatus) -> bool {
        j matches Json::Str(s) && status_token(v) == s@
    }

    fn from_json(j: &Json) -> (r: Result<OsrmStatus, DecodeError>) {
        match j {
            Json::Str(s) => match OsrmStatus::from_token(s.as_str()) {
                Some(st) => Ok(st),
                None => Err(DecodeError { expected: "status code" }),
            },
            _ => Err(DecodeError { expected: "status code" }),
        }
    }
}

} // verus!
