//! The library's own model of a parsed configuration document: a tree of
//! strings, integers, booleans, arrays and tables, together with verified
//! helpers that read typed fields out of a table, applying defaults and
//! reporting precise decode errors.

use vstd::prelude::*;

use crate::error::DecodeError;

verus! {

/// One node of a parsed configuration document.
///
/// Value kinds that no field of the schema reads (floats, datetimes) are
/// carried as `Other`: a field of the schema that meets one fails to
/// decode with a type error, and an unknown key holding one is ignored.
#[derive(Debug)]
pub enum TomlValue {
    /// A string.
    Str(String),
    /// An integer.
    Int(i64),
    /// A boolean.
    Bool(bool),
    /// A homogeneous or heterogeneous array.
    Arr(Vec<TomlValue>),
    /// A table: key/value pairs, in document order, keys unique.
    Table(Vec<(String, TomlValue)>),
    /// A value of a kind the schema never reads.
    Other,
}

/// The value under `key` in `es`, searching from position `i` on:
/// the first pair whose key reads `key`.
pub open spec fn lookup_from(es: Seq<(String, TomlValue)>, i: int, key: Seq<char>) -> Option<
    TomlValue,
>
    decreases es.len() - i,
{
    if i < 0 || i >= es.len() {
        None
    } else if es[i].0@ == key {
        Some(es[i].1)
    } else {
        lookup_from(es, i + 1, key)
    }
}

/// The value under `key` in the table entries `es`, if any.
pub open spec fn lookup(es: Seq<(String, TomlValue)>, key: Seq<char>) -> Option<TomlValue> {
    lookup_from(es, 0, key)
}

/// `e` reports a missing required field at `path`.
pub open spec fn missing_err(e: DecodeError, path: Seq<char>) -> bool {
    e matches DecodeError::MissingField(f) && f@ == path
}

/// `e` reports a wrongly typed field at `path`.
pub open spec fn wrong_type_err(e: DecodeError, path: Seq<char>) -> bool {
    e matches DecodeError::WrongType(f) && f@ == path
}

/// String equality between an owned key and a borrowed one.
pub(crate) fn eq_str(a: &String, b: &str) -> (r: bool)
    ensures
        r == (a@ == b@),
{
    let bo: String = b.to_owned();
    *a == bo
}

/// Finds the first entry of `es` whose key reads `key`.
pub fn lookup_entry<'a>(es: &'a Vec<(String, TomlValue)>, key: &str) -> (r: Option<&'a TomlValue>)
    ensures
        match r {
            Some(v) => lookup(es@, key@) == Some(*v),
            None => lookup(es@, key@) is None,
        },
{
    let mut i: usize = 0;
    while i < es.len()
        invariant
            0 <= i <= es@.len(),
            lookup(es@, key@) == lookup_from(es@, i as int, key@),
        decreases es@.len() - i,
    {
        if eq_str(&es[i].0, key) {
            return Some(&es[i].1);
        }
        i = i + 1;
    }
    None
}

/// Reads the required string field `key`; its absence is a missing-field
/// error, any other value kind a type error, both reported at `path`.
pub fn take_req_str(es: &Vec<(String, TomlValue)>, key: &str, path: &str) -> (r: Result<
    String,
    DecodeError,
>)
    ensures
        match r {
            Ok(s) => lookup(es@, key@) matches Some(TomlValue::Str(t)) && s@ == t@,
            Err(e) => match lookup(es@, key@) {
                None => missing_err(e, path@),
                Some(v) => !(v is Str) && wrong_type_err(e, path@),
            },
        },
{
    match lookup_entry(es, key) {
        Some(TomlValue::Str(s)) => Ok(s.clone()),
        Some(_) => Err(DecodeError::WrongType(path.to_owned())),
        None => Err(DecodeError::MissingField(path.to_owned())),
    }
}

/// Reads the required boolean field `key`.
pub fn take_req_bool(es: &Vec<(String, TomlValue)>, key: &str, path: &str) -> (r: Result<
    bool,
    DecodeError,
>)
    ensures
        match r {
            Ok(b) => lookup(es@, key@) == Some(TomlValue::Bool(b)),
            Err(e) => match lookup(es@, key@) {
                None => missing_err(e, path@),
                Some(v) => !(v is Bool) && wrong_type_err(e, path@),
            },
        },
{
    match lookup_entry(es, key) {
        Some(TomlValue::Bool(b)) => Ok(*b),
        Some(_) => Err(DecodeError::WrongType(path.to_owned())),
        None => Err(DecodeError::MissingField(path.to_owned())),
    }
}

/// Reads the boolean field `key`, which defaults to `default` when absent.
pub fn take_bool_or(es: &Vec<(String, TomlValue)>, key: &str, path: &str, default: bool) -> (r:
    Result<bool, DecodeError>)
    ensures
        match r {
            Ok(b) => match lookup(es@, key@) {
                None => b == default,
                Some(v) => v == TomlValue::Bool(b),
            },
            Err(e) => (lookup(es@, key@) matches Some(v) && !(v is Bool)) && wrong_type_err(
                e,
                path@,
            ),
        },
{
    match lookup_entry(es, key) {
        Some(TomlValue::Bool(b)) => Ok(*b),
        Some(_) => Err(DecodeError::WrongType(path.to_owned())),
        None => Ok(default),
    }
}

/// Reads the integer field `key`, which defaults to `default` when absent.
pub fn take_i64_or(es: &Vec<(String, TomlValue)>, key: &str, path: &str, default: i64) -> (r:
    Result<i64, DecodeError>)
    ensures
        match r {
            Ok(n) => match lookup(es@, key@) {
                None => n == default,
                Some(v) => v == TomlValue::Int(n),
            },
            Err(e) => (lookup(es@, key@) matches Some(v) && !(v is Int)) && wrong_type_err(
                e,
                path@,
            ),
        },
{
    match lookup_entry(es, key) {
        Some(TomlValue::Int(n)) => Ok(*n),
        Some(_) => Err(DecodeError::WrongType(path.to_owned())),
        None => Ok(default),
    }
}

/// Reads the nonnegative integer field `key` as a `u64`, defaulting to
/// `default` when absent; a negative value is a type error.
pub fn take_u64_or(es: &Vec<(String, TomlValue)>, key: &str, path: &str, default: u64) -> (r:
    Result<u64, DecodeError>)
    ensures
        match r {
            Ok(n) => match lookup(es@, key@) {
                None => n == default,
                Some(v) => v matches TomlValue::Int(i) && 0 <= i && n == i as u64,
            },
            Err(e) => (lookup(es@, key@) matches Some(v) && !(v matches TomlValue::Int(i) && 0 <= i))
                && wrong_type_err(e, path@),
        },
{
    match lookup_entry(es, key) {
        Some(TomlValue::Int(n)) => {
            let n = *n;
            if n >= 0 {
                Ok(n as u64)
            } else {
                Err(DecodeError::WrongType(path.to_owned()))
            }
        },
        Some(_) => Err(DecodeError::WrongType(path.to_owned())),
        None => Ok(default),
    }
}

/// Reads the optional port-sized integer field `key`; a value outside
/// `0..=u16::MAX` is a type error.
pub fn take_opt_u16(es: &Vec<(String, TomlValue)>, key: &str, path: &str) -> (r: Result<
    Option<u16>,
    DecodeError,
>)
    ensures
        match r {
            Ok(ov) => match lookup(es@, key@) {
                None => ov is None,
                Some(v) => v matches TomlValue::Int(i) && 0 <= i <= u16::MAX && ov == Some(
                    i as u16,
                ),
            },
            Err(e) => (lookup(es@, key@) matches Some(v) && !(v matches TomlValue::Int(i) && 0 <= i
                <= u16::MAX)) && wrong_type_err(e, path@),
        },
{
    match lookup_entry(es, key) {
        Some(TomlValue::Int(i)) => {
            let i = *i;
            if 0 <= i && i <= u16::MAX as i64 {
                Ok(Some(i as u16))
            } else {
                Err(DecodeError::WrongType(path.to_owned()))
            }
        },
        Some(_) => Err(DecodeError::WrongType(path.to_owned())),
        None => Ok(None),
    }
}

/// Reads the optional size field `key`; a negative value or one above
/// `usize::MAX` is a type error.
pub fn take_opt_usize(es: &Vec<(String, TomlValue)>, key: &str, path: &str) -> (r: Result<
    Option<usize>,
    DecodeError,
>)
    ensures
        match r {
            Ok(ov) => match lookup(es@, key@) {
                None => ov is None,
                Some(v) => v matches TomlValue::Int(i) && 0 <= i <= usize::MAX && ov == Some(
                    i as usize,
                ),
            },
            Err(e) => (lookup(es@, key@) matches Some(v) && !(v matches TomlValue::Int(i) && 0 <= i
                <= usize::MAX)) && wrong_type_err(e, path@),
        },
{
    match lookup_entry(es, key) {
        Some(TomlValue::Int(i)) => {
            let i = *i;
            if 0 <= i && (i as u128) <= (usize::MAX as u128) {
                Ok(Some(i as usize))
            } else {
                Err(DecodeError::WrongType(path.to_owned()))
            }
        },
        Some(_) => Err(DecodeError::WrongType(path.to_owned())),
        None => Ok(None),
    }
}

/// Reads the optional string field `key`.
pub fn take_opt_str(es: &Vec<(String, TomlValue)>, key: &str, path: &str) -> (r: Result<
    Option<String>,
    DecodeError,
>)
    ensures
        match r {
            Ok(os) => match lookup(es@, key@) {
                None => os is None,
                Some(v) => v matches TomlValue::Str(t) && (os matches Some(s) && s@ == t@),
            },
            Err(e) => (lookup(es@, key@) matches Some(v) && !(v is Str)) && wrong_type_err(
                e,
                path@,
            ),
        },
{
    match lookup_entry(es, key) {
        Some(TomlValue::Str(s)) => Ok(Some(s.clone())),
        Some(_) => Err(DecodeError::WrongType(path.to_owned())),
        None => Ok(None),
    }
}

/// Reads the optional boolean field `key`.
pub fn take_opt_bool(es: &Vec<(String, TomlValue)>, key: &str, path: &str) -> (r: Result<
    Option<bool>,
    DecodeError,
>)
    ensures
        match r {
            Ok(ob) => match lookup(es@, key@) {
                None => ob is None,
                Some(v) => v matches TomlValue::Bool(b) && ob == Some(b),
            },
            Err(e) => (lookup(es@, key@) matches Some(v) && !(v is Bool)) && wrong_type_err(
                e,
                path@,
            ),
        },
{
    match lookup_entry(es, key) {
        Some(TomlValue::Bool(b)) => Ok(Some(*b)),
        Some(_) => Err(DecodeError::WrongType(path.to_owned())),
        None => Ok(None),
    }
}

/// Every element of `items` is a string.
pub open spec fn all_strs(items: Seq<TomlValue>) -> bool {
    forall|j: int| 0 <= j < items.len() ==> items[j] is Str
}

/// Reads the optional list-of-strings field `key`, preserving order and
/// multiplicity; an element of any other kind is a type error.
pub fn take_opt_str_list(es: &Vec<(String, TomlValue)>, key: &str, path: &str) -> (r: Result<
    Option<Vec<String>>,
    DecodeError,
>)
    ensures
        match r {
            Ok(ov) => match lookup(es@, key@) {
                None => ov is None,
                Some(v) => v matches TomlValue::Arr(items) && all_strs(items@) && (ov matches Some(
                    ss,
                ) && ss@.len() == items@.len() && (forall|j: int|
                    0 <= j < items@.len() ==> ss@[j]@ == items@[j]->Str_0@)),
            },
            Err(e) => wrong_type_err(e, path@) && match lookup(es@, key@) {
                None => false,
                Some(v) => !(v matches TomlValue::Arr(items) && all_strs(items@)),
            },
        },
{
    match lookup_entry(es, key) {
        None => Ok(None),
        Some(TomlValue::Arr(items)) => {
            proof {
                assert(lookup(es@, key@) == Some(TomlValue::Arr(*items)));
            }
            let mut out: Vec<String> = Vec::new();
            let mut j: usize = 0;
            while j < items.len()
                invariant
                    lookup(es@, key@) == Some(TomlValue::Arr(*items)),
                    0 <= j <= items@.len(),
                    out@.len() == j,
                    forall|k: int|
                        0 <= k < j ==> items@[k] is Str && out@[k]@ == items@[k]->Str_0@,
                decreases items@.len() - j,
            {
                match &items[j] {
                    TomlValue::Str(s) => {
                        out.push(s.clone());
                    },
                    _ => {
                        proof {
                            assert(!(items@[j as int] is Str));
                            assert(!all_strs(items@));
                        }
                        return Err(DecodeError::WrongType(path.to_owned()));
                    },
                }
                j = j + 1;
            }
            Ok(Some(out))
        },
        Some(_) => Err(DecodeError::WrongType(path.to_owned())),
    }
}

} // verus!
