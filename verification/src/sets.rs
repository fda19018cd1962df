//! Verified readers for the set-valued fields of the schema: the element
//! list is decoded, deduplicated, and related by contract to exactly the
//! set of elements the document names (order and multiplicity are not
//! significant in the source).

use vstd::prelude::*;

use crate::error::DecodeError;
use crate::schema::{area_type_of, routing_type_of, spec_area_type_of, spec_routing_type_of};
use crate::schema::{AreaType, RoutingType};
use crate::value::{all_strs, eq_str, lookup, lookup_entry, wrong_type_err, TomlValue};

verus! {

/// Every element of `items` is a string naming a routing type.
pub open spec fn all_routing(items: Seq<TomlValue>) -> bool {
    forall|j: int|
        0 <= j < items.len() ==> (#[trigger] items[j] matches TomlValue::Str(s)
            && spec_routing_type_of(s@) is Some)
}

/// Some element among the first `n` of `items` names `x`.
pub open spec fn has_routing_upto(items: Seq<TomlValue>, n: int, x: RoutingType) -> bool {
    exists|j: int|
        0 <= j < n && (#[trigger] items[j] matches TomlValue::Str(s) && spec_routing_type_of(s@)
            == Some(x))
}

/// Some element of `items` names `x`.
pub open spec fn has_routing(items: Seq<TomlValue>, x: RoutingType) -> bool {
    has_routing_upto(items, items.len() as int, x)
}

/// `x` occurs in `s`.
pub open spec fn seq_has_routing(s: Seq<RoutingType>, x: RoutingType) -> bool {
    exists|k: int| 0 <= k < s.len() && s[k] == x
}

/// No element of `s` occurs twice.
pub open spec fn nodup_routing(s: Seq<RoutingType>) -> bool {
    forall|a: int, b: int| 0 <= a < b < s.len() ==> s[a] != s[b]
}

/// Every element of `items` is an integer that fits a `u16`.
pub open spec fn all_u16s(items: Seq<TomlValue>) -> bool {
    forall|j: int|
        0 <= j < items.len() ==> (#[trigger] items[j] matches TomlValue::Int(i) && 0 <= i
            <= u16::MAX)
}

/// Some element among the first `n` of `items` is the integer `x`.
pub open spec fn has_u16_upto(items: Seq<TomlValue>, n: int, x: u16) -> bool {
    exists|j: int| 0 <= j < n && #[trigger] items[j] == TomlValue::Int(x as i64)
}

/// Some element of `items` is the integer `x`.
pub open spec fn has_u16(items: Seq<TomlValue>, x: u16) -> bool {
    has_u16_upto(items, items.len() as int, x)
}

/// `x` occurs in `s`.
pub open spec fn seq_has_u16(s: Seq<u16>, x: u16) -> bool {
    exists|k: int| 0 <= k < s.len() && s[k] == x
}

/// No element of `s` occurs twice.
pub open spec fn nodup_u16(s: Seq<u16>) -> bool {
    forall|a: int, b: int| 0 <= a < b < s.len() ==> s[a] != s[b]
}

/// Every element of `items` is a string naming an area type.
pub open spec fn all_area(items: Seq<TomlValue>) -> bool {
    forall|j: int|
        0 <= j < items.len() ==> (#[trigger] items[j] matches TomlValue::Str(s)
            && spec_area_type_of(s@) is Some)
}

/// Some element among the first `n` of `items` names `x`.
pub open spec fn has_area_upto(items: Seq<TomlValue>, n: int, x: AreaType) -> bool {
    exists|j: int|
        0 <= j < n && (#[trigger] items[j] matches TomlValue::Str(s) && spec_area_type_of(s@)
            == Some(x))
}

/// Some element of `items` names `x`.
pub open spec fn has_area(items: Seq<TomlValue>, x: AreaType) -> bool {
    has_area_upto(items, items.len() as int, x)
}

/// `x` occurs in `s`.
pub open spec fn seq_has_area(s: Seq<AreaType>, x: AreaType) -> bool {
    exists|k: int| 0 <= k < s.len() && s[k] == x
}

/// No element of `s` occurs twice.
pub open spec fn nodup_area(s: Seq<AreaType>) -> bool {
    forall|a: int, b: int| 0 <= a < b < s.len() ==> s[a] != s[b]
}

/// Some element among the first `n` of `items` is a string reading `s`.
pub open spec fn has_str_upto(items: Seq<TomlValue>, n: int, s: Seq<char>) -> bool {
    exists|j: int| 0 <= j < n && (#[trigger] items[j] matches TomlValue::Str(t) && t@ == s)
}

/// Some element of `items` is a string reading `s`.
pub open spec fn has_str(items: Seq<TomlValue>, s: Seq<char>) -> bool {
    has_str_upto(items, items.len() as int, s)
}

/// Some element of `ss` reads `s`.
pub open spec fn seq_has_str(ss: Seq<String>, s: Seq<char>) -> bool {
    exists|k: int| 0 <= k < ss.len() && ss[k]@ == s
}

/// No two elements of `ss` read the same.
pub open spec fn nodup_str(ss: Seq<String>) -> bool {
    forall|a: int, b: int| 0 <= a < b < ss.len() ==> ss[a]@ != ss[b]@
}

fn vec_contains_routing(v: &Vec<RoutingType>, x: RoutingType) -> (r: bool)
    ensures
        r == seq_has_routing(v@, x),
{
    let mut i: usize = 0;
    while i < v.len()
        invariant
            0 <= i <= v@.len(),
            forall|k: int| 0 <= k < i ==> v@[k] != x,
        decreases v@.len() - i,
    {
        if v[i] == x {
            return true;
        }
        i = i + 1;
    }
    false
}

fn vec_contains_area(v: &Vec<AreaType>, x: AreaType) -> (r: bool)
    ensures
        r == seq_has_area(v@, x),
{
    let mut i: usize = 0;
    while i < v.len()
        invariant
            0 <= i <= v@.len(),
            forall|k: int| 0 <= k < i ==> v@[k] != x,
        decreases v@.len() - i,
    {
        if v[i] == x {
            return true;
        }
        i = i + 1;
    }
    false
}

fn vec_contains_u16(v: &Vec<u16>, x: u16) -> (r: bool)
    ensures
        r == seq_has_u16(v@, x),
{
    let mut i: usize = 0;
    while i < v.len()
        invariant
            0 <= i <= v@.len(),
            forall|k: int| 0 <= k < i ==> v@[k] != x,
        decreases v@.len() - i,
    {
        if v[i] == x {
            return true;
        }
        i = i + 1;
    }
    false
}

fn vec_contains_str(v: &Vec<String>, x: &String) -> (r: bool)
    ensures
        r == seq_has_str(v@, x@),
{
    let mut i: usize = 0;
    while i < v.len()
        invariant
            0 <= i <= v@.len(),
            forall|k: int| 0 <= k < i ==> v@[k]@ != x@,
        decreases v@.len() - i,
    {
        if eq_str(x, v[i].as_str()) {
            return true;
        }
        i = i + 1;
    }
    false
}

/// Reads the set-of-routing-types field `key`, deduplicating; absence
/// yields the empty set, and an element that is not the name of a
/// routing type is a type error.
pub fn take_routing_set(es: &Vec<(String, TomlValue)>, key: &str, path: &str) -> (r: Result<
    Vec<RoutingType>,
    DecodeError,
>)
    ensures
        match r {
            Ok(xs) => nodup_routing(xs@) && match lookup(es@, key@) {
                None => xs@.len() == 0,
                Some(v) => v matches TomlValue::Arr(items) && all_routing(items@) && (forall|
                    x: RoutingType,
                |
                    seq_has_routing(xs@, x) <==> has_routing(items@, x)),
            },
            Err(e) => wrong_type_err(e, path@) && match lookup(es@, key@) {
                None => false,
                Some(v) => !(v matches TomlValue::Arr(items) && all_routing(items@)),
            },
        },
{
    match lookup_entry(es, key) {
        None => Ok(Vec::new()),
        Some(TomlValue::Arr(items)) => {
            let mut out: Vec<RoutingType> = Vec::new();
            let mut j: usize = 0;
            while j < items.len()
                invariant
                    lookup(es@, key@) == Some(TomlValue::Arr(*items)),
                    0 <= j <= items@.len(),
                    forall|k: int|
                        0 <= k < j ==> (#[trigger] items@[k] matches TomlValue::Str(s)
                            && spec_routing_type_of(s@) is Some),
                    nodup_routing(out@),
                    forall|x: RoutingType|
                        seq_has_routing(out@, x) <==> has_routing_upto(items@, j as int, x),
                decreases items@.len() - j,
            {
                let parsed: Option<RoutingType> = match &items[j] {
                    TomlValue::Str(s) => routing_type_of(s),
                    _ => None,
                };
                match parsed {
                    Some(x) => {
                        let ghost old_out = out@;
                        if !vec_contains_routing(&out, x) {
                            out.push(x);
                            proof {
                                assert forall|a: int, b: int|
                                    0 <= a < b < out@.len() implies out@[a] != out@[b] by {
                                    if b == out@.len() - 1 {
                                        assert(out@[a] == old_out[a]);
                                        if old_out[a] == x {
                                            assert(seq_has_routing(old_out, x));
                                        }
                                    } else {
                                        assert(old_out[a] == out@[a] && old_out[b] == out@[b]);
                                    }
                                };
                                assert forall|x2: RoutingType|
                                    seq_has_routing(out@, x2) implies (seq_has_routing(old_out, x2)
                                    || x2 == x) by {
                                    let k = choose|k: int|
                                        0 <= k < out@.len() && out@[k] == x2;
                                    if k < old_out.len() {
                                        assert(old_out[k] == x2);
                                    }
                                };
                                assert forall|x2: RoutingType|
                                    (seq_has_routing(old_out, x2) || x2 == x) implies
                                    seq_has_routing(out@, x2) by {
                                    if seq_has_routing(old_out, x2) {
                                        let k = choose|k: int|
                                            0 <= k < old_out.len() && old_out[k] == x2;
                                        assert(out@[k] == x2);
                                    } else {
                                        assert(out@[out@.len() - 1] == x2);
                                    }
                                };
                            }
                        }
                        proof {
                            assert(items@[j as int] matches TomlValue::Str(s)
                                && spec_routing_type_of(s@) == Some(x));
                            assert forall|x2: RoutingType|
                                has_routing_upto(items@, j as int + 1, x2) implies (
                                has_routing_upto(items@, j as int, x2) || x2 == x) by {
                                let k = choose|k: int|
                                    0 <= k < j as int + 1 && (#[trigger] items@[k] matches TomlValue::Str(s)
                                        && spec_routing_type_of(s@) == Some(x2));
                                if k < j as int {
                                    assert(has_routing_upto(items@, j as int, x2));
                                }
                            };
                            assert(has_routing_upto(items@, j as int + 1, x));
                            assert forall|x2: RoutingType|
                                has_routing_upto(items@, j as int, x2) implies has_routing_upto(
                                items@, j as int + 1, x2) by {
                                let k = choose|k: int|
                                    0 <= k < j as int && (#[trigger] items@[k]
                                        matches TomlValue::Str(s) && spec_routing_type_of(s@)
                                        == Some(x2));
                                assert(0 <= k < j as int + 1);
                            };
                            assert forall|x2: RoutingType|
                                seq_has_routing(out@, x2) <==> has_routing_upto(
                                items@, j as int + 1, x2) by {
                                if x2 == x {
                                    assert(seq_has_routing(out@, x2));
                                } else {
                                    assert(seq_has_routing(out@, x2) <==> seq_has_routing(
                                        old_out, x2));
                                    assert(seq_has_routing(old_out, x2) <==> has_routing_upto(
                                        items@, j as int, x2));
                                    assert(has_routing_upto(items@, j as int, x2)
                                        <==> has_routing_upto(items@, j as int + 1, x2));
                                }
                            };
                        }
                    },
                    None => {
                        proof {
                            assert(!(items@[j as int] matches TomlValue::Str(s)
                                && spec_routing_type_of(s@) is Some));
                            assert(!all_routing(items@));
                        }
                        return Err(DecodeError::WrongType(path.to_owned()));
                    },
                }
                j = j + 1;
            }
            Ok(out)
        },
        Some(_) => Err(DecodeError::WrongType(path.to_owned())),
    }
}

/// Reads the optional set-of-area-types field `key`, deduplicating; an
/// element that is not the name of an area type is a type error.
pub fn take_opt_area_set(es: &Vec<(String, TomlValue)>, key: &str, path: &str) -> (r: Result<
    Option<Vec<AreaType>>,
    DecodeError,
>)
    ensures
        match r {
            Ok(ov) => match lookup(es@, key@) {
                None => ov is None,
                Some(v) => v matches TomlValue::Arr(items) && all_area(items@) && (ov matches Some(
                    xs,
                ) && nodup_area(xs@) && (forall|x: AreaType|
                    seq_has_area(xs@, x) <==> has_area(items@, x))),
            },
            Err(e) => wrong_type_err(e, path@) && match lookup(es@, key@) {
                None => false,
                Some(v) => !(v matches TomlValue::Arr(items) && all_area(items@)),
            },
        },
{
    match lookup_entry(es, key) {
        None => Ok(None),
        Some(TomlValue::Arr(items)) => {
            let mut out: Vec<AreaType> = Vec::new();
            let mut j: usize = 0;
            while j < items.len()
                invariant
                    lookup(es@, key@) == Some(TomlValue::Arr(*items)),
                    0 <= j <= items@.len(),
                    forall|k: int|
                        0 <= k < j ==> (#[trigger] items@[k] matches TomlValue::Str(s) && spec_area_type_of(
                            s@,
                        ) is Some),
                    nodup_area(out@),
                    forall|x: AreaType|
                        seq_has_area(out@, x) <==> has_area_upto(items@, j as int, x),
                decreases items@.len() - j,
            {
                let parsed: Option<AreaType> = match &items[j] {
                    TomlValue::Str(s) => area_type_of(s),
                    _ => None,
                };
                match parsed {
                    Some(x) => {
                        let ghost old_out = out@;
                        if !vec_contains_area(&out, x) {
                            out.push(x);
                            proof {
                                assert forall|a: int, b: int|
                                    0 <= a < b < out@.len() implies out@[a] != out@[b] by {
                                    if b == out@.len() - 1 {
                                        assert(out@[a] == old_out[a]);
                                        if old_out[a] == x {
                                            assert(seq_has_area(old_out, x));
                                        }
                                    } else {
                                        assert(old_out[a] == out@[a] && old_out[b] == out@[b]);
                                    }
                                };
                                assert forall|x2: AreaType|
                                    seq_has_area(out@, x2) implies (seq_has_area(old_out, x2) || x2
                                    == x) by {
                                    let k = choose|k: int|
                                        0 <= k < out@.len() && out@[k] == x2;
                                    if k < old_out.len() {
                                        assert(old_out[k] == x2);
                                    }
                                };
                                assert forall|x2: AreaType|
                                    (seq_has_area(old_out, x2) || x2 == x) implies seq_has_area(
                                    out@, x2) by {
                                    if seq_has_area(old_out, x2) {
                                        let k = choose|k: int|
                                            0 <= k < old_out.len() && old_out[k] == x2;
                                        assert(out@[k] == x2);
                                    } else {
                                        assert(out@[out@.len() - 1] == x2);
                                    }
                                };
                            }
                        }
                        proof {
                            assert(items@[j as int] matches TomlValue::Str(s)
                                && spec_area_type_of(s@) == Some(x));
                            assert forall|x2: AreaType|
                                has_area_upto(items@, j as int + 1, x2) implies (has_area_upto(
                                items@, j as int, x2) || x2 == x) by {
                                let k = choose|k: int|
                                    0 <= k < j as int + 1 && (#[trigger] items@[k] matches TomlValue::Str(s)
                                        && spec_area_type_of(s@) == Some(x2));
                                if k < j as int {
                                    assert(has_area_upto(items@, j as int, x2));
                                }
                            };
                            assert(has_area_upto(items@, j as int + 1, x));
                            assert forall|x2: AreaType|
                                has_area_upto(items@, j as int, x2) implies has_area_upto(
                                items@, j as int + 1, x2) by {
                                let k = choose|k: int|
                                    0 <= k < j as int && (#[trigger] items@[k]
                                        matches TomlValue::Str(s) && spec_area_type_of(s@)
                                        == Some(x2));
                                assert(0 <= k < j as int + 1);
                            };
                            assert forall|x2: AreaType|
                                seq_has_area(out@, x2) <==> has_area_upto(
                                items@, j as int + 1, x2) by {
                                if x2 == x {
                                    assert(seq_has_area(out@, x2));
                                } else {
                                    assert(seq_has_area(out@, x2) <==> seq_has_area(old_out, x2));
                                    assert(seq_has_area(old_out, x2) <==> has_area_upto(
                                        items@, j as int, x2));
                                    assert(has_area_upto(items@, j as int, x2) <==> has_area_upto(
                                        items@, j as int + 1, x2));
                                }
                            };
                        }
                    },
                    None => {
                        proof {
                            assert(!(items@[j as int] matches TomlValue::Str(s)
                                && spec_area_type_of(s@) is Some));
                            assert(!all_area(items@));
                        }
                        return Err(DecodeError::WrongType(path.to_owned()));
                    },
                }
                j = j + 1;
            }
            Ok(Some(out))
        },
        Some(_) => Err(DecodeError::WrongType(path.to_owned())),
    }
}

/// Reads the optional set-of-`u16` field `key`, deduplicating; an element
/// that is not an integer in `0..=u16::MAX` is a type error.
pub fn take_opt_u16_set(es: &Vec<(String, TomlValue)>, key: &str, path: &str) -> (r: Result<
    Option<Vec<u16>>,
    DecodeError,
>)
    ensures
        match r {
            Ok(ov) => match lookup(es@, key@) {
                None => ov is None,
                Some(v) => v matches TomlValue::Arr(items) && all_u16s(items@) && (ov matches Some(
                    xs,
                ) && nodup_u16(xs@) && (forall|x: u16|
                    seq_has_u16(xs@, x) <==> has_u16(items@, x))),
            },
            Err(e) => wrong_type_err(e, path@) && match lookup(es@, key@) {
                None => false,
                Some(v) => !(v matches TomlValue::Arr(items) && all_u16s(items@)),
            },
        },
{
    match lookup_entry(es, key) {
        None => Ok(None),
        Some(TomlValue::Arr(items)) => {
            let mut out: Vec<u16> = Vec::new();
            let mut j: usize = 0;
            while j < items.len()
                invariant
                    lookup(es@, key@) == Some(TomlValue::Arr(*items)),
                    0 <= j <= items@.len(),
                    forall|k: int|
                        0 <= k < j ==> (#[trigger] items@[k] matches TomlValue::Int(i) && 0 <= i <= u16::MAX),
                    nodup_u16(out@),
                    forall|x: u16| seq_has_u16(out@, x) <==> has_u16_upto(items@, j as int, x),
                decreases items@.len() - j,
            {
                match &items[j] {
                    TomlValue::Int(i) => {
                        let i = *i;
                        if 0 <= i && i <= u16::MAX as i64 {
                            let x = i as u16;
                            proof {
                                assert(x as i64 == i);
                            }
                            let ghost old_out = out@;
                            if !vec_contains_u16(&out, x) {
                                out.push(x);
                                proof {
                                    assert forall|a: int, b: int|
                                        0 <= a < b < out@.len() implies out@[a] != out@[b] by {
                                        if b == out@.len() - 1 {
                                            assert(out@[a] == old_out[a]);
                                            if old_out[a] == x {
                                                assert(seq_has_u16(old_out, x));
                                            }
                                        } else {
                                            assert(old_out[a] == out@[a] && old_out[b] == out@[b]);
                                        }
                                    };
                                    assert forall|x2: u16|
                                        seq_has_u16(out@, x2) implies (seq_has_u16(old_out, x2)
                                        || x2 == x) by {
                                        let k = choose|k: int|
                                            0 <= k < out@.len() && out@[k] == x2;
                                        if k < old_out.len() {
                                            assert(old_out[k] == x2);
                                        }
                                    };
                                    assert forall|x2: u16|
                                        (seq_has_u16(old_out, x2) || x2 == x) implies seq_has_u16(
                                        out@, x2) by {
                                        if seq_has_u16(old_out, x2) {
                                            let k = choose|k: int|
                                                0 <= k < old_out.len() && old_out[k] == x2;
                                            assert(out@[k] == x2);
                                        } else {
                                            assert(out@[out@.len() - 1] == x2);
                                        }
                                    };
                                }
                            }
                            proof {
                                assert(items@[j as int] == TomlValue::Int(x as i64));
                                assert forall|x2: u16|
                                    has_u16_upto(items@, j as int + 1, x2) implies (has_u16_upto(
                                    items@, j as int, x2) || x2 == x) by {
                                    let k = choose|k: int|
                                        0 <= k < j as int + 1 && #[trigger] items@[k] == TomlValue::Int(
                                            x2 as i64,
                                        );
                                    if k < j as int {
                                        assert(has_u16_upto(items@, j as int, x2));
                                    }
                                };
                                assert(has_u16_upto(items@, j as int + 1, x));
                                assert forall|x2: u16|
                                    has_u16_upto(items@, j as int, x2) implies has_u16_upto(
                                    items@, j as int + 1, x2) by {
                                    let k = choose|k: int|
                                        0 <= k < j as int && #[trigger] items@[k]
                                            == TomlValue::Int(x2 as i64);
                                    assert(0 <= k < j as int + 1);
                                };
                                assert forall|x2: u16|
                                    seq_has_u16(out@, x2) <==> has_u16_upto(
                                    items@, j as int + 1, x2) by {
                                    if x2 == x {
                                        assert(seq_has_u16(out@, x2));
                                    } else {
                                        assert(seq_has_u16(out@, x2) <==> seq_has_u16(
                                            old_out, x2));
                                        assert(seq_has_u16(old_out, x2) <==> has_u16_upto(
                                            items@, j as int, x2));
                                        assert(has_u16_upto(items@, j as int, x2)
                                            <==> has_u16_upto(items@, j as int + 1, x2));
                                    }
                                };
                            }
                        } else {
                            proof {
                                assert(!(items@[j as int] matches TomlValue::Int(i2) && 0 <= i2
                                    <= u16::MAX));
                                assert(!all_u16s(items@));
                            }
                            return Err(DecodeError::WrongType(path.to_owned()));
                        }
                    },
                    _ => {
                        proof {
                            assert(!(items@[j as int] is Int));
                            assert(!all_u16s(items@));
                        }
                        return Err(DecodeError::WrongType(path.to_owned()));
                    },
                }
                j = j + 1;
            }
            Ok(Some(out))
        },
        Some(_) => Err(DecodeError::WrongType(path.to_owned())),
    }
}

/// Reads the optional set-of-strings field `key`, deduplicating on the
/// string's characters; an element of any other kind is a type error.
pub fn take_opt_str_set(es: &Vec<(String, TomlValue)>, key: &str, path: &str) -> (r: Result<
    Option<Vec<String>>,
    DecodeError,
>)
    ensures
        match r {
            Ok(ov) => match lookup(es@, key@) {
                None => ov is None,
                Some(v) => v matches TomlValue::Arr(items) && all_strs(items@) && (ov matches Some(
                    ss,
                ) && nodup_str(ss@) && (forall|s: Seq<char>|
                    seq_has_str(ss@, s) <==> has_str(items@, s))),
            },
            Err(e) => wrong_type_err(e, path@) && match lookup(es@, key@) {
                None => false,
                Some(v) => !(v matches TomlValue::Arr(items) && all_strs(items@)),
            },
        },
{
    match lookup_entry(es, key) {
        None => Ok(None),
        Some(TomlValue::Arr(items)) => {
            let mut out: Vec<String> = Vec::new();
            let mut j: usize = 0;
            while j < items.len()
                invariant
                    lookup(es@, key@) == Some(TomlValue::Arr(*items)),
                    0 <= j <= items@.len(),
                    forall|k: int| 0 <= k < j ==> items@[k] is Str,
                    nodup_str(out@),
                    forall|s: Seq<char>|
                        seq_has_str(out@, s) <==> has_str_upto(items@, j as int, s),
                decreases items@.len() - j,
            {
                match &items[j] {
                    TomlValue::Str(t) => {
                        let ghost old_out = out@;
                        if !vec_contains_str(&out, t) {
                            out.push(t.clone());
                            proof {
                                assert forall|a: int, b: int|
                                    0 <= a < b < out@.len() implies out@[a]@ != out@[b]@ by {
                                    if b == out@.len() - 1 {
                                        assert(out@[a] == old_out[a]);
                                        if old_out[a]@ == t@ {
                                            assert(seq_has_str(old_out, t@));
                                        }
                                    } else {
                                        assert(old_out[a] == out@[a] && old_out[b] == out@[b]);
                                    }
                                };
                                assert forall|s: Seq<char>|
                                    seq_has_str(out@, s) implies (seq_has_str(old_out, s) || s
                                    == t@) by {
                                    let k = choose|k: int|
                                        0 <= k < out@.len() && out@[k]@ == s;
                                    if k < old_out.len() {
                                        assert(old_out[k]@ == s);
                                    }
                                };
                                assert forall|s: Seq<char>|
                                    (seq_has_str(old_out, s) || s == t@) implies seq_has_str(
                                    out@, s) by {
                                    if seq_has_str(old_out, s) {
                                        let k = choose|k: int|
                                            0 <= k < old_out.len() && old_out[k]@ == s;
                                        assert(out@[k]@ == s);
                                    } else {
                                        assert(out@[out@.len() - 1]@ == s);
                                    }
                                };
                            }
                        }
                        proof {
                            assert(items@[j as int] matches TomlValue::Str(t2) && t2@ == t@);
                            assert forall|s: Seq<char>|
                                has_str_upto(items@, j as int + 1, s) implies (has_str_upto(
                                items@, j as int, s) || s == t@) by {
                                let k = choose|k: int|
                                    0 <= k < j as int + 1 && (#[trigger] items@[k] matches TomlValue::Str(t2)
                                        && t2@ == s);
                                if k < j as int {
                                    assert(has_str_upto(items@, j as int, s));
                                }
                            };
                            assert(has_str_upto(items@, j as int + 1, t@));
                            assert forall|s2: Seq<char>|
                                has_str_upto(items@, j as int, s2) implies has_str_upto(
                                items@, j as int + 1, s2) by {
                                let k = choose|k: int|
                                    0 <= k < j as int && (#[trigger] items@[k]
                                        matches TomlValue::Str(t2) && t2@ == s2);
                                assert(0 <= k < j as int + 1);
                            };
                            assert forall|s2: Seq<char>|
                                seq_has_str(out@, s2) <==> has_str_upto(
                                items@, j as int + 1, s2) by {
                                if s2 == t@ {
                                    assert(seq_has_str(out@, s2));
                                } else {
                                    assert(seq_has_str(out@, s2) <==> seq_has_str(old_out, s2));
                                    assert(seq_has_str(old_out, s2) <==> has_str_upto(
                                        items@, j as int, s2));
                                    assert(has_str_upto(items@, j as int, s2) <==> has_str_upto(
                                        items@, j as int + 1, s2));
                                }
                            };
                        }
                    },
                    _ => {
                        proof {
                            assert(!(items@[j as int] is Str));
                            assert(!all_strs(items@));
                        }
                        return Err(DecodeError::WrongType(path.to_owned()));
                    },
                }
                j = j + 1;
            }
            Ok(Some(out))
        },
        Some(_) => Err(DecodeError::WrongType(path.to_owned())),
    }
}

} // verus!
