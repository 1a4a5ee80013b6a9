//! The JSON document model.
//!
//! Every payload the coordinator sends or accepts is described as a `Json`
//! tree. Numbers are carried as their decimal text, exactly as they stand on
//! the wire, so the model holds every JSON number faithfully (including
//! fractional telemetry values the schema never inspects). The transport
//! layer outside the library converts between this tree and the wire bytes;
//! the verified codecs in the sibling modules map the tree to and from the
//! typed records. Specifications quantify over `Json` values directly:
//! object members are a sequence of key/value pairs in wire order, and
//! `lookup` takes the first binding of a key.

use vstd::prelude::*;

use crate::error::DecodeError;
use crate::num::{dec_i64, dec_u64, parse_i64_dec, parse_u64_dec};

verus! {

/// A JSON document: the library's wire-value type.
#[derive(Debug, PartialEq)]
pub enum Json {
    Null,
    Bool(bool),
    /// A number, as its decimal text on the wire.
    Num(String),
    Str(String),
    Arr(Vec<Json>),
    /// Object members in wire order; keys may repeat, lookup takes the first.
    Obj(Vec<(String, Json)>),
}

/// First-match lookup of a key among an object's members.
pub open spec fn lookup(o: Seq<(String, Json)>, k: Seq<char>) -> Option<Json>
    decreases o.len(),
{
    if o.len() == 0 {
        None
    } else if o[0].0@ == k {
        Some(o[0].1)
    } else {
        lookup(o.drop_first(), k)
    }
}

/// The member a key names inside a JSON value, `None` when the value is not
/// an object or the key is absent.
#[verifier::opaque]
pub open spec fn member(j: Json, k: Seq<char>) -> Option<Json> {
    match j {
        Json::Obj(entries) => lookup(entries@, k),
        _ => None,
    }
}

/// Lookup finds the first binding whose key matches.
pub proof fn lemma_lookup_at(o: Seq<(String, Json)>, k: Seq<char>, i: int)
    requires
        0 <= i < o.len(),
        o[i].0@ == k,
        forall|m: int| 0 <= m < i ==> (#[trigger] o[m].0)@ != k,
    ensures
        lookup(o, k) == Some(o[i].1),
    decreases i,
{
    if i > 0 {
        assert(o[0].0@ != k);
        assert forall|m: int| 0 <= m < i - 1 implies (#[trigger] o.drop_first()[m].0)@ != k by {
            assert(o.drop_first()[m] == o[m + 1]);
            assert(o[m + 1].0@ != k);
        }
        lemma_lookup_at(o.drop_first(), k, i - 1);
        assert(o.drop_first()[i - 1] == o[i]);
    }
}

/// Relies on str's `PartialEq`: byte equality of two `&str`, which (UTF-8
/// decoding being injective) coincides with equality of their character
/// sequences.
#[verifier::external_body]
pub(crate) fn str_eq(a: &str, b: &str) -> (r: bool)
    ensures
        r == (a@ == b@),
{
    a == b
}

/// Looks a key up in a JSON object; `None` when the value is not an object
/// or the key is absent.
pub fn obj_get<'a>(j: &'a Json, k: &str) -> (r: Option<&'a Json>)
    ensures
        match r {
            Some(c) => member(*j, k@) == Some(*c),
            None => member(*j, k@) is None,
        },
{
    match j {
        Json::Obj(entries) => {
            let ghost o = entries@;
            proof {
                assert(o.skip(0) =~= o);
            }
            let n = entries.len();
            let mut i: usize = 0;
            while i < n
                invariant
                    i <= n,
                    n == o.len(),
                    o == entries@,
                    *j == Json::Obj(*entries),
                    lookup(o, k@) == lookup(o.skip(i as int), k@),
                decreases n - i,
            {
                if str_eq(entries[i].0.as_str(), k) {
                    proof {
                        reveal(crate::json::member);
                        assert(o.skip(i as int)[0] == o[i as int]);
                        assert(lookup(o.skip(i as int), k@) == Some(o[i as int].1));
                        assert(member(*j, k@) == lookup(o, k@));
                    }
                    return Some(&entries[i].1);
                }
                proof {
                    assert(o.skip(i as int)[0] == o[i as int]);
                    assert(o.skip(i as int).drop_first() =~= o.skip(i as int + 1));
                }
                i += 1;
            }
            proof {
                reveal(crate::json::member);
                assert(o.skip(n as int).len() == 0);
            }
            None
        },
        _ => {
            proof {
                reveal(crate::json::member);
            }
            None
        },
    }
}

// What a single JSON value denotes at each primitive type.
pub open spec fn str_of(v: Json) -> Option<Seq<char>> {
    match v {
        Json::Str(s) => Some(s@),
        _ => None,
    }
}

pub open spec fn num_text_of(v: Json) -> Option<Seq<char>> {
    match v {
        Json::Num(s) => Some(s@),
        _ => None,
    }
}

pub open spec fn bool_of(v: Json) -> Option<bool> {
    match v {
        Json::Bool(b) => Some(b),
        _ => None,
    }
}

pub open spec fn u64_of(v: Json) -> Option<u64> {
    match v {
        Json::Num(s) => dec_u64(s@),
        _ => None,
    }
}

pub open spec fn i64_of(v: Json) -> Option<i64> {
    match v {
        Json::Num(s) => dec_i64(s@),
        _ => None,
    }
}

pub open spec fn u32_of(v: Json) -> Option<u32> {
    match u64_of(v) {
        Some(n) => if n <= u32::MAX as u64 {
            Some(n as u32)
        } else {
            None
        },
        None => None,
    }
}

pub open spec fn u8_of(v: Json) -> Option<u8> {
    match u64_of(v) {
        Some(n) => if n <= u8::MAX as u64 {
            Some(n as u8)
        } else {
            None
        },
        None => None,
    }
}

pub open spec fn i32_of(v: Json) -> Option<i32> {
    match i64_of(v) {
        Some(n) => if i32::MIN as i64 <= n <= i32::MAX as i64 {
            Some(n as i32)
        } else {
            None
        },
        None => None,
    }
}

// What a required member of an object denotes at each primitive type.
#[verifier::opaque]
pub open spec fn mem_str(j: Json, k: Seq<char>) -> Option<Seq<char>> {
    match member(j, k) {
        Some(v) => str_of(v),
        None => None,
    }
}

#[verifier::opaque]
pub open spec fn mem_num_text(j: Json, k: Seq<char>) -> Option<Seq<char>> {
    match member(j, k) {
        Some(v) => num_text_of(v),
        None => None,
    }
}

#[verifier::opaque]
pub open spec fn mem_bool(j: Json, k: Seq<char>) -> Option<bool> {
    match member(j, k) {
        Some(v) => bool_of(v),
        None => None,
    }
}

#[verifier::opaque]
pub open spec fn mem_u64(j: Json, k: Seq<char>) -> Option<u64> {
    match member(j, k) {
        Some(v) => u64_of(v),
        None => None,
    }
}

#[verifier::opaque]
pub open spec fn mem_u32(j: Json, k: Seq<char>) -> Option<u32> {
    match member(j, k) {
        Some(v) => u32_of(v),
        None => None,
    }
}

#[verifier::opaque]
pub open spec fn mem_i32(j: Json, k: Seq<char>) -> Option<i32> {
    match member(j, k) {
        Some(v) => i32_of(v),
        None => None,
    }
}

#[verifier::opaque]
pub open spec fn mem_i64(j: Json, k: Seq<char>) -> Option<i64> {
    match member(j, k) {
        Some(v) => i64_of(v),
        None => None,
    }
}

/// An optional member: an absent key and an explicit `null` both mean "not
/// given", exactly as the service treats optional fields.
#[verifier::opaque]
pub open spec fn mem_or_null(j: Json, k: Seq<char>) -> Option<Json> {
    match member(j, k) {
        None => None,
        Some(v) => if v is Null {
            None
        } else {
            Some(v)
        },
    }
}

/// What an optional member of an object denotes: the outer `Option` is
/// decode success, the inner one presence.
#[verifier::opaque]
pub open spec fn mem_opt_str(j: Json, k: Seq<char>) -> Option<Option<Seq<char>>> {
    match mem_or_null(j, k) {
        None => Some(None),
        Some(v) => match str_of(v) {
            Some(s) => Some(Some(s)),
            None => None,
        },
    }
}

#[verifier::opaque]
pub open spec fn mem_opt_u64(j: Json, k: Seq<char>) -> Option<Option<u64>> {
    match mem_or_null(j, k) {
        None => Some(None),
        Some(v) => match u64_of(v) {
            Some(n) => Some(Some(n)),
            None => None,
        },
    }
}

#[verifier::opaque]
pub open spec fn mem_opt_u32(j: Json, k: Seq<char>) -> Option<Option<u32>> {
    match mem_or_null(j, k) {
        None => Some(None),
        Some(v) => match u32_of(v) {
            Some(n) => Some(Some(n)),
            None => None,
        },
    }
}

#[verifier::opaque]
pub open spec fn mem_opt_u8(j: Json, k: Seq<char>) -> Option<Option<u8>> {
    match mem_or_null(j, k) {
        None => Some(None),
        Some(v) => match u8_of(v) {
            Some(n) => Some(Some(n)),
            None => None,
        },
    }
}

#[verifier::opaque]
pub open spec fn mem_opt_i32(j: Json, k: Seq<char>) -> Option<Option<i32>> {
    match mem_or_null(j, k) {
        None => Some(None),
        Some(v) => match i32_of(v) {
            Some(n) => Some(Some(n)),
            None => None,
        },
    }
}

/// The views of a sequence of strings.
pub open spec fn views_of(ss: Seq<String>) -> Seq<Seq<char>> {
    ss.map_values(|s: String| s@)
}

/// What a sequence of JSON values denotes as strings, every element one.
pub open spec fn strings_of(a: Seq<Json>) -> Option<Seq<Seq<char>>>
    decreases a.len(),
{
    if a.len() == 0 {
        Some(Seq::empty())
    } else {
        match (strings_of(a.drop_last()), str_of(a.last())) {
            (Some(p), Some(s)) => Some(p.push(s)),
            _ => None,
        }
    }
}

/// What a JSON value denotes as an array of strings.
pub open spec fn string_seq_of(v: Json) -> Option<Seq<Seq<char>>> {
    match v {
        Json::Arr(a) => strings_of(a@),
        _ => None,
    }
}

/// One non-string element spoils a strict string array.
pub proof fn lemma_strings_of_bad(a: Seq<Json>, i: int)
    requires
        0 <= i < a.len(),
        str_of(a[i]) is None,
    ensures
        strings_of(a) is None,
    decreases a.len(),
{
    if i < a.len() - 1 {
        assert(a.drop_last()[i] == a[i]);
        lemma_strings_of_bad(a.drop_last(), i);
    }
}

/// Decodes a strict string array; any non-string element is an error.
pub fn decode_strings(c: &Json, k: &str) -> (r: Result<Vec<String>, DecodeError>)
    ensures
        r matches Ok(v) ==> string_seq_of(*c) == Some(views_of(v@)),
        r is Err ==> string_seq_of(*c) is None,
{
    match c {
        Json::Arr(a) => {
            let mut out: Vec<String> = Vec::new();
            let n = a.len();
            let mut i: usize = 0;
            proof {
                assert(a@.take(0) =~= Seq::<Json>::empty());
                assert(views_of(out@) =~= Seq::<Seq<char>>::empty());
            }
            while i < n
                invariant
                    i <= n == a@.len(),
                    *c == Json::Arr(*a),
                    strings_of(a@.take(i as int)) == Some(views_of(out@)),
                decreases n - i,
            {
                match &a[i] {
                    Json::Str(s) => {
                        let ghost prev = out@;
                        out.push(s.clone());
                        proof {
                            assert(a@.take(i as int + 1).drop_last() =~= a@.take(i as int));
                            assert(a@.take(i as int + 1).last() == a@[i as int]);
                            assert(str_of(a@[i as int]) == Some(s@));
                            assert(views_of(out@) =~= views_of(prev).push(s@));
                        }
                    },
                    _ => {
                        proof {
                            lemma_strings_of_bad(a@, i as int);
                        }
                        return Err(DecodeError::at(k));
                    },
                }
                i += 1;
            }
            proof {
                assert(a@.take(n as int) =~= a@);
            }
            Ok(out)
        },
        _ => Err(DecodeError::at(k)),
    }
}

/// Encodes strings as a JSON array of strings.
pub fn encode_strings(xs: &Vec<String>) -> (r: Json)
    ensures
        string_seq_of(r) == Some(views_of(xs@)),
{
    let mut items: Vec<Json> = Vec::new();
    let n = xs.len();
    let mut i: usize = 0;
    proof {
        assert(views_of(xs@.take(0)) =~= Seq::<Seq<char>>::empty());
        assert(strings_of(items@) == Some(Seq::<Seq<char>>::empty()));
    }
    while i < n
        invariant
            i <= n == xs@.len(),
            strings_of(items@) == Some(views_of(xs@.take(i as int))),
        decreases n - i,
    {
        let ghost prev = items@;
        items.push(Json::Str(xs[i].clone()));
        proof {
            assert(items@.drop_last() =~= prev);
            assert(str_of(items@.last()) == Some(xs@[i as int]@));
            assert(views_of(xs@.take(i as int + 1)) =~= views_of(xs@.take(i as int)).push(
                xs@[i as int]@,
            ));
        }
        i += 1;
    }
    proof {
        assert(xs@.take(n as int) =~= xs@);
    }
    Json::Arr(items)
}

/// A required member of any shape.
pub fn req_member<'a>(j: &'a Json, k: &str) -> (r: Result<&'a Json, DecodeError>)
    ensures
        r matches Ok(c) ==> member(*j, k@) == Some(*c),
        r is Err ==> member(*j, k@) is None,
{
    match obj_get(j, k) {
        Some(c) => Ok(c),
        None => Err(DecodeError::at(k)),
    }
}

/// An optional member; an absent key and an explicit `null` both give `None`.
pub fn opt_member<'a>(j: &'a Json, k: &str) -> (r: Option<&'a Json>)
    ensures
        r matches Some(c) ==> mem_or_null(*j, k@) == Some(*c),
        r is None ==> mem_or_null(*j, k@) is None,
{
    proof {
        reveal(crate::json::mem_or_null);
    }    match obj_get(j, k) {
        Some(c) => match c {
            Json::Null => None,
            _ => Some(c),
        },
        None => None,
    }
}

// Conversions of one JSON value; `k` only names the field in the error.
pub fn val_bool(c: &Json, k: &str) -> (r: Result<bool, DecodeError>)
    ensures
        r matches Ok(v) ==> bool_of(*c) == Some(v),
        r is Err ==> bool_of(*c) is None,
{
    match c {
        Json::Bool(b) => Ok(*b),
        _ => Err(DecodeError::at(k)),
    }
}

pub fn val_string(c: &Json, k: &str) -> (r: Result<String, DecodeError>)
    ensures
        r matches Ok(s) ==> str_of(*c) == Some(s@),
        r is Err ==> str_of(*c) is None,
{
    match c {
        Json::Str(s) => Ok(s.clone()),
        _ => Err(DecodeError::at(k)),
    }
}

pub fn val_num_text(c: &Json, k: &str) -> (r: Result<String, DecodeError>)
    ensures
        r matches Ok(s) ==> num_text_of(*c) == Some(s@),
        r is Err ==> num_text_of(*c) is None,
{
    match c {
        Json::Num(s) => Ok(s.clone()),
        _ => Err(DecodeError::at(k)),
    }
}

pub fn val_u64(c: &Json, k: &str) -> (r: Result<u64, DecodeError>)
    ensures
        r matches Ok(v) ==> u64_of(*c) == Some(v),
        r is Err ==> u64_of(*c) is None,
{
    match c {
        Json::Num(s) => match parse_u64_dec(s.as_str()) {
            Some(v) => Ok(v),
            None => Err(DecodeError::at(k)),
        },
        _ => Err(DecodeError::at(k)),
    }
}

pub fn val_i64(c: &Json, k: &str) -> (r: Result<i64, DecodeError>)
    ensures
        r matches Ok(v) ==> i64_of(*c) == Some(v),
        r is Err ==> i64_of(*c) is None,
{
    match c {
        Json::Num(s) => match parse_i64_dec(s.as_str()) {
            Some(v) => Ok(v),
            None => Err(DecodeError::at(k)),
        },
        _ => Err(DecodeError::at(k)),
    }
}

pub fn val_u32(c: &Json, k: &str) -> (r: Result<u32, DecodeError>)
    ensures
        r matches Ok(v) ==> u32_of(*c) == Some(v),
        r is Err ==> u32_of(*c) is None,
{
    let v = val_u64(c, k)?;
    if v <= u32::MAX as u64 {
        Ok(v as u32)
    } else {
        Err(DecodeError::at(k))
    }
}

pub fn val_u8(c: &Json, k: &str) -> (r: Result<u8, DecodeError>)
    ensures
        r matches Ok(v) ==> u8_of(*c) == Some(v),
        r is Err ==> u8_of(*c) is None,
{
    let v = val_u64(c, k)?;
    if v <= u8::MAX as u64 {
        Ok(v as u8)
    } else {
        Err(DecodeError::at(k))
    }
}

pub fn val_i32(c: &Json, k: &str) -> (r: Result<i32, DecodeError>)
    ensures
        r matches Ok(v) ==> i32_of(*c) == Some(v),
        r is Err ==> i32_of(*c) is None,
{
    let v = val_i64(c, k)?;
    if i32::MIN as i64 <= v && v <= i32::MAX as i64 {
        Ok(v as i32)
    } else {
        Err(DecodeError::at(k))
    }
}

// Required members at each primitive type.
pub fn get_bool(j: &Json, k: &str) -> (r: Result<bool, DecodeError>)
    ensures
        r matches Ok(v) ==> mem_bool(*j, k@) == Some(v),
        r is Err ==> mem_bool(*j, k@) is None,
{
    proof {
        reveal(crate::json::mem_bool);
    }    val_bool(req_member(j, k)?, k)
}

pub fn get_string(j: &Json, k: &str) -> (r: Result<String, DecodeError>)
    ensures
        r matches Ok(s) ==> mem_str(*j, k@) == Some(s@),
        r is Err ==> mem_str(*j, k@) is None,
{
    proof {
        reveal(crate::json::mem_str);
    }    val_string(req_member(j, k)?, k)
}

pub fn get_num_text(j: &Json, k: &str) -> (r: Result<String, DecodeError>)
    ensures
        r matches Ok(s) ==> mem_num_text(*j, k@) == Some(s@),
        r is Err ==> mem_num_text(*j, k@) is None,
{
    proof {
        reveal(crate::json::mem_num_text);
    }    val_num_text(req_member(j, k)?, k)
}

pub fn get_u64(j: &Json, k: &str) -> (r: Result<u64, DecodeError>)
    ensures
        r matches Ok(v) ==> mem_u64(*j, k@) == Some(v),
        r is Err ==> mem_u64(*j, k@) is None,
{
    proof {
        reveal(crate::json::mem_u64);
    }    val_u64(req_member(j, k)?, k)
}

pub fn get_u32(j: &Json, k: &str) -> (r: Result<u32, DecodeError>)
    ensures
        r matches Ok(v) ==> mem_u32(*j, k@) == Some(v),
        r is Err ==> mem_u32(*j, k@) is None,
{
    proof {
        reveal(crate::json::mem_u32);
    }    val_u32(req_member(j, k)?, k)
}

pub fn get_i32(j: &Json, k: &str) -> (r: Result<i32, DecodeError>)
    ensures
        r matches Ok(v) ==> mem_i32(*j, k@) == Some(v),
        r is Err ==> mem_i32(*j, k@) is None,
{
    proof {
        reveal(crate::json::mem_i32);
    }    val_i32(req_member(j, k)?, k)
}

pub fn get_i64(j: &Json, k: &str) -> (r: Result<i64, DecodeError>)
    ensures
        r matches Ok(v) ==> mem_i64(*j, k@) == Some(v),
        r is Err ==> mem_i64(*j, k@) is None,
{
    proof {
        reveal(crate::json::mem_i64);
    }    val_i64(req_member(j, k)?, k)
}

// Optional members at each primitive type.
pub fn get_opt_string(j: &Json, k: &str) -> (r: Result<Option<String>, DecodeError>)
    ensures
        r matches Ok(v) ==> match v {
            Some(s) => mem_opt_str(*j, k@) == Some(Some(s@)),
            None => mem_opt_str(*j, k@) == Some(Option::<Seq<char>>::None),
        },
        r is Err ==> mem_opt_str(*j, k@) is None,
{
    proof {
        reveal(crate::json::mem_opt_str);
    }    match opt_member(j, k) {
        None => Ok(None),
        Some(c) => Ok(Some(val_string(c, k)?)),
    }
}

pub fn get_opt_u64(j: &Json, k: &str) -> (r: Result<Option<u64>, DecodeError>)
    ensures
        r matches Ok(v) ==> mem_opt_u64(*j, k@) == Some(v),
        r is Err ==> mem_opt_u64(*j, k@) is None,
{
    proof {
        reveal(crate::json::mem_opt_u64);
    }    match opt_member(j, k) {
        None => Ok(None),
        Some(c) => Ok(Some(val_u64(c, k)?)),
    }
}

pub fn get_opt_u32(j: &Json, k: &str) -> (r: Result<Option<u32>, DecodeError>)
    ensures
        r matches Ok(v) ==> mem_opt_u32(*j, k@) == Some(v),
        r is Err ==> mem_opt_u32(*j, k@) is None,
{
    proof {
        reveal(crate::json::mem_opt_u32);
    }    match opt_member(j, k) {
        None => Ok(None),
        Some(c) => Ok(Some(val_u32(c, k)?)),
    }
}

pub fn get_opt_u8(j: &Json, k: &str) -> (r: Result<Option<u8>, DecodeError>)
    ensures
        r matches Ok(v) ==> mem_opt_u8(*j, k@) == Some(v),
        r is Err ==> mem_opt_u8(*j, k@) is None,
{
    proof {
        reveal(crate::json::mem_opt_u8);
    }    match opt_member(j, k) {
        None => Ok(None),
        Some(c) => Ok(Some(val_u8(c, k)?)),
    }
}

pub fn get_opt_i32(j: &Json, k: &str) -> (r: Result<Option<i32>, DecodeError>)
    ensures
        r matches Ok(v) ==> mem_opt_i32(*j, k@) == Some(v),
        r is Err ==> mem_opt_i32(*j, k@) is None,
{
    proof {
        reveal(crate::json::mem_opt_i32);
    }    match opt_member(j, k) {
        None => Ok(None),
        Some(c) => Ok(Some(val_i32(c, k)?)),
    }
}

} // verus!
