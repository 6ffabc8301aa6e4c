//! A loosely-typed structured document: the boundary format in which raw
//! traces arrive and in which profiles are reflected back.
//!
//! Field extraction is defensive throughout: a missing or wrong-typed field
//! reads as a defined default rather than failing, so partially instrumented
//! traces still convert.

use vstd::prelude::*;
use vstd::string::*;
use crate::text::str_eq;

verus! {

/// One value of a structured document: a scalar, an array, or a record of
/// named fields. A number carries `Some(n)` when the source document held
/// an unsigned 64-bit integer there and `None` for any other numeric value,
/// which every reader treats as absent.
#[derive(Debug)]
pub enum DocValue {
    Null,
    Bool(bool),
    Num(Option<u64>),
    Str(String),
    Arr(Vec<DocValue>),
    Obj(Vec<(String, DocValue)>),
}

/// The value of the first field named `k`, `Null` when there is none.
pub open spec fn obj_lookup(fields: Seq<(String, DocValue)>, k: Seq<char>) -> DocValue
    decreases fields.len(),
{
    if fields.len() == 0 {
        DocValue::Null
    } else if fields[0].0@ == k {
        fields[0].1
    } else {
        obj_lookup(fields.drop_first(), k)
    }
}

/// The field `k` of `d`: `Null` when `d` is not a record or has no such field.
pub open spec fn get_field(d: DocValue, k: Seq<char>) -> DocValue {
    match d {
        DocValue::Obj(fields) => obj_lookup(fields@, k),
        _ => DocValue::Null,
    }
}

/// The unsigned-integer reading of `d`, zero when it holds none.
pub open spec fn num_or_zero(d: DocValue) -> u64 {
    match d {
        DocValue::Num(n) => match n {
            Some(v) => v,
            None => 0,
        },
        _ => 0,
    }
}

/// Whether `d` holds an unsigned 64-bit integer.
pub open spec fn is_num(d: DocValue) -> bool {
    match d {
        DocValue::Num(n) => n is Some,
        _ => false,
    }
}

/// The text of `d`, or `def` when `d` is not a string.
pub open spec fn str_or(d: DocValue, def: Seq<char>) -> Seq<char> {
    match d {
        DocValue::Str(s) => s@,
        _ => def,
    }
}

/// The elements of `d`, empty when `d` is not an array.
pub open spec fn arr_of(d: DocValue) -> Seq<DocValue> {
    match d {
        DocValue::Arr(v) => v@,
        _ => Seq::empty(),
    }
}

/// The document value an optional reference stands for: a missing reference
/// reads as `Null`, so lookups compose through absent intermediate records.
pub open spec fn opt_val(d: Option<&DocValue>) -> DocValue {
    match d {
        Some(v) => *v,
        None => DocValue::Null,
    }
}

/// Looks the field `k` up in the record `d`.
pub fn field<'a>(d: Option<&'a DocValue>, k: &str) -> (r: Option<&'a DocValue>)
    ensures
        opt_val(r) == get_field(opt_val(d), k@),
{
    let dv = match d {
        Some(v) => v,
        None => {
            return None;
        },
    };
    match dv {
        DocValue::Obj(fields) => {
            let n = fields.len();
            let mut i: usize = 0;
            proof {
                assert(fields@.skip(0) =~= fields@);
            }
            while i < n
                invariant
                    n == fields@.len(),
                    i <= n,
                    get_field(opt_val(d), k@) == obj_lookup(fields@, k@),
                    obj_lookup(fields@, k@) == obj_lookup(fields@.skip(i as int), k@),
                decreases n - i,
            {
                let pair = &fields[i];
                if str_eq(pair.0.as_str(), k) {
                    let r = Some(&pair.1);
                    proof {
                        let fs = fields@.skip(i as int);
                        assert(fs[0] == fields@[i as int]);
                        assert(fs[0].0@ == k@);
                        assert(obj_lookup(fs, k@) == fs[0].1);
                        assert(opt_val(r) == fields@[i as int].1);
                    }
                    return r;
                }
                proof {
                    assert(fields@.skip(i as int).drop_first() =~= fields@.skip(i as int + 1));
                }
                i = i + 1;
            }
            proof {
                assert(fields@.skip(n as int) =~= Seq::<(String, DocValue)>::empty());
            }
            None
        },
        _ => None,
    }
}

/// Reads `d` as an unsigned integer, zero when it holds none.
pub fn num_of(d: Option<&DocValue>) -> (r: u64)
    ensures
        r == num_or_zero(opt_val(d)),
{
    match d {
        Some(v) => match v {
            DocValue::Num(n) => match n {
                Some(x) => *x,
                None => 0,
            },
            _ => 0,
        },
        None => 0,
    }
}

/// Reads `d` as an unsigned integer, `None` when it holds none: for the
/// fields on which the conversion must not default.
pub fn num_checked(d: Option<&DocValue>) -> (r: Option<u64>)
    ensures
        match r {
            Some(n) => is_num(opt_val(d)) && n == num_or_zero(opt_val(d)),
            None => !is_num(opt_val(d)),
        },
{
    match d {
        Some(v) => match v {
            DocValue::Num(n) => match n {
                Some(x) => Some(*x),
                None => None,
            },
            _ => None,
        },
        None => None,
    }
}

/// Reads `d` as text, `def` when it holds none.
pub fn str_of(d: Option<&DocValue>, def: &str) -> (r: String)
    ensures
        r@ == str_or(opt_val(d), def@),
{
    match d {
        Some(v) => match v {
            DocValue::Str(s) => s.clone(),
            _ => String::from_str(def),
        },
        None => String::from_str(def),
    }
}

/// The elements of the array `d`; `None` stands for no elements.
pub fn elems<'a>(d: Option<&'a DocValue>) -> (r: Option<&'a Vec<DocValue>>)
    ensures
        match r {
            Some(v) => v@ == arr_of(opt_val(d)),
            None => arr_of(opt_val(d)) =~= Seq::<DocValue>::empty(),
        },
{
    match d {
        Some(v) => match v {
            DocValue::Arr(items) => Some(items),
            _ => None,
        },
        None => None,
    }
}

} // verus!
