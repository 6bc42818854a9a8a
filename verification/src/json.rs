//! A plain model of a decoded JSON response: enough structure for the
//! pipeline to select the documented fields, with exact contracts saying
//! which field is returned and when a response is rejected.
//!
//! The caller (whatever performs the HTTP exchange) turns the response text
//! into a [`FieldValue`]; floating-point numbers, which no pipeline stage
//! reads, arrive as [`FieldValue::Other`].

use vstd::prelude::*;

verus! {

/// One decoded JSON value, held as plain data.
pub enum FieldValue {
    Null,
    Bool(bool),
    /// A non-negative integer.
    UInt(u64),
    /// A negative integer (positive ones arrive as `UInt`).
    Int(i64),
    Str(String),
    List(Vec<FieldValue>),
    /// An object's members, in the order the response text gives them.
    Obj(Vec<(String, FieldValue)>),
    /// A value of a kind no pipeline stage reads, such as a float.
    Other,
}

/// The first member of `pairs` named `key`, as JSON objects are read.
pub open spec fn obj_lookup(pairs: Seq<(String, FieldValue)>, key: Seq<char>) -> Option<
    FieldValue,
>
    decreases pairs.len(),
{
    if pairs.len() == 0 {
        None
    } else if pairs[0].0@ == key {
        Some(pairs[0].1)
    } else {
        obj_lookup(pairs.drop_first(), key)
    }
}

/// The member `key` of `v`, when `v` is an object that has it.
pub open spec fn field_of(v: FieldValue, key: Seq<char>) -> Option<FieldValue> {
    match v {
        FieldValue::Obj(pairs) => obj_lookup(pairs@, key),
        _ => None,
    }
}

/// The member `key` of `v`, when it is a string.
pub open spec fn str_field(v: FieldValue, key: Seq<char>) -> Option<Seq<char>> {
    match field_of(v, key) {
        Some(FieldValue::Str(s)) => Some(s@),
        _ => None,
    }
}

/// The member `key` of `v`, when it is a non-negative integer.
pub open spec fn u64_field(v: FieldValue, key: Seq<char>) -> Option<u64> {
    match field_of(v, key) {
        Some(FieldValue::UInt(n)) => Some(n),
        _ => None,
    }
}

/// The member `key` of `v`, when it is an integer that fits `i64`.
pub open spec fn i64_field(v: FieldValue, key: Seq<char>) -> Option<i64> {
    match field_of(v, key) {
        Some(FieldValue::UInt(n)) => if n <= i64::MAX as u64 {
            Some(n as i64)
        } else {
            None
        },
        Some(FieldValue::Int(n)) => Some(n),
        _ => None,
    }
}

/// The views of a sequence of strings.
pub open spec fn strings_views(l: Seq<String>) -> Seq<Seq<char>> {
    l.map_values(|s: String| s@)
}

/// The member `key` of `v`, when it is a list whose items are all strings.
pub open spec fn str_list_field(v: FieldValue, key: Seq<char>) -> Option<Seq<Seq<char>>> {
    match field_of(v, key) {
        Some(FieldValue::List(items)) => if forall|i: int|
            0 <= i < items@.len() ==> items@[i] is Str {
            Some(items@.map_values(|f: FieldValue| f->Str_0@))
        } else {
            None
        },
        _ => None,
    }
}

/// Returns the member `key` of `v`, exactly when [`field_of`] gives one.
pub fn get_field<'a>(v: &'a FieldValue, key: &str) -> (r: Option<&'a FieldValue>)
    ensures
        match field_of(*v, key@) {
            Some(f) => r is Some && *r.unwrap() == f,
            None => r is None,
        },
{
    let key_string = String::from_str(key);
    match v {
        FieldValue::Obj(pairs) => {
            proof {
                assert(pairs@.skip(0) =~= pairs@);
            }
            let mut i: usize = 0;
            while i < pairs.len()
                invariant
                    i <= pairs@.len(),
                    field_of(*v, key@) == obj_lookup(pairs@.skip(i as int), key@),
                    key_string@ == key@,
                decreases pairs@.len() - i,
            {
                proof {
                    assert(pairs@.skip(i as int).drop_first() =~= pairs@.skip(i + 1));
                    assert(pairs@.skip(i as int)[0] == pairs@[i as int]);
                }
                if pairs[i].0 == key_string {
                    let res = &pairs[i].1;
                    proof {
                        assert(obj_lookup(pairs@.skip(i as int), key@) == Some(
                            pairs@[i as int].1,
                        ));
                        assert(*res == pairs@[i as int].1);
                    }
                    return Some(res);
                }
                i = i + 1;
            }
            proof {
                assert(pairs@.skip(i as int) =~= Seq::<(String, FieldValue)>::empty());
            }
            None
        },
        _ => None,
    }
}

/// Returns the string member `key` of `v`, exactly when [`str_field`] gives one.
pub fn get_str_field(v: &FieldValue, key: &str) -> (r: Option<String>)
    ensures
        match str_field(*v, key@) {
            Some(s) => r is Some && r.unwrap()@ == s,
            None => r is None,
        },
{
    match get_field(v, key) {
        Some(FieldValue::Str(s)) => Some(s.clone()),
        _ => None,
    }
}

/// Returns the non-negative integer member `key` of `v`, exactly when
/// [`u64_field`] gives one.
pub fn get_u64_field(v: &FieldValue, key: &str) -> (r: Option<u64>)
    ensures
        r == u64_field(*v, key@),
{
    match get_field(v, key) {
        Some(FieldValue::UInt(n)) => Some(*n),
        _ => None,
    }
}

/// Returns the all-string list member `key` of `v`, exactly when
/// [`str_list_field`] gives one.
pub fn get_str_list(v: &FieldValue, key: &str) -> (r: Option<Vec<String>>)
    ensures
        match str_list_field(*v, key@) {
            Some(l) => r is Some && strings_views(r.unwrap()@) == l,
            None => r is None,
        },
{
    match get_field(v, key) {
        Some(found) => match found {
            FieldValue::List(items) => {
                proof {
                    assert(field_of(*v, key@) is Some);
                    assert(field_of(*v, key@).unwrap() is List);
                    assert(field_of(*v, key@).unwrap()->List_0@ == items@);
                }
                let mut out: Vec<String> = Vec::new();
                let mut i: usize = 0;
                while i < items.len()
                    invariant
                        i <= items@.len(),
                        out@.len() == i,
                        field_of(*v, key@) is Some,
                        field_of(*v, key@).unwrap() is List,
                        field_of(*v, key@).unwrap()->List_0@ == items@,
                        forall|k: int| 0 <= k < i ==> items@[k] is Str,
                        forall|k: int| 0 <= k < i ==> out@[k]@ == items@[k]->Str_0@,
                    decreases items@.len() - i,
                {
                    match &items[i] {
                        FieldValue::Str(s) => {
                            out.push(s.clone());
                        },
                        _ => {
                            proof {
                                assert(!(items@[i as int] is Str));
                            }
                            return None;
                        },
                    }
                    i = i + 1;
                }
                proof {
                    assert(strings_views(out@) =~= items@.map_values(
                        |f: FieldValue| f->Str_0@,
                    ));
                }
                Some(out)
            },
            _ => None,
        },
        None => None,
    }
}

/// Returns the integer member `key` of `v`, exactly when [`i64_field`]
/// gives one.
pub fn get_i64_field(v: &FieldValue, key: &str) -> (r: Option<i64>)
    ensures
        r == i64_field(*v, key@),
{
    match get_field(v, key) {
        Some(FieldValue::UInt(n)) => {
            if *n <= i64::MAX as u64 {
                Some(*n as i64)
            } else {
                None
            }
        },
        Some(FieldValue::Int(n)) => Some(*n),
        _ => None,
    }
}

} // verus!
