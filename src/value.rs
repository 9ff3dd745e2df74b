//! The source document tree, the generic structured value, and the total
//! conversion from the one to the other.

use crate::json::JsonModel;
use vstd::prelude::*;

verus! {

broadcast use vstd::std_specs::vec::group_vec_axioms;

/// A parsed TOML document, one node of it.
pub enum Doc {
    Str(String),
    Int(i64),
    /// A float, held as the JSON number it denotes; `None` when the float is
    /// infinite or NaN, which JSON cannot represent.
    Float(Option<serde_json::Number>),
    Bool(bool),
    /// A date or time, in the source format's own textual rendering.
    Datetime(String),
    Array(Vec<Doc>),
    /// A table, its entries in the order the document gives them.
    Table(Vec<(String, Doc)>),
}

/// The generic structured value that a document converts to.
pub enum GenericValue {
    Str(String),
    Int(i64),
    Float(serde_json::Number),
    Bool(bool),
    Array(Vec<GenericValue>),
    Object(Vec<(String, GenericValue)>),
    Null,
}

/// Why a document could not be converted.
#[derive(Debug, Clone, Copy, PartialEq, Eq, Structural)]
pub enum ConvertError {
    /// The document holds an infinite or NaN float.
    NonFiniteFloat,
}

/// A document converts exactly when none of its floats is infinite or NaN.
pub open spec fn convertible(d: Doc) -> bool
    decreases d,
{
    match d {
        Doc::Float(n) => n is Some,
        Doc::Array(items) => forall|i: int|
            0 <= i < items@.len() ==> convertible(#[trigger] items@[i]),
        Doc::Table(entries) => forall|i: int|
            0 <= i < entries@.len() ==> convertible(#[trigger] entries@[i].1),
        _ => true,
    }
}

/// `v` is the conversion of `d`: same shape, strings and numbers carried
/// over, dates rendered as strings, order of items and entries kept.
pub open spec fn converts_to(d: Doc, v: GenericValue) -> bool
    decreases d,
{
    match d {
        Doc::Str(s) => v matches GenericValue::Str(t) && t@ == s@,
        Doc::Int(i) => v matches GenericValue::Int(j) && j == i,
        Doc::Float(n) => n matches Some(m) && v matches GenericValue::Float(w) && w == m,
        Doc::Bool(b) => v matches GenericValue::Bool(c) && c == b,
        Doc::Datetime(s) => v matches GenericValue::Str(t) && t@ == s@,
        Doc::Array(items) => v matches GenericValue::Array(vs) && vs@.len() == items@.len()
            && forall|i: int|
            0 <= i < items@.len() ==> converts_to(#[trigger] items@[i], vs@[i]),
        Doc::Table(entries) => v matches GenericValue::Object(vs) && vs@.len() == entries@.len()
            && forall|i: int|
            0 <= i < entries@.len() ==> vs@[i].0@ == (#[trigger] entries@[i]).0@
                && converts_to(entries@[i].1, vs@[i].1),
    }
}

/// The JSON value that a convertible document converts to.
pub open spec fn doc_json(d: Doc) -> JsonModel
    decreases d,
{
    match d {
        Doc::Str(s) => JsonModel::Str(s@),
        Doc::Int(i) => JsonModel::Int(i as int),
        Doc::Float(n) => match n {
            Some(m) => JsonModel::Float(m),
            None => JsonModel::Null,
        },
        Doc::Bool(b) => JsonModel::Bool(b),
        Doc::Datetime(s) => JsonModel::Str(s@),
        Doc::Array(items) => JsonModel::Array(
            Seq::new(
                items@.len(),
                |i: int|
                    if 0 <= i < items@.len() {
                        doc_json(items@[i])
                    } else {
                        JsonModel::Null
                    },
            ),
        ),
        Doc::Table(entries) => JsonModel::Object(
            Seq::new(
                entries@.len(),
                |i: int|
                    if 0 <= i < entries@.len() {
                        (entries@[i].0@, doc_json(entries@[i].1))
                    } else {
                        (Seq::empty(), JsonModel::Null)
                    },
            ),
        ),
    }
}

/// Whatever value a document converts to stands for the same JSON value.
pub proof fn lemma_converts_to_json(d: Doc, v: GenericValue)
    requires
        converts_to(d, v),
    ensures
        v.json_model() == doc_json(d),
    decreases d,
{
    match d {
        Doc::Array(items) => {
            let vs = v->Array_0;
            assert forall|i: int| 0 <= i < items@.len() implies vs@[i].json_model() == doc_json(
                items@[i],
            ) by {
                assert(decreases_to!(d => d->Array_0));
                lemma_converts_to_json(items@[i], vs@[i]);
            }
            assert(v.json_model()->Array_0 =~= doc_json(d)->Array_0);
        },
        Doc::Table(entries) => {
            let vs = v->Object_0;
            assert forall|i: int| 0 <= i < entries@.len() implies vs@[i].1.json_model() == doc_json(
                entries@[i].1,
            ) by {
                assert(decreases_to!(d => d->Table_0));
                assert(decreases_to!(entries@[i] => entries@[i].1));
                lemma_converts_to_json(entries@[i].1, vs@[i].1);
            }
            assert(v.json_model()->Object_0 =~= doc_json(d)->Object_0);
        },
        _ => {},
    }
}

/// Converts a document to the generic value, failing only on a non-finite float.
pub fn convert(d: &Doc) -> (r: Result<GenericValue, ConvertError>)
    ensures
        r is Ok <==> convertible(*d),
        r matches Ok(v) ==> converts_to(*d, v) && v.json_model() == doc_json(*d),
        r matches Err(e) ==> e == ConvertError::NonFiniteFloat,
    decreases d,
{
    match d {
        Doc::Str(s) => Ok(GenericValue::Str(s.clone())),
        Doc::Int(i) => Ok(GenericValue::Int(*i)),
        Doc::Float(n) => match n {
            Some(m) => Ok(GenericValue::Float(m.clone())),
            None => Err(ConvertError::NonFiniteFloat),
        },
        Doc::Bool(b) => Ok(GenericValue::Bool(*b)),
        Doc::Datetime(s) => Ok(GenericValue::Str(s.clone())),
        Doc::Array(items) => {
            let mut out: Vec<GenericValue> = Vec::new();
            let mut i: usize = 0;
            while i < items.len()
                invariant
                    *d == Doc::Array(*items),
                    i <= items@.len(),
                    out@.len() == i,
                    forall|j: int| 0 <= j < i ==> convertible(#[trigger] items@[j]),
                    forall|j: int| 0 <= j < i ==> converts_to(#[trigger] items@[j], out@[j]),
                decreases items@.len() - i,
            {
                proof {
                    assert(decreases_to!(*d => d->Array_0));
                    assert(decreases_to!(*items => items@));
                    assert(decreases_to!(items@ => items@[i as int]));
                }
                match convert(&items[i]) {
                    Ok(v) => out.push(v),
                    Err(e) => {
                        assert(!convertible(d->Array_0@[i as int]));
                        assert(!convertible(*d));
                        return Err(e);
                    },
                }
                i = i + 1;
            }
            let r = GenericValue::Array(out);
            proof {
                lemma_converts_to_json(*d, r);
            }
            Ok(r)
        },
        Doc::Table(entries) => {
            let mut out: Vec<(String, GenericValue)> = Vec::new();
            let mut i: usize = 0;
            while i < entries.len()
                invariant
                    *d == Doc::Table(*entries),
                    i <= entries@.len(),
                    out@.len() == i,
                    forall|j: int| 0 <= j < i ==> convertible(#[trigger] entries@[j].1),
                    forall|j: int|
                        0 <= j < i ==> out@[j].0@ == (#[trigger] entries@[j]).0@
                            && converts_to(entries@[j].1, out@[j].1),
                decreases entries@.len() - i,
            {
                let entry = &entries[i];
                proof {
                    assert(decreases_to!(*d => d->Table_0));
                    assert(decreases_to!(*entries => entries@));
                    assert(decreases_to!(entries@ => entries@[i as int]));
                    assert(decreases_to!(entries@[i as int] => entries@[i as int].1));
                }
                match convert(&entry.1) {
                    Ok(v) => out.push((entry.0.clone(), v)),
                    Err(e) => {
                        assert(!convertible(d->Table_0@[i as int].1));
                        assert(!convertible(*d));
                        return Err(e);
                    },
                }
                i = i + 1;
            }
            let r = GenericValue::Object(out);
            proof {
                lemma_converts_to_json(*d, r);
            }
            Ok(r)
        },
    }
}

} // verus!
