//! Structured reading of one textual frame.
//!
//! A frame is expected to be a JSON array whose first element is a string
//! tag.  The protocol only ever reads the top level of that document: whether
//! it is an array, how many elements the array has, and each element as a
//! string or as an integer.  This module reduces the parsed document to
//! exactly those scalars, so that the codec can be specified and verified
//! over plain values.

use vstd::prelude::*;

verus! {

/// One element of the decoded top-level array, reduced to the scalar shapes
/// the protocol reads.
#[derive(Debug, Clone)]
pub enum Elem {
    /// A string element, with its characters.
    Str(String),
    /// A number element that has an exact signed 64-bit integer reading.
    Int(i64),
    /// Any other element: null, a boolean, a number without a signed 64-bit
    /// integer reading, a nested array, or an object.
    Other,
}

/// The mathematical model of an `Elem`.
pub ghost enum ElemModel {
    Str(Seq<char>),
    Int(i64),
    Other,
}

impl View for Elem {
    type V = ElemModel;

    open spec fn view(&self) -> ElemModel {
        match self {
            Elem::Str(s) => ElemModel::Str(s@),
            Elem::Int(i) => ElemModel::Int(*i),
            Elem::Other => ElemModel::Other,
        }
    }
}

/// A textual frame after structured decoding, as the codec sees it.
#[derive(Debug, Clone)]
pub enum Doc {
    /// The text was not parseable as structured data at all.
    Malformed,
    /// The text parsed, but the top-level value is not an array.
    NotArray,
    /// The top-level value is an array with the given elements.
    Arr(Vec<Elem>),
}

/// The mathematical model of a `Doc`.
pub ghost enum DocModel {
    Malformed,
    NotArray,
    Arr(Seq<ElemModel>),
}

impl View for Doc {
    type V = DocModel;

    open spec fn view(&self) -> DocModel {
        match self {
            Doc::Malformed => DocModel::Malformed,
            Doc::NotArray => DocModel::NotArray,
            Doc::Arr(elems) => DocModel::Arr(elems@.map_values(|e: Elem| e@)),
        }
    }
}

/// The document that structured parsing yields for the given text, reduced
/// to the top-level scalars.  Parsing is a pure function of the text, so the
/// result is the same on every call; nothing further is assumed about it.
pub uninterp spec fn doc_of(s: Seq<char>) -> DocModel;

/// Relies on `serde_json::from_str`, the variants of `serde_json::Value`,
/// and `serde_json::Number::as_i64`: text that does not parse is reported as
/// `Malformed`, a parsed non-array as `NotArray`, and each element of a
/// parsed array is reduced to its string contents, to the signed 64-bit
/// integer reading that `as_i64` gives it, or to `Other`.  The result
/// depends on the text alone.
#[verifier::external_body]
pub(crate) fn read_doc(s: &str) -> (d: Doc)
    ensures
        d@ == doc_of(s@),
{
    let arr = match serde_json::from_str::<serde_json::Value>(s) {
        Ok(serde_json::Value::Array(a)) => a,
        Ok(_) => return Doc::NotArray,
        Err(_) => return Doc::Malformed,
    };
    let mut elems: Vec<Elem> = Vec::new();
    for v in arr {
        elems.push(match v {
            serde_json::Value::String(t) => Elem::Str(t),
            serde_json::Value::Number(n) => n.as_i64().map_or(Elem::Other, Elem::Int),
            _ => Elem::Other,
        });
    }
    Doc::Arr(elems)
}

} // verus!
