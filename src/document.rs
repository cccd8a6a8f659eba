//! Conversion of a decoded document (a `serde_json::Value`) into a
//! `GenericValue`.

use vstd::prelude::*;
use crate::value::{DocTree, GenericValue, number_value, represents, well_formed};

verus! {

#[verifier::external_type_specification]
#[verifier::external_body]
pub struct ExDocValue(serde_json::Value);

/// What a decoded document holds.
pub uninterp spec fn doc_model(v: serde_json::Value) -> DocTree;

/// One level of a decoded document, borrowed from it.
pub enum DocNode<'a> {
    Null,
    Bool(bool),
    Number(Option<i64>, Option<u64>),
    Text(&'a String),
    List(&'a Vec<serde_json::Value>),
    Record(Vec<(&'a String, &'a serde_json::Value)>),
}

/// Relies on the variants of `serde_json::Value`, and for a number on
/// `serde_json::Number::as_i64` and `serde_json::Number::as_f64` (taken as
/// its bit pattern; without the `arbitrary_precision` feature it reads
/// every number). A map's entries come in the map's own iteration order,
/// each key once.
#[verifier::external_body]
fn inspect(v: &serde_json::Value) -> (r: DocNode<'_>)
    ensures
        match r {
            DocNode::Null => doc_model(*v) == DocTree::Null,
            DocNode::Bool(b) => doc_model(*v) == DocTree::Bool(b),
            DocNode::Number(i, f) => f is Some && doc_model(*v) == DocTree::Number(i, f->Some_0),
            DocNode::Text(s) => doc_model(*v) == DocTree::Text(s@),
            DocNode::List(items) => {
                &&& doc_model(*v) is List
                &&& doc_model(*v)->List_0.len() == items@.len()
                &&& forall|k: int|
                    0 <= k < items@.len() ==> doc_model(*v)->List_0[k] == doc_model(
                        #[trigger] items@[k],
                    )
            },
            DocNode::Record(entries) => {
                &&& doc_model(*v) is Record
                &&& doc_model(*v)->Record_0.len() == entries@.len()
                &&& forall|k: int|
                    0 <= k < entries@.len() ==> {
                        &&& doc_model(*v)->Record_0[k].0 == (#[trigger] entries@[k]).0@
                        &&& doc_model(*v)->Record_0[k].1 == doc_model(*entries@[k].1)
                    }
                &&& forall|k: int, l: int|
                    0 <= k < l < entries@.len() ==> (#[trigger] entries@[k]).0@ != (
                    #[trigger] entries@[l]).0@
            },
        },
{
    match v {
        serde_json::Value::Null => DocNode::Null,
        serde_json::Value::Bool(b) => DocNode::Bool(*b),
        serde_json::Value::Number(n) => DocNode::Number(n.as_i64(), n.as_f64().map(|x| x.to_bits())),
        serde_json::Value::String(s) => DocNode::Text(s),
        serde_json::Value::Array(a) => DocNode::List(a),
        serde_json::Value::Object(m) => DocNode::Record(m.iter().collect()),
    }
}

/// Converts a decoded document into a `GenericValue` of the same shape:
/// every scalar kept exactly, every sequence and map in its order.
///
/// It recurses once per level of nesting. A lookup hands it only what the
/// database decoder produced, and that decoder refuses records nested more
/// than 512 levels deep, so the recursion stays within that depth there.
pub fn from_document(v: &serde_json::Value) -> (r: GenericValue)
    ensures
        represents(r, doc_model(*v)),
        well_formed(r),
    decreases doc_model(*v),
{
    match inspect(v) {
        DocNode::Null => GenericValue::Null,
        DocNode::Bool(b) => GenericValue::Bool(b),
        DocNode::Number(i, Some(bits)) => number_value(i, bits),
        DocNode::Number(_, None) => {
            proof {
                assert(false);
            }
            GenericValue::Null
        },
        DocNode::Text(s) => GenericValue::String(s.clone()),
        DocNode::List(items) => {
            let mut out: Vec<GenericValue> = Vec::new();
            let mut i: usize = 0;
            while i < items.len()
                invariant
                    i <= items@.len(),
                    out@.len() == i,
                    doc_model(*v) is List,
                    doc_model(*v)->List_0.len() == items@.len(),
                    forall|k: int|
                        0 <= k < items@.len() ==> doc_model(*v)->List_0[k] == doc_model(
                            #[trigger] items@[k],
                        ),
                    forall|k: int|
                        0 <= k < i ==> represents(#[trigger] out@[k], doc_model(*v)->List_0[k]),
                    forall|k: int| 0 <= k < i ==> well_formed(#[trigger] out@[k]),
                decreases items@.len() - i,
            {
                proof {
                    assert(decreases_to!(doc_model(*v) => doc_model(*v)->List_0));
                    assert(decreases_to!(doc_model(*v)->List_0 => doc_model(*v)->List_0[i as int]));
                }
                let c = from_document(&items[i]);
                out.push(c);
                i += 1;
            }
            GenericValue::Array(out)
        },
        DocNode::Record(entries) => {
            let mut out: Vec<(String, GenericValue)> = Vec::new();
            let mut i: usize = 0;
            while i < entries.len()
                invariant
                    i <= entries@.len(),
                    out@.len() == i,
                    doc_model(*v) is Record,
                    doc_model(*v)->Record_0.len() == entries@.len(),
                    forall|k: int|
                        0 <= k < entries@.len() ==> {
                            &&& doc_model(*v)->Record_0[k].0 == (#[trigger] entries@[k]).0@
                            &&& doc_model(*v)->Record_0[k].1 == doc_model(*entries@[k].1)
                        },
                    forall|k: int, l: int|
                        0 <= k < l < entries@.len() ==> (#[trigger] entries@[k]).0@ != (
                        #[trigger] entries@[l]).0@,
                    forall|k: int|
                        0 <= k < i ==> {
                            &&& (#[trigger] out@[k]).0@ == doc_model(*v)->Record_0[k].0
                            &&& represents(out@[k].1, doc_model(*v)->Record_0[k].1)
                            &&& well_formed(out@[k].1)
                        },
                decreases entries@.len() - i,
            {
                let (key, item) = entries[i];
                proof {
                    let rec = doc_model(*v)->Record_0;
                    assert(decreases_to!(doc_model(*v) => rec));
                    assert(decreases_to!(rec => rec[i as int]));
                    assert(decreases_to!(rec[i as int] => rec[i as int].1));
                }
                let c = from_document(item);
                out.push((key.clone(), c));
                i += 1;
            }
            proof {
                assert forall|k: int, l: int| 0 <= k < l < out@.len() implies (#[trigger] out@[k]).0@
                    != (#[trigger] out@[l]).0@ by {
                    assert(out@[k].0@ == entries@[k].0@);
                    assert(out@[l].0@ == entries@[l].0@);
                }
            }
            GenericValue::Object(out)
        },
    }
}

} // verus!
