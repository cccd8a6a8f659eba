//! The value tree that a lookup hands back, and its mathematical model.

use vstd::prelude::*;

verus! {

/// A decoded record: a finite tree of scalars, sequences and keyed maps.
///
/// A floating-point leaf is held as its IEEE-754 binary64 bit pattern.
/// `Object` keeps its entries in the order the decoder produced them.
#[derive(Debug)]
pub enum GenericValue {
    Null,
    Bool(bool),
    Int(i64),
    Float(u64),
    String(String),
    Array(Vec<GenericValue>),
    Object(Vec<(String, GenericValue)>),
}

/// What a decoded document holds, as the decoder reports it: a number is
/// given by its reading as an `i64` (if it has one) and its reading as a
/// binary64 bit pattern (which every number has).
pub enum DocTree {
    Null,
    Bool(bool),
    Number(Option<i64>, u64),
    Text(Seq<char>),
    List(Seq<DocTree>),
    Record(Seq<(Seq<char>, DocTree)>),
}

/// The value that a number leaf becomes: an integer whenever it reads as an
/// `i64`, else a float.
pub open spec fn number_leaf(as_int: Option<i64>, float_bits: u64) -> GenericValue {
    match as_int {
        Some(i) => GenericValue::Int(i),
        None => GenericValue::Float(float_bits),
    }
}

/// `g` is the conversion of the document `d`: the same shape, the same
/// scalars, the same keys in the same order.
pub open spec fn represents(g: GenericValue, d: DocTree) -> bool
    decreases g,
{
    match g {
        GenericValue::Null => d == DocTree::Null,
        GenericValue::Bool(b) => d == DocTree::Bool(b),
        GenericValue::Int(i) => d is Number && d->Number_0 == Some(i),
        GenericValue::Float(bits) => d is Number && d->Number_0 is None && d->Number_1 == bits,
        GenericValue::String(s) => d == DocTree::Text(s@),
        GenericValue::Array(items) => d is List && d->List_0.len() == items.len() && forall|k: int|
            0 <= k < items.len() ==> represents(#[trigger] items[k], d->List_0[k]),
        GenericValue::Object(entries) => d is Record && d->Record_0.len() == entries.len()
            && forall|k: int|
            0 <= k < entries.len() ==> {
                &&& (#[trigger] entries[k]).0@ == d->Record_0[k].0
                &&& represents(entries[k].1, d->Record_0[k].1)
            },
    }
}

/// The invariant of a value tree: in every `Object`, no key occurs twice.
pub open spec fn well_formed(g: GenericValue) -> bool
    decreases g,
{
    match g {
        GenericValue::Array(xs) => forall|k: int| 0 <= k < xs.len() ==> well_formed(#[trigger] xs[k]),
        GenericValue::Object(xs) => {
            &&& forall|k: int, l: int|
                0 <= k < l < xs.len() ==> (#[trigger] xs[k]).0@ != (#[trigger] xs[l]).0@
            &&& forall|k: int| 0 <= k < xs.len() ==> well_formed((#[trigger] xs[k]).1)
        },
        _ => true,
    }
}

/// `a` and `b` are the same tree: the same variants, scalars, keys, lengths
/// and order throughout.
pub open spec fn same_tree(a: GenericValue, b: GenericValue) -> bool
    decreases a,
{
    match a {
        GenericValue::Array(xs) => b is Array && b->Array_0.len() == xs.len() && forall|k: int|
            0 <= k < xs.len() ==> same_tree(#[trigger] xs[k], b->Array_0[k]),
        GenericValue::Object(xs) => b is Object && b->Object_0.len() == xs.len() && forall|k: int|
            0 <= k < xs.len() ==> {
                &&& (#[trigger] xs[k]).0@ == b->Object_0[k].0@
                &&& same_tree(xs[k].1, b->Object_0[k].1)
            },
        GenericValue::String(s) => b is String && b->String_0@ == s@,
        _ => a == b,
    }
}

/// A document has one conversion: any two values that represent the same
/// document are the same tree. So converting keeps every scalar exactly,
/// an integer apart from a float, and every container's shape and order.
pub proof fn lemma_conversion_is_exact(g1: GenericValue, g2: GenericValue, d: DocTree)
    requires
        represents(g1, d),
        represents(g2, d),
    ensures
        same_tree(g1, g2),
    decreases g1,
{
    match g1 {
        GenericValue::Array(xs) => {
            assert(d is List);
            assert(g2 is Array);
            let ys = g2->Array_0;
            assert forall|k: int| 0 <= k < xs.len() implies same_tree(#[trigger] xs[k], ys[k]) by {
                lemma_conversion_is_exact(xs[k], ys[k], d->List_0[k]);
            }
        },
        GenericValue::Object(xs) => {
            assert(d is Record);
            assert(g2 is Object);
            let ys = g2->Object_0;
            assert forall|k: int| 0 <= k < xs.len() implies same_tree(
                (#[trigger] xs[k]).1,
                ys[k].1,
            ) by {
                lemma_conversion_is_exact(xs[k].1, ys[k].1, d->Record_0[k].1);
            }
        },
        _ => {},
    }
}

/// Turns the two readings of a number into a leaf.
pub fn number_value(as_int: Option<i64>, float_bits: u64) -> (r: GenericValue)
    ensures
        r == number_leaf(as_int, float_bits),
        represents(r, DocTree::Number(as_int, float_bits)),
{
    match as_int {
        Some(i) => GenericValue::Int(i),
        None => GenericValue::Float(float_bits),
    }
}

} // verus!
