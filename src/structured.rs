//! The JSON-compatible values that the library's types render into.

use vstd::prelude::*;

verus! {

/// A JSON-compatible value: a string leaf, a floating-point number leaf
/// (held as its IEEE-754 bit pattern, so that it passes through unchanged),
/// or an object, whose entries are kept in the order given.
#[derive(Debug, PartialEq)]
pub enum StructuredValue {
    Text(String),
    Float(u64),
    Object(Vec<(String, StructuredValue)>),
}

/// The mathematical form of a `StructuredValue`.
pub enum Doc {
    Text(Seq<char>),
    Float(u64),
    Object(Seq<(Seq<char>, Doc)>),
}

impl View for StructuredValue {
    type V = Doc;

    open spec fn view(&self) -> Doc
        decreases self,
    {
        match self {
            StructuredValue::Text(s) => Doc::Text(s@),
            StructuredValue::Float(b) => Doc::Float(*b),
            StructuredValue::Object(es) => Doc::Object(
                Seq::new(
                    es@.len(),
                    |i: int|
                        if 0 <= i < es@.len() {
                            (es@[i].0@, es@[i].1.view())
                        } else {
                            (Seq::empty(), Doc::Float(0))
                        },
                ),
            ),
        }
    }
}

} // verus!
