//! A labeled value: an identified, human-readable catalog term.

use vstd::prelude::*;

verus! {

/// The mathematical content of a labeled value: its id and its text.
pub struct ValueView {
    pub id: u32,
    pub text: Seq<char>,
}

/// An (id, text) pair identifying a named catalog term. Immutable once
/// constructed; equality is structural.
#[derive(Debug, Clone, PartialEq, Eq)]
pub struct Value {
    pub id: u32,
    pub value: String,
}

impl View for Value {
    type V = ValueView;

    open spec fn view(&self) -> ValueView {
        ValueView { id: self.id, text: self.value@ }
    }
}

impl Value {
    /// Builds a labeled value from its id and text.
    pub fn new(id: u32, value: &str) -> (r: Self)
        ensures
            r@ == (ValueView { id, text: value@ }),
    {
        Value { id, value: value.to_owned() }
    }

    /// The rendering of a labeled value is its text alone.
    pub fn render(&self) -> (r: String)
        ensures
            r@ == self@.text,
    {
        self.value.clone()
    }
}

} // verus!
