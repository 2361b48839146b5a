//! An author: a three-part name, each part a labeled value.

use vstd::prelude::*;

use crate::text::{spec_joined, spec_trim, trim};
use crate::value::{Value, ValueView};

verus! {

/// The mathematical content of an author: the three name parts.
pub struct AuthorView {
    pub first: ValueView,
    pub middle: ValueView,
    pub last: ValueView,
}

impl AuthorView {
    /// The rendering of an author: the non-empty, trimmed name parts joined
    /// with single spaces, in first-middle-last order.
    pub open spec fn rendered(self) -> Seq<char> {
        spec_joined(seq![spec_trim(self.first.text), spec_trim(self.middle.text), spec_trim(self.last.text)])
    }
}

/// An author of catalog entries. All three components are always present;
/// a component may carry empty text.
#[derive(Debug, Clone, PartialEq, Eq)]
pub struct Author {
    pub first_name: Value,
    pub middle_name: Value,
    pub last_name: Value,
}

impl View for Author {
    type V = AuthorView;

    open spec fn view(&self) -> AuthorView {
        AuthorView { first: self.first_name@, middle: self.middle_name@, last: self.last_name@ }
    }
}

impl Author {
    /// Builds an author from its three name parts.
    pub fn new(first_name: Value, middle_name: Value, last_name: Value) -> (r: Self)
        ensures
            r@.first == first_name@,
            r@.middle == middle_name@,
            r@.last == last_name@,
    {
        Author { first_name, middle_name, last_name }
    }

    /// Renders the author's name: non-empty trimmed parts joined with
    /// single spaces; empty parts are omitted entirely.
    pub fn render(&self) -> (r: String)
        ensures
            r@ == self@.rendered(),
    {
        proof {
            reveal_strlit(" ");
        }
        let t1 = trim(self.first_name.value.as_str());
        let t2 = trim(self.middle_name.value.as_str());
        let t3 = trim(self.last_name.value.as_str());
        let ghost p1: Seq<Seq<char>> = seq![t1@];
        let ghost p2: Seq<Seq<char>> = seq![t1@, t2@];
        let ghost p3: Seq<Seq<char>> = seq![t1@, t2@, t3@];
        let mut out = String::new();
        if !t1.is_empty() {
            out.append(t1);
        }
        proof {
            assert(spec_joined(Seq::<Seq<char>>::empty()) =~= Seq::<char>::empty());
            assert(p1.drop_last() =~= Seq::<Seq<char>>::empty());
            assert(p1.last() =~= t1@);
            assert(out@ =~= spec_joined(p1));
        }
        if !t2.is_empty() {
            if !out.as_str().is_empty() {
                out.append(" ");
            }
            out.append(t2);
        }
        proof {
            assert(p2.drop_last() =~= p1);
            assert(out@ =~= spec_joined(p2));
        }
        if !t3.is_empty() {
            if !out.as_str().is_empty() {
                out.append(" ");
            }
            out.append(t3);
        }
        proof {
            assert(p3.drop_last() =~= p2);
            assert(out@ =~= spec_joined(p3));
            assert(spec_joined(p3) == self@.rendered());
        }
        out
    }
}

} // verus!
