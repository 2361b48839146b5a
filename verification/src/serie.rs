//! A series: a named group of books with its author and a book count.

use vstd::prelude::*;

use crate::author::{Author, AuthorView};
use crate::text::{push_dec, spec_dec};

verus! {

/// The mathematical content of a series.
pub struct SerieView {
    pub id: u32,
    pub name: Seq<char>,
    pub count: u32,
    pub author: AuthorView,
}

impl SerieView {
    /// The rendering of a series: `name [author] (count)`.
    pub open spec fn rendered(self) -> Seq<char> {
        self.name + " ["@ + self.author.rendered() + "] ("@ + spec_dec(self.count as nat) + ")"@
    }
}

/// A catalog series and the author associated with it.
#[derive(Debug, Clone, PartialEq, Eq)]
pub struct Serie {
    pub id: u32,
    pub name: String,
    pub count: u32,
    pub author: Author,
}

impl View for Serie {
    type V = SerieView;

    open spec fn view(&self) -> SerieView {
        SerieView { id: self.id, name: self.name@, count: self.count, author: self.author@ }
    }
}

impl Serie {
    /// Builds a series from its attributes.
    pub fn new(id: u32, name: &str, count: u32, author: Author) -> (r: Self)
        ensures
            r@ == (SerieView { id, name: name@, count, author: author@ }),
    {
        Serie { id, name: name.to_owned(), count, author }
    }

    /// Renders the series for display.
    pub fn render(&self) -> (r: String)
        ensures
            r@ == self@.rendered(),
    {
        let mut out = String::new();
        out.append(self.name.as_str());
        out.append(" [");
        let a = self.author.render();
        out.append(a.as_str());
        out.append("] (");
        push_dec(&mut out, self.count as u64);
        out.append(")");
        proof {
            assert(out@ =~= self@.rendered());
        }
        out
    }
}

} // verus!
