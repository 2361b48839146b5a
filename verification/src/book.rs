//! A book: title, optional series membership, author, size and date added.

use vstd::prelude::*;

use crate::author::{Author, AuthorView};
use crate::text::{push_dec, spec_dec, spec_digit};

verus! {

/// Rounds `n / d` to the nearest integer, ties to the even neighbour.
pub open spec fn spec_round_nearest(n: nat, d: nat) -> nat
    recommends
        d > 0,
{
    let q = n / d;
    let r = n % d;
    if 2 * r < d {
        q
    } else if 2 * r > d {
        q + 1
    } else if q % 2 == 0 {
        q
    } else {
        q + 1
    }
}

/// `n / d` rendered with two decimals: the hundredths are rounded to
/// nearest, ties to even, then written as `int.frac` with a two-digit
/// fraction.
pub open spec fn spec_two_dec(n: nat, d: nat) -> Seq<char>
    recommends
        d > 0,
{
    let h = spec_round_nearest(n, d);
    spec_dec(h / 100) + seq!['.', spec_digit((h % 100) / 10), spec_digit(h % 100 % 10)]
}

/// The human-readable size: bytes below 1024 as `"{n} B"`, below 1024^2 as
/// kilobytes with two decimals, else megabytes with two decimals.
pub open spec fn spec_size_rendered(size: u32) -> Seq<char> {
    if size >= 1048576 {
        spec_two_dec(size as nat * 25, 262144) + " MB"@
    } else if size >= 1024 {
        spec_two_dec(size as nat * 25, 256) + " KB"@
    } else {
        spec_dec(size as nat) + " B"@
    }
}

fn round_nearest(n: u64, d: u64) -> (h: u64)
    requires
        0 < d,
        n < 0x4000_0000_0000_0000,
        d < 0x4000_0000_0000_0000,
    ensures
        h == spec_round_nearest(n as nat, d as nat),
{
    let q = n / d;
    let r = n % d;
    if 2 * r < d {
        q
    } else if 2 * r > d {
        q + 1
    } else if q % 2 == 0 {
        q
    } else {
        q + 1
    }
}

fn push_two_dec(out: &mut String, n: u64, d: u64)
    requires
        0 < d,
        n < 0x4000_0000_0000_0000,
        d < 0x4000_0000_0000_0000,
    ensures
        final(out)@ == old(out)@ + spec_two_dec(n as nat, d as nat),
{
    proof {
        reveal_strlit(".");
        reveal_strlit("0");
        reveal_strlit("1");
        reveal_strlit("2");
        reveal_strlit("3");
        reveal_strlit("4");
        reveal_strlit("5");
        reveal_strlit("6");
        reveal_strlit("7");
        reveal_strlit("8");
        reveal_strlit("9");
    }
    let h = round_nearest(n, d);
    push_dec(out, h / 100);
    out.append(".");
    push_dec(out, h % 100 / 10);
    push_dec(out, h % 100 % 10);
    proof {
        assert(spec_dec((h % 100 / 10) as nat) =~= seq![spec_digit((h as nat % 100) / 10)]);
        assert(spec_dec((h % 100 % 10) as nat) =~= seq![spec_digit(h as nat % 100 % 10)]);
        assert(final(out)@ =~= old(out)@ + spec_two_dec(n as nat, d as nat));
    }
}

/// Renders a byte count for humans: plain bytes below 1024, else kilobytes
/// or megabytes with two rounded decimals.
pub fn format_size(size: u32) -> (r: String)
    ensures
        r@ == spec_size_rendered(size),
{
    let mut out = String::new();
    if size >= 1048576 {
        push_two_dec(&mut out, size as u64 * 25, 262144);
        out.append(" MB");
    } else if size >= 1024 {
        push_two_dec(&mut out, size as u64 * 25, 256);
        out.append(" KB");
    } else {
        push_dec(&mut out, size as u64);
        out.append(" B");
    }
    proof {
        assert(out@ =~= spec_size_rendered(size));
    }
    out
}

/// The mathematical content of a book.
pub struct BookView {
    pub id: u32,
    pub name: Seq<char>,
    pub sid: Option<u32>,
    pub idx: Option<u32>,
    pub author: AuthorView,
    pub size: u32,
    pub added: Seq<char>,
}

impl BookView {
    /// The rendering of a book: the series index (when present) and title,
    /// the author when its rendering is non-empty, then the added date in
    /// parentheses and the human-readable size in brackets.
    pub open spec fn rendered(self) -> Seq<char> {
        (match self.idx {
            Some(i) => spec_dec(i as nat) + " "@,
            None => Seq::empty(),
        }) + self.name + (if self.author.rendered().len() > 0 {
            " - "@ + self.author.rendered()
        } else {
            Seq::empty()
        }) + " ("@ + self.added + ") ["@ + spec_size_rendered(self.size) + "]"@
    }
}

/// A catalog book. `sid` and `idx` are both present or both absent: a book
/// not in a series has neither.
#[derive(Debug, Clone, PartialEq, Eq)]
pub struct Book {
    pub id: u32,
    pub name: String,
    pub sid: Option<u32>,
    pub idx: Option<u32>,
    pub author: Author,
    pub size: u32,
    pub added: String,
}

impl View for Book {
    type V = BookView;

    open spec fn view(&self) -> BookView {
        BookView {
            id: self.id,
            name: self.name@,
            sid: self.sid,
            idx: self.idx,
            author: self.author@,
            size: self.size,
            added: self.added@,
        }
    }
}

impl Book {
    /// Builds a book from its attributes.
    pub fn new(
        id: u32,
        name: &str,
        sid: Option<u32>,
        idx: Option<u32>,
        author: Author,
        size: u32,
        added: &str,
    ) -> (r: Self)
        ensures
            r@ == (BookView {
                id,
                name: name@,
                sid,
                idx,
                author: author@,
                size,
                added: added@,
            }),
    {
        Book { id, name: name.to_owned(), sid, idx, author, size, added: added.to_owned() }
    }

    /// Renders the book for display.
    pub fn render(&self) -> (r: String)
        ensures
            r@ == self@.rendered(),
    {
        let mut out = String::new();
        match self.idx {
            Some(i) => {
                push_dec(&mut out, i as u64);
                out.append(" ");
            },
            None => {},
        }
        out.append(self.name.as_str());
        let a = self.author.render();
        if !a.as_str().is_empty() {
            out.append(" - ");
            out.append(a.as_str());
        }
        out.append(" (");
        out.append(self.added.as_str());
        out.append(") [");
        let s = format_size(self.size);
        out.append(s.as_str());
        out.append("]");
        proof {
            assert(out@ =~= self@.rendered());
        }
        out
    }
}

} // verus!
