//! The collation: a pluggable total order over text, registered with the
//! store so that ORDER BY sorts the way humans expect for the target
//! alphabet. Primary comparison is case-insensitive (ASCII and Cyrillic
//! letters fold to lowercase); codepoint order breaks ties, so two strings
//! compare equal only when they are identical.

use vstd::prelude::*;

verus! {

/// The outcome of a comparison.
#[derive(Clone, Copy, PartialEq, Eq, Structural, Debug)]
pub enum Rank {
    Less,
    Equal,
    Greater,
}

/// The case fold a character sorts under: ASCII and Cyrillic uppercase
/// letters fold to their lowercase counterparts, all else to itself.
pub open spec fn spec_fold(c: char) -> u32 {
    let u = c as u32;
    if 65 <= u && u <= 90 {
        (u + 32) as u32
    } else if 0x410 <= u && u <= 0x42F {
        (u + 0x20) as u32
    } else if u == 0x401 {
        0x451
    } else {
        u
    }
}

fn fold_char(c: char) -> (r: u32)
    ensures
        r == spec_fold(c),
{
    let u = c as u32;
    if 65 <= u && u <= 90 {
        u + 32
    } else if 0x410 <= u && u <= 0x42F {
        u + 0x20
    } else if u == 0x401 {
        0x451
    } else {
        u
    }
}

/// A string's primary sort key: its case-folded codepoints.
pub open spec fn key_fold(s: Seq<char>) -> Seq<u32> {
    s.map_values(|c: char| spec_fold(c))
}


/// Lexicographic comparison of two codepoint sequences; a proper prefix
/// sorts first.
pub open spec fn lex_cmp(x: Seq<u32>, y: Seq<u32>) -> Rank
    decreases x.len(),
{
    if x.len() == 0 && y.len() == 0 {
        Rank::Equal
    } else if x.len() == 0 {
        Rank::Less
    } else if y.len() == 0 {
        Rank::Greater
    } else if x[0] < y[0] {
        Rank::Less
    } else if x[0] > y[0] {
        Rank::Greater
    } else {
        lex_cmp(x.drop_first(), y.drop_first())
    }
}

/// Lexicographic comparison of two strings by raw characters; a proper
/// prefix sorts first.
pub open spec fn lex_chars(x: Seq<char>, y: Seq<char>) -> Rank
    decreases x.len(),
{
    if x.len() == 0 && y.len() == 0 {
        Rank::Equal
    } else if x.len() == 0 {
        Rank::Less
    } else if y.len() == 0 {
        Rank::Greater
    } else if x[0] < y[0] {
        Rank::Less
    } else if y[0] < x[0] {
        Rank::Greater
    } else {
        lex_chars(x.drop_first(), y.drop_first())
    }
}

/// The collation order: case-folded comparison first, raw characters as
/// the tiebreak.
pub open spec fn spec_collation(a: Seq<char>, b: Seq<char>) -> Rank {
    if lex_cmp(key_fold(a), key_fold(b)) == Rank::Equal {
        lex_chars(a, b)
    } else {
        lex_cmp(key_fold(a), key_fold(b))
    }
}

proof fn lemma_lex_refl(x: Seq<u32>)
    ensures
        lex_cmp(x, x) == Rank::Equal,
    decreases x.len(),
{
    if x.len() > 0 {
        lemma_lex_refl(x.drop_first());
    }
}

proof fn lemma_lex_equal(x: Seq<u32>, y: Seq<u32>)
    requires
        lex_cmp(x, y) == Rank::Equal,
    ensures
        x == y,
    decreases x.len(),
{
    if x.len() == 0 && y.len() == 0 {
        assert(x =~= y);
    } else {
        assert(x.len() > 0 && y.len() > 0);
        assert(x[0] == y[0]);
        lemma_lex_equal(x.drop_first(), y.drop_first());
        assert forall|i: int| 0 <= i < x.len() implies x[i] == y[i] by {
            if i > 0 {
                assert(x.drop_first()[i - 1] == x[i]);
                assert(y.drop_first()[i - 1] == y[i]);
            }
        }
        assert(x.len() == y.len());
        assert(x =~= y);
    }
}

proof fn lemma_lex_flip(x: Seq<u32>, y: Seq<u32>)
    ensures
        (lex_cmp(x, y) == Rank::Less) <==> (lex_cmp(y, x) == Rank::Greater),
    decreases x.len(),
{
    if x.len() > 0 && y.len() > 0 && x[0] == y[0] {
        lemma_lex_flip(x.drop_first(), y.drop_first());
    }
}

proof fn lemma_lex_trans(x: Seq<u32>, y: Seq<u32>, z: Seq<u32>)
    requires
        lex_cmp(x, y) == Rank::Less,
        lex_cmp(y, z) == Rank::Less,
    ensures
        lex_cmp(x, z) == Rank::Less,
    decreases x.len(),
{
    if x.len() > 0 && y.len() > 0 && z.len() > 0 && x[0] == y[0] && y[0] == z[0] {
        lemma_lex_trans(x.drop_first(), y.drop_first(), z.drop_first());
    }
}

proof fn lemma_lex_chars_refl(x: Seq<char>)
    ensures
        lex_chars(x, x) == Rank::Equal,
    decreases x.len(),
{
    if x.len() > 0 {
        lemma_lex_chars_refl(x.drop_first());
    }
}

proof fn lemma_lex_chars_equal(x: Seq<char>, y: Seq<char>)
    requires
        lex_chars(x, y) == Rank::Equal,
    ensures
        x == y,
    decreases x.len(),
{
    if x.len() == 0 && y.len() == 0 {
        assert(x =~= y);
    } else {
        assert(x.len() > 0 && y.len() > 0);
        assert(x[0] == y[0]);
        lemma_lex_chars_equal(x.drop_first(), y.drop_first());
        assert forall|i: int| 0 <= i < x.len() implies x[i] == y[i] by {
            if i > 0 {
                assert(x.drop_first()[i - 1] == x[i]);
                assert(y.drop_first()[i - 1] == y[i]);
            }
        }
        assert(x.len() == y.len());
        assert(x =~= y);
    }
}

proof fn lemma_lex_chars_flip(x: Seq<char>, y: Seq<char>)
    ensures
        (lex_chars(x, y) == Rank::Less) <==> (lex_chars(y, x) == Rank::Greater),
    decreases x.len(),
{
    if x.len() > 0 && y.len() > 0 && x[0] == y[0] {
        lemma_lex_chars_flip(x.drop_first(), y.drop_first());
    }
}

proof fn lemma_lex_chars_trans(x: Seq<char>, y: Seq<char>, z: Seq<char>)
    requires
        lex_chars(x, y) == Rank::Less,
        lex_chars(y, z) == Rank::Less,
    ensures
        lex_chars(x, z) == Rank::Less,
    decreases x.len(),
{
    if x.len() > 0 && y.len() > 0 && z.len() > 0 && x[0] == y[0] && y[0] == z[0] {
        lemma_lex_chars_trans(x.drop_first(), y.drop_first(), z.drop_first());
    }
}

proof fn lemma_lex_chars_skip(x: Seq<char>, y: Seq<char>, i: int)
    requires
        0 <= i <= x.len(),
        i <= y.len(),
        forall|k: int| 0 <= k < i ==> x[k] == y[k],
    ensures
        lex_chars(x, y) == lex_chars(x.skip(i), y.skip(i)),
    decreases i,
{
    if i == 0 {
        assert(x.skip(0) =~= x);
        assert(y.skip(0) =~= y);
    } else {
        assert(x[0] == y[0]);
        let xs = x.drop_first();
        let ys = y.drop_first();
        assert forall|k: int| 0 <= k < i - 1 implies xs[k] == ys[k] by {
            assert(xs[k] == x[k + 1] && ys[k] == y[k + 1]);
        }
        lemma_lex_chars_skip(xs, ys, i - 1);
        assert(xs.skip(i - 1) =~= x.skip(i));
        assert(ys.skip(i - 1) =~= y.skip(i));
    }
}

/// Law: the collation is reflexive; every string compares equal to itself.
pub proof fn lemma_collation_reflexive(a: Seq<char>)
    ensures
        spec_collation(a, a) == Rank::Equal,
{
    lemma_lex_refl(key_fold(a));
    lemma_lex_chars_refl(a);
}

/// Law: the collation separates points; two strings compare equal only
/// when they are the same string.
pub proof fn lemma_collation_equal_iff(a: Seq<char>, b: Seq<char>)
    ensures
        spec_collation(a, b) == Rank::Equal <==> a == b,
{
    if spec_collation(a, b) == Rank::Equal {
        lemma_lex_chars_equal(a, b);
    }
    if a == b {
        lemma_collation_reflexive(a);
    }
}

/// Law: the collation is antisymmetric; swapping the arguments swaps
/// less and greater.
pub proof fn lemma_collation_antisymmetric(a: Seq<char>, b: Seq<char>)
    ensures
        (spec_collation(a, b) == Rank::Less) <==> (spec_collation(b, a) == Rank::Greater),
{
    lemma_lex_flip(key_fold(a), key_fold(b));
    lemma_lex_flip(key_fold(b), key_fold(a));
    lemma_lex_chars_flip(a, b);
    lemma_lex_chars_flip(b, a);
    if lex_cmp(key_fold(a), key_fold(b)) == Rank::Equal {
        lemma_lex_equal(key_fold(a), key_fold(b));
    }
    if lex_cmp(key_fold(b), key_fold(a)) == Rank::Equal {
        lemma_lex_equal(key_fold(b), key_fold(a));
    }
}

/// Law: the collation is transitive, so together with the laws above it
/// is a total order over arbitrary text.
pub proof fn lemma_collation_transitive(a: Seq<char>, b: Seq<char>, c: Seq<char>)
    requires
        spec_collation(a, b) == Rank::Less,
        spec_collation(b, c) == Rank::Less,
    ensures
        spec_collation(a, c) == Rank::Less,
{
    let fa = key_fold(a);
    let fb = key_fold(b);
    let fc = key_fold(c);
    if lex_cmp(fa, fb) == Rank::Equal {
        lemma_lex_equal(fa, fb);
    }
    if lex_cmp(fb, fc) == Rank::Equal {
        lemma_lex_equal(fb, fc);
    }
    if lex_cmp(fa, fb) == Rank::Less && lex_cmp(fb, fc) == Rank::Less {
        lemma_lex_trans(fa, fb, fc);
    }
    if lex_cmp(fa, fc) == Rank::Equal {
        lemma_lex_equal(fa, fc);
        if lex_chars(a, b) == Rank::Less && lex_chars(b, c) == Rank::Less {
            lemma_lex_chars_trans(a, b, c);
        }
    }
}

proof fn lemma_lex_skip(x: Seq<u32>, y: Seq<u32>, i: int)
    requires
        0 <= i <= x.len(),
        i <= y.len(),
        forall|k: int| 0 <= k < i ==> x[k] == y[k],
    ensures
        lex_cmp(x, y) == lex_cmp(x.skip(i), y.skip(i)),
    decreases i,
{
    if i == 0 {
        assert(x.skip(0) =~= x);
        assert(y.skip(0) =~= y);
    } else {
        assert(x[0] == y[0]);
        let xs = x.drop_first();
        let ys = y.drop_first();
        assert forall|k: int| 0 <= k < i - 1 implies xs[k] == ys[k] by {
            assert(xs[k] == x[k + 1] && ys[k] == y[k + 1]);
        }
        lemma_lex_skip(xs, ys, i - 1);
        assert(xs.skip(i - 1) =~= x.skip(i));
        assert(ys.skip(i - 1) =~= y.skip(i));
    }
}

fn char_key(s: &str) -> (r: Vec<u32>)
    ensures
        r@ == key_fold(s@),
{
    let n = s.unicode_len();
    let mut out: Vec<u32> = Vec::new();
    let mut i: usize = 0;
    while i < n
        invariant
            n == s@.len(),
            i <= n,
            out@.len() == i,
            forall|k: int| 0 <= k < i ==> out@[k] == spec_fold(s@[k]),
        decreases n - i,
    {
        let c = s.get_char(i);
        out.push(fold_char(c));
        i = i + 1;
    }
    proof {
        assert(out@ =~= key_fold(s@));
    }
    out
}

fn compare_chars(a: &str, b: &str) -> (r: Rank)
    ensures
        r == lex_chars(a@, b@),
{
    let na = a.unicode_len();
    let nb = b.unicode_len();
    let mut i: usize = 0;
    while i < na && i < nb
        invariant
            na == a@.len(),
            nb == b@.len(),
            i <= na,
            i <= nb,
            forall|k: int| 0 <= k < i ==> a@[k] == b@[k],
        decreases na - i,
    {
        proof {
            lemma_lex_chars_skip(a@, b@, i as int);
        }
        let ca = a.get_char(i);
        let cb = b.get_char(i);
        if ca < cb {
            return Rank::Less;
        } else if cb < ca {
            return Rank::Greater;
        }
        i = i + 1;
    }
    proof {
        lemma_lex_chars_skip(a@, b@, i as int);
    }
    if na == nb {
        Rank::Equal
    } else if na < nb {
        Rank::Less
    } else {
        Rank::Greater
    }
}

fn lex_compare(x: &Vec<u32>, y: &Vec<u32>) -> (r: Rank)
    ensures
        r == lex_cmp(x@, y@),
{
    let mut i: usize = 0;
    while i < x.len() && i < y.len()
        invariant
            i <= x@.len(),
            i <= y@.len(),
            forall|k: int| 0 <= k < i ==> x@[k] == y@[k],
        decreases x@.len() - i,
    {
        proof {
            lemma_lex_skip(x@, y@, i as int);
        }
        if x[i] < y[i] {
            return Rank::Less;
        } else if x[i] > y[i] {
            return Rank::Greater;
        }
        i = i + 1;
    }
    proof {
        lemma_lex_skip(x@, y@, i as int);
    }
    if x.len() == y.len() {
        Rank::Equal
    } else if x.len() < y.len() {
        Rank::Less
    } else {
        Rank::Greater
    }
}

/// Compares two strings under the collation order.
pub fn collation(a: &str, b: &str) -> (r: Rank)
    ensures
        r == spec_collation(a@, b@),
{
    let fa = char_key(a);
    let fb = char_key(b);
    let primary = lex_compare(&fa, &fb);
    match primary {
        Rank::Equal => compare_chars(a, b),
        _ => primary,
    }
}

} // verus!
