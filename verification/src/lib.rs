//! A read-only query layer over a bibliographic catalog: typed entities
//! (labeled values, authors, books, series), a closed catalog of
//! parameterized queries with verified row mappers, and an incremental
//! prefix-autocomplete engine.

use vstd::prelude::*;

pub mod author;
pub mod book;
pub mod collation;
pub mod db;
pub mod error;
pub mod queries;
pub mod search;
pub mod serie;
pub mod text;
pub mod value;

pub use author::Author;
pub use book::Book;
pub use serie::Serie;
pub use value::Value;

use rusqlite::types::Value as SqlValue;

use crate::book::BookView;
use crate::db::{
    connection_is_readonly, load_array_module, open_connection, register_collation, register_lower,
    run_query, run_query_ids, Table,
};
use crate::error::ApiError;
use crate::queries::{
    authors_from_table, book_views, books_from_table, decode_authors, decode_books, decode_series,
    decode_strings, decode_values, Mapper, Query,
};
use crate::search::{
    completes_of, fetch_chain, finished_walk, incompletes_of, lemma_filter_push, search_by_mask,
};
use crate::text::{lower_of, lowercase};

verus! {

/// A character of a prefix as it stands in a stored-string matcher: the
/// store's wildcard characters are blunted to a single-character wildcard.
pub open spec fn spec_blunt(c: char) -> char {
    if c == '[' || c == ']' || c == '*' {
        '?'
    } else {
        c
    }
}

/// The matcher a next-char query binds: the prefix with its wildcard
/// characters blunted, case-folded, and a trailing `*` appended.
pub open spec fn spec_matcher(p: Seq<char>) -> Seq<char> {
    lower_of(p.map_values(|c: char| spec_blunt(c))) + "*"@
}

fn build_matcher(p: &str) -> (r: String)
    ensures
        r@ == spec_matcher(p@),
{
    proof {
        reveal_strlit("?");
    }
    let n = p.unicode_len();
    let mut cleaned = String::new();
    let mut i: usize = 0;
    while i < n
        invariant
            n == p@.len(),
            i <= n,
            cleaned@ == p@.take(i as int).map_values(|c: char| spec_blunt(c)),
        decreases n - i,
    {
        let c = p.get_char(i);
        if c == '[' || c == ']' || c == '*' {
            cleaned.append("?");
        } else {
            cleaned.append(p.substring_char(i, i + 1));
        }
        i = i + 1;
        proof {
            reveal_strlit("?");
            assert(cleaned@ =~= p@.take(i as int).map_values(|c: char| spec_blunt(c)));
        }
    }
    proof {
        assert(p@.take(n as int) =~= p@);
    }
    let mut out = lowercase(cleaned.as_str());
    out.append("*");
    out
}

/// Membership of a book in the series `sid`.
pub open spec fn in_serie(sid: u32) -> spec_fn(BookView) -> bool {
    |b: BookView| b.sid == Some(sid)
}

/// A book that belongs to no series.
pub open spec fn no_serie() -> spec_fn(BookView) -> bool {
    |b: BookView| b.sid is None
}

/// Keeps, in order, the books that belong to the series `sid`.
pub fn filter_books_by_serie(books: Vec<Book>, sid: u32) -> (r: Vec<Book>)
    ensures
        book_views(r@) == book_views(books@).filter(in_serie(sid)),
{
    let ghost orig = books@;
    let mut rest = books;
    let mut out: Vec<Book> = Vec::new();
    let ghost mut k: int = 0;
    while rest.len() > 0
        invariant
            0 <= k <= orig.len(),
            rest@ == orig.skip(k),
            book_views(out@) == book_views(orig.take(k)).filter(in_serie(sid)),
        decreases rest@.len(),
    {
        let b = rest.remove(0);
        proof {
            assert(b == orig[k]);
            assert(orig.take(k + 1) =~= orig.take(k).push(orig[k]));
            assert(book_views(orig.take(k + 1)) =~= book_views(orig.take(k)).push(orig[k]@));
            lemma_filter_push(book_views(orig.take(k)), orig[k]@, in_serie(sid));
        }
        let keep = match b.sid {
            Some(x) => x == sid,
            None => false,
        };
        if keep {
            out.push(b);
        }
        proof {
            k = k + 1;
            assert(rest@ =~= orig.skip(k));
            assert(book_views(out@) =~= book_views(orig.take(k)).filter(in_serie(sid)));
        }
    }
    proof {
        assert(orig.skip(k).len() == 0);
        assert(orig.take(k) =~= orig);
    }
    out
}

/// Keeps, in order, the books that belong to no series.
pub fn filter_books_without_serie(books: Vec<Book>) -> (r: Vec<Book>)
    ensures
        book_views(r@) == book_views(books@).filter(no_serie()),
{
    let ghost orig = books@;
    let mut rest = books;
    let mut out: Vec<Book> = Vec::new();
    let ghost mut k: int = 0;
    while rest.len() > 0
        invariant
            0 <= k <= orig.len(),
            rest@ == orig.skip(k),
            book_views(out@) == book_views(orig.take(k)).filter(no_serie()),
        decreases rest@.len(),
    {
        let b = rest.remove(0);
        proof {
            assert(b == orig[k]);
            assert(orig.take(k + 1) =~= orig.take(k).push(orig[k]));
            assert(book_views(orig.take(k + 1)) =~= book_views(orig.take(k)).push(orig[k]@));
            lemma_filter_push(book_views(orig.take(k)), orig[k]@, no_serie());
        }
        let keep = match b.sid {
            Some(_) => false,
            None => true,
        };
        if keep {
            out.push(b);
        }
        proof {
            k = k + 1;
            assert(rest@ =~= orig.skip(k));
            assert(book_views(out@) =~= book_views(orig.take(k)).filter(no_serie()));
        }
    }
    proof {
        assert(orig.skip(k).len() == 0);
        assert(orig.take(k) =~= orig);
    }
    out
}


/// The catalog's public surface: one configured connection to the
/// read-only store, and the operations built on the query catalog. Every
/// operation blocks until the store answers; no state is shared between
/// calls.
pub struct OpdsApi {
    conn: rusqlite::Connection,
}

/// A finished walk over the stored author last names: the step rule holds
/// from the seed, and every recorded fetch is a possible outcome of
/// `authors_next_char_by_prefix` on this catalog.
pub open spec fn author_walk(api: &OpdsApi, m0: Seq<char>, tr: Seq<(String, Vec<String>)>) -> bool {
    &&& finished_walk(m0, tr)
    &&& forall|i: int|
        #![trigger tr[i]]
        0 <= i < tr.len() ==> call_ensures(
            OpdsApi::authors_next_char_by_prefix,
            (api, &tr[i].0),
            Result::<Vec<String>, ApiError>::Ok(tr[i].1),
        )
}

/// A finished walk over the stored series names.
pub open spec fn serie_walk(api: &OpdsApi, m0: Seq<char>, tr: Seq<(String, Vec<String>)>) -> bool {
    &&& finished_walk(m0, tr)
    &&& forall|i: int|
        #![trigger tr[i]]
        0 <= i < tr.len() ==> call_ensures(
            OpdsApi::series_next_char_by_prefix,
            (api, &tr[i].0),
            Result::<Vec<String>, ApiError>::Ok(tr[i].1),
        )
}

/// A finished walk over the stored book titles.
pub open spec fn book_walk(api: &OpdsApi, m0: Seq<char>, tr: Seq<(String, Vec<String>)>) -> bool {
    &&& finished_walk(m0, tr)
    &&& forall|i: int|
        #![trigger tr[i]]
        0 <= i < tr.len() ==> call_ensures(
            OpdsApi::books_next_char_by_prefix,
            (api, &tr[i].0),
            Result::<Vec<String>, ApiError>::Ok(tr[i].1),
        )
}

impl OpdsApi {
    /// Wraps an already configured store connection.
    pub fn new(conn: rusqlite::Connection) -> OpdsApi {
        OpdsApi { conn }
    }

    /// Opens the store named by `path` and registers, once for this
    /// connection, the collation, the case-folding function and the array
    /// parameter module that the catalog's query texts rely on.
    pub fn try_open(path: &str) -> (r: Result<OpdsApi, ApiError>)
        ensures
            r matches Err(e) ==> e matches ApiError::Storage(_),
    {
        let conn = match open_connection(path) {
            Ok(c) => c,
            Err(e) => {
                return Err(ApiError::Storage(e));
            },
        };
        match register_collation(&conn) {
            Ok(_) => {},
            Err(e) => {
                return Err(ApiError::Storage(e));
            },
        }
        match register_lower(&conn) {
            Ok(_) => {},
            Err(e) => {
                return Err(ApiError::Storage(e));
            },
        }
        match load_array_module(&conn) {
            Ok(_) => {},
            Err(e) => {
                return Err(ApiError::Storage(e));
            },
        }
        Ok(OpdsApi::new(conn))
    }

    /// True when the store is opened read-only.
    pub fn is_readonly(&self) -> (r: Result<bool, ApiError>)
        ensures
            r matches Err(e) ==> e matches ApiError::Storage(_),
    {
        match connection_is_readonly(&self.conn) {
            Ok(b) => Ok(b),
            Err(e) => Err(ApiError::Storage(e)),
        }
    }

    /// Looks the query's registered text up and runs it with the given
    /// scalar parameters. The lookup cannot fail: the catalog is total.
    fn run(&self, query: &Query, ps: Vec<SqlValue>) -> (r: Result<Table, ApiError>)
        ensures
            r matches Ok(t) ==> t.wf(),
            r matches Err(e) ==> e matches ApiError::Storage(_),
    {
        let sql = match query.get() {
            Ok(s) => s,
            Err(e) => {
                proof {
                    assert(false);
                }
                return Err(e);
            },
        };
        match run_query(&self.conn, sql, ps) {
            Ok(t) => Ok(t),
            Err(e) => Err(ApiError::Storage(e)),
        }
    }

    /// Looks the query's registered text up and runs it with an id list
    /// bound as its single array-valued parameter.
    fn run_ids(&self, query: &Query, ids: &Vec<u32>) -> (r: Result<Table, ApiError>)
        ensures
            r matches Ok(t) ==> t.wf(),
            r matches Err(e) ==> e matches ApiError::Storage(_),
    {
        let sql = match query.get() {
            Ok(s) => s,
            Err(e) => {
                proof {
                    assert(false);
                }
                return Err(e);
            },
        };
        match run_query_ids(&self.conn, sql, ids) {
            Ok(t) => Ok(t),
            Err(e) => Err(ApiError::Storage(e)),
        }
    }

    /// The length parameter a next-char query binds: one more character
    /// than the prefix, saturated at the store's parameter width.
    fn next_len(prefix: &String) -> (r: u32)
        ensures
            prefix@.len() + 1 < 0xFFFF_FFFF ==> r == prefix@.len() + 1,
    {
        let n = prefix.unicode_len();
        if n >= 0xFFFF_FFFEusize {
            u32::MAX
        } else {
            (n as u32) + 1
        }
    }

    /// Returns the distinct one-character extensions of the prefix found
    /// among stored author last names.
    pub fn authors_next_char_by_prefix(&self, prefix: &String) -> (r: Result<Vec<String>, ApiError>)
        ensures
            r matches Err(e) ==> e.is_runtime(),
    {
        let query = Query::AuthorNextCharByPrefix;
        match query.mapper() {
            Mapper::Text => {
                let len = Self::next_len(prefix);
                let matcher = build_matcher(prefix.as_str());
                let t = match self.run(&query, vec![SqlValue::from(len), SqlValue::from(matcher)]) {
                    Ok(t) => t,
                    Err(e) => {
                        return Err(e);
                    },
                };
                match decode_strings(&t) {
                    Ok(v) => Ok(v),
                    Err(e) => Err(e),
                }
            },
            _ => {
                proof {
                    assert(false);
                }
                Err(ApiError::CatalogLookup)
            },
        }
    }

    /// Returns the distinct one-character extensions of the prefix found
    /// among stored series names.
    pub fn series_next_char_by_prefix(&self, prefix: &String) -> (r: Result<Vec<String>, ApiError>)
        ensures
            r matches Err(e) ==> e.is_runtime(),
    {
        let query = Query::SerieNextCharByPrefix;
        match query.mapper() {
            Mapper::Text => {
                let len = Self::next_len(prefix);
                let matcher = build_matcher(prefix.as_str());
                let t = match self.run(&query, vec![SqlValue::from(len), SqlValue::from(matcher)]) {
                    Ok(t) => t,
                    Err(e) => {
                        return Err(e);
                    },
                };
                match decode_strings(&t) {
                    Ok(v) => Ok(v),
                    Err(e) => Err(e),
                }
            },
            _ => {
                proof {
                    assert(false);
                }
                Err(ApiError::CatalogLookup)
            },
        }
    }

    /// Returns the distinct one-character extensions of the prefix found
    /// among stored book titles.
    pub fn books_next_char_by_prefix(&self, prefix: &String) -> (r: Result<Vec<String>, ApiError>)
        ensures
            r matches Err(e) ==> e.is_runtime(),
    {
        let query = Query::BookNextCharByPrefix;
        match query.mapper() {
            Mapper::Text => {
                let len = Self::next_len(prefix);
                let matcher = build_matcher(prefix.as_str());
                let t = match self.run(&query, vec![SqlValue::from(len), SqlValue::from(matcher)]) {
                    Ok(t) => t,
                    Err(e) => {
                        return Err(e);
                    },
                };
                match decode_strings(&t) {
                    Ok(v) => Ok(v),
                    Err(e) => Err(e),
                }
            },
            _ => {
                proof {
                    assert(false);
                }
                Err(ApiError::CatalogLookup)
            },
        }
    }

    /// Walks the author last names forward from `prefix`, returning the
    /// complete matches and the ambiguous branches.
    pub fn search_authors_by_prefix(&self, prefix: &String) -> (r: Result<
        (Vec<String>, Vec<String>),
        ApiError,
    >)
        ensures
            r matches Ok(out) ==> exists|tr: Seq<(String, Vec<String>)>|
                {
                    &&& #[trigger] author_walk(self, prefix@, tr)
                    &&& out.0@ == completes_of(tr)
                    &&& out.1@ == incompletes_of(tr)
                },
            r matches Err(e) ==> e.is_runtime() || e matches ApiError::Fetcher(_),
    {
        let fetcher = |s: &String| -> (out: Result<Vec<String>, ApiError>)
            ensures
                out matches Err(e) ==> e.is_runtime(),
                call_ensures(OpdsApi::authors_next_char_by_prefix, (self, s), out),
            { self.authors_next_char_by_prefix(s) };
        let r = search_by_mask(prefix.as_str(), fetcher);
        proof {
            if r is Ok {
                let out = r->Ok_0;
                let tr = choose|tr: Seq<(String, Vec<String>)>|
                    #![auto]
                    fetch_chain(fetcher, prefix@, tr) && out.0@ == completes_of(tr) && out.1@
                        == incompletes_of(tr);
                assert(finished_walk(prefix@, tr));
                assert forall|i: int| #![trigger tr[i]] 0 <= i < tr.len() implies call_ensures(
                    OpdsApi::authors_next_char_by_prefix,
                    (self, &tr[i].0),
                    Result::<Vec<String>, ApiError>::Ok(tr[i].1),
                ) by {
                    assert(call_ensures(
                        fetcher,
                        (&tr[i].0,),
                        Result::<Vec<String>, ApiError>::Ok(tr[i].1),
                    ));
                }
                assert(author_walk(self, prefix@, tr));
            }
        }
        r
    }

    /// Walks the series names forward from `prefix`, returning the
    /// complete matches and the ambiguous branches.
    pub fn search_series_by_prefix(&self, prefix: &String) -> (r: Result<
        (Vec<String>, Vec<String>),
        ApiError,
    >)
        ensures
            r matches Ok(out) ==> exists|tr: Seq<(String, Vec<String>)>|
                {
                    &&& #[trigger] serie_walk(self, prefix@, tr)
                    &&& out.0@ == completes_of(tr)
                    &&& out.1@ == incompletes_of(tr)
                },
            r matches Err(e) ==> e.is_runtime() || e matches ApiError::Fetcher(_),
    {
        let fetcher = |s: &String| -> (out: Result<Vec<String>, ApiError>)
            ensures
                out matches Err(e) ==> e.is_runtime(),
                call_ensures(OpdsApi::series_next_char_by_prefix, (self, s), out),
            { self.series_next_char_by_prefix(s) };
        let r = search_by_mask(prefix.as_str(), fetcher);
        proof {
            if r is Ok {
                let out = r->Ok_0;
                let tr = choose|tr: Seq<(String, Vec<String>)>|
                    #![auto]
                    fetch_chain(fetcher, prefix@, tr) && out.0@ == completes_of(tr) && out.1@
                        == incompletes_of(tr);
                assert(finished_walk(prefix@, tr));
                assert forall|i: int| #![trigger tr[i]] 0 <= i < tr.len() implies call_ensures(
                    OpdsApi::series_next_char_by_prefix,
                    (self, &tr[i].0),
                    Result::<Vec<String>, ApiError>::Ok(tr[i].1),
                ) by {
                    assert(call_ensures(
                        fetcher,
                        (&tr[i].0,),
                        Result::<Vec<String>, ApiError>::Ok(tr[i].1),
                    ));
                }
                assert(serie_walk(self, prefix@, tr));
            }
        }
        r
    }

    /// Walks the book titles forward from `prefix`, returning the
    /// complete matches and the ambiguous branches.
    pub fn search_books_by_prefix(&self, prefix: &String) -> (r: Result<
        (Vec<String>, Vec<String>),
        ApiError,
    >)
        ensures
            r matches Ok(out) ==> exists|tr: Seq<(String, Vec<String>)>|
                {
                    &&& #[trigger] book_walk(self, prefix@, tr)
                    &&& out.0@ == completes_of(tr)
                    &&& out.1@ == incompletes_of(tr)
                },
            r matches Err(e) ==> e.is_runtime() || e matches ApiError::Fetcher(_),
    {
        let fetcher = |s: &String| -> (out: Result<Vec<String>, ApiError>)
            ensures
                out matches Err(e) ==> e.is_runtime(),
                call_ensures(OpdsApi::books_next_char_by_prefix, (self, s), out),
            { self.books_next_char_by_prefix(s) };
        let r = search_by_mask(prefix.as_str(), fetcher);
        proof {
            if r is Ok {
                let out = r->Ok_0;
                let tr = choose|tr: Seq<(String, Vec<String>)>|
                    #![auto]
                    fetch_chain(fetcher, prefix@, tr) && out.0@ == completes_of(tr) && out.1@
                        == incompletes_of(tr);
                assert(finished_walk(prefix@, tr));
                assert forall|i: int| #![trigger tr[i]] 0 <= i < tr.len() implies call_ensures(
                    OpdsApi::books_next_char_by_prefix,
                    (self, &tr[i].0),
                    Result::<Vec<String>, ApiError>::Ok(tr[i].1),
                ) by {
                    assert(call_ensures(
                        fetcher,
                        (&tr[i].0,),
                        Result::<Vec<String>, ApiError>::Ok(tr[i].1),
                    ));
                }
                assert(book_walk(self, prefix@, tr));
            }
        }
        r
    }

    /// Returns the authors whose last name equals `name`, compared
    /// case-folded.
    pub fn authors_by_last_name(&self, name: &String) -> (r: Result<Vec<Author>, ApiError>)
        ensures
            r matches Err(e) ==> e.is_runtime(),
    {
        let query = Query::AuthorsByLastName;
        match query.mapper() {
            Mapper::Author => {
                let lowered = lowercase(name.as_str());
                let t = match self.run(&query, vec![SqlValue::from(lowered)]) {
                    Ok(t) => t,
                    Err(e) => {
                        return Err(e);
                    },
                };
                match decode_authors(&t) {
                    Ok(v) => Ok(v),
                    Err(e) => Err(e),
                }
            },
            _ => {
                proof {
                    assert(false);
                }
                Err(ApiError::CatalogLookup)
            },
        }
    }

    /// Returns the authors of the books carrying the genre `gid`.
    pub fn authors_by_genre_id(&self, gid: u32) -> (r: Result<Vec<Author>, ApiError>)
        ensures
            r matches Err(e) ==> e.is_runtime(),
    {
        let query = Query::AuthorsByGenreId;
        match query.mapper() {
            Mapper::Author => {
                let t = match self.run(&query, vec![SqlValue::from(gid)]) {
                    Ok(t) => t,
                    Err(e) => {
                        return Err(e);
                    },
                };
                match decode_authors(&t) {
                    Ok(v) => Ok(v),
                    Err(e) => Err(e),
                }
            },
            _ => {
                proof {
                    assert(false);
                }
                Err(ApiError::CatalogLookup)
            },
        }
    }

    /// Returns the authors of the books in the id set.
    pub fn authors_by_books_ids(&self, ids: Vec<u32>) -> (r: Result<Vec<Author>, ApiError>)
        ensures
            r matches Err(e) ==> e.is_runtime(),
    {
        let query = Query::AuthorsByBooksIds;
        match query.mapper() {
            Mapper::Author => {
                let t = match self.run_ids(&query, &ids) {
                    Ok(t) => t,
                    Err(e) => {
                        return Err(e);
                    },
                };
                match decode_authors(&t) {
                    Ok(v) => Ok(v),
                    Err(e) => Err(e),
                }
            },
            _ => {
                proof {
                    assert(false);
                }
                Err(ApiError::CatalogLookup)
            },
        }
    }

    /// Returns the series in the id set.
    pub fn series_by_ids(&self, ids: Vec<u32>) -> (r: Result<Vec<Serie>, ApiError>)
        ensures
            r matches Err(e) ==> e.is_runtime(),
    {
        let query = Query::SeriesByIds;
        match query.mapper() {
            Mapper::Serie => {
                let t = match self.run_ids(&query, &ids) {
                    Ok(t) => t,
                    Err(e) => {
                        return Err(e);
                    },
                };
                match decode_series(&t) {
                    Ok(v) => Ok(v),
                    Err(e) => Err(e),
                }
            },
            _ => {
                proof {
                    assert(false);
                }
                Err(ApiError::CatalogLookup)
            },
        }
    }

    /// Returns the series with the exact name.
    pub fn series_by_serie_name(&self, name: &String) -> (r: Result<Vec<Serie>, ApiError>)
        ensures
            r matches Err(e) ==> e.is_runtime(),
    {
        let query = Query::SeriesBySerieName;
        match query.mapper() {
            Mapper::Serie => {
                let t = match self.run(&query, vec![SqlValue::from(name.clone())]) {
                    Ok(t) => t,
                    Err(e) => {
                        return Err(e);
                    },
                };
                match decode_series(&t) {
                    Ok(v) => Ok(v),
                    Err(e) => Err(e),
                }
            },
            _ => {
                proof {
                    assert(false);
                }
                Err(ApiError::CatalogLookup)
            },
        }
    }

    /// Returns the series of the books carrying the genre `gid`.
    pub fn series_by_genre_id(&self, gid: u32) -> (r: Result<Vec<Serie>, ApiError>)
        ensures
            r matches Err(e) ==> e.is_runtime(),
    {
        let query = Query::SeriesByGenreId;
        match query.mapper() {
            Mapper::Serie => {
                let t = match self.run(&query, vec![SqlValue::from(gid)]) {
                    Ok(t) => t,
                    Err(e) => {
                        return Err(e);
                    },
                };
                match decode_series(&t) {
                    Ok(v) => Ok(v),
                    Err(e) => Err(e),
                }
            },
            _ => {
                proof {
                    assert(false);
                }
                Err(ApiError::CatalogLookup)
            },
        }
    }

    /// Returns the series that the author identified by the id triple has
    /// books in.
    pub fn series_by_author_ids(&self, fid: u32, mid: u32, lid: u32) -> (r: Result<
        Vec<Serie>,
        ApiError,
    >)
        ensures
            r matches Err(e) ==> e.is_runtime(),
    {
        let query = Query::SeriesByAuthorIds;
        match query.mapper() {
            Mapper::Serie => {
                let t = match self.run(
                    &query,
                    vec![SqlValue::from(fid), SqlValue::from(mid), SqlValue::from(lid)],
                ) {
                    Ok(t) => t,
                    Err(e) => {
                        return Err(e);
                    },
                };
                match decode_series(&t) {
                    Ok(v) => Ok(v),
                    Err(e) => Err(e),
                }
            },
            _ => {
                proof {
                    assert(false);
                }
                Err(ApiError::CatalogLookup)
            },
        }
    }

    /// Returns the author identified by the id triple, when the store
    /// knows all three name parts.
    pub fn author_by_ids(&self, fid: u32, mid: u32, lid: u32) -> (r: Result<
        Option<Author>,
        ApiError,
    >)
        ensures
            r matches Err(e) ==> e.is_runtime(),
            r matches Ok(ov) ==> exists|t: Table, all: Vec<Author>|
                #[trigger] authors_from_table(t, all@) && (match ov {
                    Some(a) => all@.len() > 0 && a == all@[0],
                    None => all@.len() == 0,
                }),
    {
        let query = Query::AuthorByIds;
        match query.mapper() {
            Mapper::Author => {
                let t = match self.run(
                    &query,
                    vec![SqlValue::from(fid), SqlValue::from(mid), SqlValue::from(lid)],
                ) {
                    Ok(t) => t,
                    Err(e) => {
                        return Err(e);
                    },
                };
                match decode_authors(&t) {
                    Ok(v) => {
                        proof {
                            assert(authors_from_table(t, v@));
                        }
                        let mut v = v;
                        if v.len() > 0 {
                            let a = v.remove(0);
                            Ok(Some(a))
                        } else {
                            Ok(None)
                        }
                    },
                    Err(e) => Err(e),
                }
            },
            _ => {
                proof {
                    assert(false);
                }
                Err(ApiError::CatalogLookup)
            },
        }
    }

    /// Returns the book with the id, when the store has it.
    pub fn book_by_id(&self, bid: u32) -> (r: Result<Option<Book>, ApiError>)
        ensures
            r matches Err(e) ==> e.is_runtime(),
            r matches Ok(ov) ==> exists|t: Table, all: Vec<Book>|
                #[trigger] books_from_table(t, all@) && (match ov {
                    Some(b) => all@.len() > 0 && b == all@[0],
                    None => all@.len() == 0,
                }),
    {
        let query = Query::BookById;
        match query.mapper() {
            Mapper::Book => {
                let t = match self.run(&query, vec![SqlValue::from(bid)]) {
                    Ok(t) => t,
                    Err(e) => {
                        return Err(e);
                    },
                };
                match decode_books(&t) {
                    Ok(v) => {
                        proof {
                            assert(books_from_table(t, v@));
                        }
                        let mut v = v;
                        if v.len() > 0 {
                            let b = v.remove(0);
                            Ok(Some(b))
                        } else {
                            Ok(None)
                        }
                    },
                    Err(e) => Err(e),
                }
            },
            _ => {
                proof {
                    assert(false);
                }
                Err(ApiError::CatalogLookup)
            },
        }
    }

    /// Returns the books of the author identified by the id triple.
    pub fn books_by_author_ids(&self, fid: u32, mid: u32, lid: u32) -> (r: Result<
        Vec<Book>,
        ApiError,
    >)
        ensures
            r matches Err(e) ==> e.is_runtime(),
    {
        let query = Query::BooksByAuthorIds;
        match query.mapper() {
            Mapper::Book => {
                let t = match self.run(
                    &query,
                    vec![SqlValue::from(fid), SqlValue::from(mid), SqlValue::from(lid)],
                ) {
                    Ok(t) => t,
                    Err(e) => {
                        return Err(e);
                    },
                };
                match decode_books(&t) {
                    Ok(v) => Ok(v),
                    Err(e) => Err(e),
                }
            },
            _ => {
                proof {
                    assert(false);
                }
                Err(ApiError::CatalogLookup)
            },
        }
    }

    /// Returns the author's books that belong to the series `sid`: the
    /// author's books, kept only where their series id is `sid`.
    pub fn books_by_author_ids_and_serie_id(&self, fid: u32, mid: u32, lid: u32, sid: u32) -> (r:
        Result<Vec<Book>, ApiError>)
        ensures
            r matches Err(e) ==> e.is_runtime(),
            r matches Ok(v) ==> exists|all: Vec<Book>|
                {
                    &&& #[trigger] call_ensures(
                        OpdsApi::books_by_author_ids,
                        (self, fid, mid, lid),
                        Result::<Vec<Book>, ApiError>::Ok(all),
                    )
                    &&& book_views(v@) == book_views(all@).filter(in_serie(sid))
                },
            r matches Ok(v) ==> forall|i: int|
                0 <= i < v@.len() ==> (#[trigger] v@[i])@.sid == Some(sid),
    {
        let all = match self.books_by_author_ids(fid, mid, lid) {
            Ok(v) => v,
            Err(e) => {
                return Err(e);
            },
        };
        let ghost all_snapshot = all;
        proof {
            assert(call_ensures(
                OpdsApi::books_by_author_ids,
                (self, fid, mid, lid),
                Result::<Vec<Book>, ApiError>::Ok(all_snapshot),
            ));
        }
        let v = filter_books_by_serie(all, sid);
        proof {
            Seq::lemma_filter_len(book_views(all_snapshot@), in_serie(sid));
            assert forall|i: int| 0 <= i < v@.len() implies (#[trigger] v@[i])@.sid == Some(sid) by {
                Seq::lemma_filter_pred(book_views(all_snapshot@), in_serie(sid), i);
                assert(book_views(v@)[i] == v@[i]@);
            }
        }
        Ok(v)
    }

    /// Returns the author's books that belong to no series.
    pub fn books_by_author_ids_without_serie(&self, fid: u32, mid: u32, lid: u32) -> (r: Result<
        Vec<Book>,
        ApiError,
    >)
        ensures
            r matches Err(e) ==> e.is_runtime(),
            r matches Ok(v) ==> exists|all: Vec<Book>|
                {
                    &&& #[trigger] call_ensures(
                        OpdsApi::books_by_author_ids,
                        (self, fid, mid, lid),
                        Result::<Vec<Book>, ApiError>::Ok(all),
                    )
                    &&& book_views(v@) == book_views(all@).filter(no_serie())
                },
            r matches Ok(v) ==> forall|i: int| 0 <= i < v@.len() ==> (#[trigger] v@[i])@.sid is None,
    {
        let all = match self.books_by_author_ids(fid, mid, lid) {
            Ok(v) => v,
            Err(e) => {
                return Err(e);
            },
        };
        let ghost all_snapshot = all;
        proof {
            assert(call_ensures(
                OpdsApi::books_by_author_ids,
                (self, fid, mid, lid),
                Result::<Vec<Book>, ApiError>::Ok(all_snapshot),
            ));
        }
        let v = filter_books_without_serie(all);
        proof {
            Seq::lemma_filter_len(book_views(all_snapshot@), no_serie());
            assert forall|i: int| 0 <= i < v@.len() implies (#[trigger] v@[i])@.sid is None by {
                Seq::lemma_filter_pred(book_views(all_snapshot@), no_serie(), i);
                assert(book_views(v@)[i] == v@[i]@);
            }
        }
        Ok(v)
    }


    /// Returns the books in the series `sid`.
    pub fn books_by_serie_id(&self, sid: u32) -> (r: Result<Vec<Book>, ApiError>)
        ensures
            r matches Err(e) ==> e.is_runtime(),
    {
        let query = Query::BooksBySerieId;
        match query.mapper() {
            Mapper::Book => {
                let t = match self.run(&query, vec![SqlValue::from(sid)]) {
                    Ok(t) => t,
                    Err(e) => {
                        return Err(e);
                    },
                };
                match decode_books(&t) {
                    Ok(v) => Ok(v),
                    Err(e) => Err(e),
                }
            },
            _ => {
                proof {
                    assert(false);
                }
                Err(ApiError::CatalogLookup)
            },
        }
    }

    /// Returns the books carrying the genre `gid` whose added date
    /// matches the date pattern.
    pub fn books_by_genre_id_and_date(&self, gid: u32, date: String) -> (r: Result<
        Vec<Book>,
        ApiError,
    >)
        ensures
            r matches Err(e) ==> e.is_runtime(),
    {
        let query = Query::BooksByGenreIdAndDate;
        match query.mapper() {
            Mapper::Book => {
                let t = match self.run(&query, vec![SqlValue::from(gid), SqlValue::from(date)]) {
                    Ok(t) => t,
                    Err(e) => {
                        return Err(e);
                    },
                };
                match decode_books(&t) {
                    Ok(v) => Ok(v),
                    Err(e) => Err(e),
                }
            },
            _ => {
                proof {
                    assert(false);
                }
                Err(ApiError::CatalogLookup)
            },
        }
    }

    /// Returns the books with the exact title.
    pub fn books_by_book_title(&self, name: &String) -> (r: Result<Vec<Book>, ApiError>)
        ensures
            r matches Err(e) ==> e.is_runtime(),
    {
        let query = Query::BooksByBookTitle;
        match query.mapper() {
            Mapper::Book => {
                let t = match self.run(&query, vec![SqlValue::from(name.clone())]) {
                    Ok(t) => t,
                    Err(e) => {
                        return Err(e);
                    },
                };
                match decode_books(&t) {
                    Ok(v) => Ok(v),
                    Err(e) => Err(e),
                }
            },
            _ => {
                proof {
                    assert(false);
                }
                Err(ApiError::CatalogLookup)
            },
        }
    }

    /// Returns the distinct meta labels of the genre taxonomy.
    pub fn meta_genres(&self) -> (r: Result<Vec<String>, ApiError>)
        ensures
            r matches Err(e) ==> e.is_runtime(),
    {
        let query = Query::MetaGenres;
        match query.mapper() {
            Mapper::Text => {
                let t = match self.run(&query, Vec::new()) {
                    Ok(t) => t,
                    Err(e) => {
                        return Err(e);
                    },
                };
                match decode_strings(&t) {
                    Ok(v) => Ok(v),
                    Err(e) => Err(e),
                }
            },
            _ => {
                proof {
                    assert(false);
                }
                Err(ApiError::CatalogLookup)
            },
        }
    }

    /// Returns the genres grouped under the meta label.
    pub fn genres_by_meta(&self, meta: &String) -> (r: Result<Vec<Value>, ApiError>)
        ensures
            r matches Err(e) ==> e.is_runtime(),
    {
        let query = Query::GenresByMeta;
        match query.mapper() {
            Mapper::Labeled => {
                let t = match self.run(&query, vec![SqlValue::from(meta.clone())]) {
                    Ok(t) => t,
                    Err(e) => {
                        return Err(e);
                    },
                };
                match decode_values(&t) {
                    Ok(v) => Ok(v),
                    Err(e) => Err(e),
                }
            },
            _ => {
                proof {
                    assert(false);
                }
                Err(ApiError::CatalogLookup)
            },
        }
    }
}

} // verus!
