//! The query catalog: a closed enumeration of supported query kinds, each
//! bound to exactly one parameterized query text and exactly one row-mapper
//! kind, together with the verified row decoders.

use vstd::prelude::*;

use crate::author::{Author, AuthorView};
use crate::book::{Book, BookView};
use crate::db::{Field, Table};
use crate::error::ApiError;
use crate::serie::{Serie, SerieView};
use crate::value::{Value, ValueView};

verus! {

/// The closed catalog of query identifiers.
#[derive(Clone, Copy, PartialEq, Eq, Structural, Debug)]
pub enum Query {
    AuthorByIds,
    AuthorNextCharByPrefix,
    AuthorsByBooksIds,
    AuthorsByGenreId,
    AuthorsByLastName,
    BookById,
    BookNextCharByPrefix,
    BooksByAuthorIds,
    BooksByBookTitle,
    BooksByGenreIdAndDate,
    BooksBySerieId,
    GenresByMeta,
    MetaGenres,
    SerieNextCharByPrefix,
    SeriesByAuthorIds,
    SeriesByGenreId,
    SeriesByIds,
    SeriesBySerieName,
}

/// How one result row of a query is decoded: into a plain string, a
/// labeled value, an author, a series or a book.
#[derive(Clone, Copy, PartialEq, Eq, Structural, Debug)]
pub enum Mapper {
    Text,
    Labeled,
    Author,
    Serie,
    Book,
}

/// The mapper kind registered for each query identifier.
pub open spec fn spec_mapper(q: Query) -> Mapper {
    match q {
        Query::AuthorNextCharByPrefix => Mapper::Text,
        Query::SerieNextCharByPrefix => Mapper::Text,
        Query::BookNextCharByPrefix => Mapper::Text,
        Query::AuthorByIds => Mapper::Author,
        Query::AuthorsByGenreId => Mapper::Author,
        Query::AuthorsByLastName => Mapper::Author,
        Query::AuthorsByBooksIds => Mapper::Author,
        Query::SeriesByIds => Mapper::Serie,
        Query::SeriesByGenreId => Mapper::Serie,
        Query::SeriesBySerieName => Mapper::Serie,
        Query::SeriesByAuthorIds => Mapper::Serie,
        Query::BookById => Mapper::Book,
        Query::BooksBySerieId => Mapper::Book,
        Query::BooksByAuthorIds => Mapper::Book,
        Query::BooksByBookTitle => Mapper::Book,
        Query::BooksByGenreIdAndDate => Mapper::Book,
        Query::MetaGenres => Mapper::Text,
        Query::GenresByMeta => Mapper::Labeled,
    }
}

/// The query text registered for each identifier: the registry as data.
pub open spec fn spec_sql(q: Query) -> Seq<char> {
    match q {
        Query::AuthorNextCharByPrefix => r#"
            SELECT DISTINCT substr(value, 1, $1) AS value
            FROM last_names WHERE LOWER(value) LIKE LOWER($2) || '%'
            ORDER BY value COLLATE opds;
            "#@,
        Query::SerieNextCharByPrefix => r#"
            SELECT DISTINCT substr(value, 1, $1) AS value
            FROM series WHERE LOWER(value) LIKE LOWER($2) || '%'
            ORDER BY value COLLATE opds;
            "#@,
        Query::BookNextCharByPrefix => r#"
            SELECT DISTINCT substr(value, 1, $1) AS value
            FROM titles WHERE LOWER(value) LIKE LOWER($2) || '%'
            ORDER BY value COLLATE opds;
            "#@,
        Query::AuthorsByLastName => r#"
            WITH last_name(fid, mid, lid, value) AS (
                SELECT DISTINCT first_name_id, middle_name_id, id, value
			    FROM last_names LEFT JOIN authors_map ON authors_map.last_name_id = id
                WHERE value = $1
            )
            SELECT
  	            fid, first_names.value AS fname,
                mid, middle_names.value AS mname,
			    lid, last_name.value AS lname
			FROM last_name
            JOIN middle_names ON middle_names.id = mid
            JOIN first_names ON first_names.id = fid
            ORDER BY lname, fname, mname COLLATE opds;
            "#@,
        Query::AuthorsByBooksIds => r#"
            SELECT DISTINCT
  	            first_names.id AS fid, first_names.value AS fname,
                middle_names.id AS mid, middle_names.value AS mname,
			    last_names.id AS lid, last_names.value AS lname
			FROM authors_map
			JOIN first_names ON first_names.id = authors_map.first_name_id
			JOIN middle_names ON middle_names.id = authors_map.middle_name_id
			JOIN last_names ON last_names.id = authors_map.last_name_id
			WHERE authors_map.book_id IN rarray($1)
            ORDER BY lname, fname, mname COLLATE opds;
            "#@,
        Query::SeriesByIds => r#"
            SELECT
                series.id AS id,
                series.value AS name,
                count(books.book_id) as count,
			    first_names.id AS fid, first_names.value AS fname,
                middle_names.id AS mid, middle_names.value AS mname,
			    last_names.id AS lid, last_names.value AS lname
            FROM series
		    JOIN series_map ON series_map.serie_id = series.id
		    JOIN authors_map ON authors_map.book_id = series_map.book_id
		    JOIN books ON books.book_id = series_map.book_id
		    JOIN first_names ON first_names.id = first_name_id
		    JOIN middle_names ON middle_names.id = middle_name_id
		    JOIN last_names ON last_names.id = last_name_id
            WHERE series.id IN rarray($1)
            GROUP BY 1, 4, 6, 8
		    ORDER BY name, lname, fname, mname COLLATE opds;
        "#@,
        Query::SeriesBySerieName => r#"
            SELECT
                series.id AS id,
                series.value AS name,
                count(books.book_id) as count,
			    first_names.id AS fid, first_names.value AS fname,
                middle_names.id AS mid, middle_names.value AS mname,
			    last_names.id AS lid, last_names.value AS lname
            FROM series
		    JOIN series_map ON series_map.serie_id = series.id
		    JOIN authors_map ON authors_map.book_id = series_map.book_id
		    JOIN books ON books.book_id = series_map.book_id
		    JOIN first_names ON first_names.id = first_name_id
		    JOIN middle_names ON middle_names.id = middle_name_id
		    JOIN last_names ON last_names.id = last_name_id
            WHERE series.value = $1 AND name IS NOT NULL
            GROUP BY 1, 4, 6, 8
		    ORDER BY name, lname, fname, mname COLLATE opds;
            "#@,
        Query::SeriesByAuthorIds => r#"
           	SELECT
                series.id AS id,
                series.value AS name,
			    count(books.book_id) as count,
			    first_names.id AS fid, first_names.value AS fname,
                middle_names.id AS mid, middle_names.value AS mname,
			    last_names.id AS lid, last_names.value AS lname
            FROM authors_map
            LEFT JOIN books ON authors_map.book_id = books.book_id
            LEFT JOIN series_map ON  books.book_id = series_map.book_id
            LEFT JOIN series ON series_map.serie_id = series.id
		    JOIN first_names ON first_names.id = first_name_id
		    JOIN middle_names ON middle_names.id = middle_name_id
		    JOIN last_names ON last_names.id = last_name_id
            WHERE first_name_id = $1 AND middle_name_id = $2 AND last_name_id = $3 AND name IS NOT NULL
            GROUP BY 1
		    ORDER BY name, lname, fname, mname COLLATE opds;
            "#@,
        Query::SeriesByGenreId => r#"
           	WITH accepted(id) AS (
                SELECT book_id FROM genres_map WHERE genre_id = $1
            )
            SELECT
			    series.id AS id,
			    series.value AS name,
			    count(series.value) AS count,
			    first_names.id AS fid, first_names.value AS fname,
                middle_names.id AS mid, middle_names.value AS mname,
			    last_names.id AS lid, last_names.value AS lname
            FROM accepted
            JOIN series_map ON series_map.book_id = accepted.id
            JOIN series ON series.id = series_map.serie_id
		    JOIN authors_map ON authors_map.book_id = accepted.id
		    JOIN first_names ON first_names.id = first_name_id
		    JOIN middle_names ON middle_names.id = middle_name_id
		    JOIN last_names ON last_names.id = last_name_id

            WHERE series.value IS NOT NULL
            GROUP BY 1, 4, 6, 8
		    ORDER BY name, lname, fname, mname COLLATE opds;
            "#@,
        Query::AuthorsByGenreId => r#"
            WITH accepted(id) AS (
                SELECT book_id FROM genres_map WHERE genre_id = $1
            )
            SELECT DISTINCT
  	            first_names.id AS fid, first_names.value AS fname,
                middle_names.id AS mid, middle_names.value AS mname,
			    last_names.id AS lid, last_names.value AS lname
			FROM accepted
			JOIN authors_map ON authors_map.book_id = accepted.id
			JOIN first_names ON first_names.id = authors_map.first_name_id
			JOIN middle_names ON middle_names.id = authors_map.middle_name_id
			JOIN last_names ON last_names.id = authors_map.last_name_id
            ORDER BY lname, fname, mname COLLATE opds;
            "#@,
        Query::BooksByGenreIdAndDate => r#"
           	WITH accepted(id) AS (
                SELECT book_id FROM genres_map WHERE genre_id = $1
            )
            SELECT
                books.book_id AS id,
				titles.value AS name,
                series.id AS sid,
                series_map.serie_num AS idx,
                first_names.id AS fid, first_names.value AS fname,
                middle_names.id AS mid, middle_names.value AS mname,
			    last_names.id AS lid, last_names.value AS lname,
                books.book_size AS size,
                dates.value AS added
            FROM accepted
			JOIN books ON books.book_id = accepted.id
            JOIN titles ON titles.id = books.title_id
            LEFT JOIN series_map ON series_map.book_id = accepted.id
		    LEFT JOIN series ON series.id = series_map.serie_id
			JOIN authors_map ON authors_map.book_id = accepted.id
   		    JOIN first_names ON first_names.id = first_name_id
		    JOIN middle_names ON middle_names.id = middle_name_id
		    JOIN last_names ON last_names.id = last_name_id
			JOIN dates ON  dates.id = books.date_id
			WHERE dates.value LIKE $2
            ORDER BY sid, idx, name, added COLLATE opds;
            "#@,
        Query::AuthorByIds => r#"
            SELECT
  	            first_names.id AS fid, first_names.value AS fname,
                middle_names.id AS mid, middle_names.value AS mname,
			    last_names.id AS lid, last_names.value AS lname
            FROM first_names, middle_names, last_names
            WHERE first_names.id = $1 AND middle_names.id = $2 AND last_names.id = $3;
            "#@,
        Query::BookById => r#"
			WITH book(book_id, title_id, date_id, book_size) AS (
                SELECT book_id, title_id, date_id, book_size FROM books WHERE book_id = $1
            )
            SELECT
                book.book_id AS id,
				titles.value AS name,
                series.id AS sid,
                series_map.serie_num AS idx,
                first_names.id AS fid, first_names.value AS fname,
                middle_names.id AS mid, middle_names.value AS mname,
			    last_names.id AS lid, last_names.value AS lname,
                book.book_size AS size,
                dates.value AS added
            FROM book
			JOIN authors_map ON authors_map.book_id = book.book_id
            JOIN titles ON titles.id = book.title_id
            JOIN dates ON dates.id = book.date_id
            LEFT JOIN series_map ON series_map.book_id = book.book_id
		    LEFT JOIN series ON series.id = series_map.serie_id
   		    JOIN first_names ON first_names.id = first_name_id
		    JOIN middle_names ON middle_names.id = middle_name_id
		    JOIN last_names ON last_names.id = last_name_id;
            "#@,
        Query::BooksByAuthorIds => r#"
            SELECT
                books.book_id AS id,
				titles.value AS name,
                series.id AS sid,
                series_map.serie_num AS idx,
                first_names.id AS fid, first_names.value AS fname,
                middle_names.id AS mid, middle_names.value AS mname,
			    last_names.id AS lid, last_names.value AS lname,
                books.book_size AS size,
                dates.value AS added
            FROM authors_map
            JOIN books ON books.book_id = authors_map.book_id
            JOIN titles ON titles.id = books.title_id
            JOIN dates ON  books.date_id = dates.id
            LEFT JOIN series_map ON series_map.book_id = books.book_id
		    LEFT JOIN series ON series.id = series_map.serie_id
   		    JOIN first_names ON first_names.id = first_name_id
		    JOIN middle_names ON middle_names.id = middle_name_id
		    JOIN last_names ON last_names.id = last_name_id
            WHERE first_name_id = $1 AND middle_name_id = $2 AND last_name_id = $3
            ORDER BY sid, idx, name, added COLLATE opds;
            "#@,
        Query::BooksByBookTitle => r#"
            SELECT
                books.book_id AS id,
				titles.value AS name,
                series.id AS sid,
                series_map.serie_num AS idx,
                first_names.id AS fid, first_names.value AS fname,
                middle_names.id AS mid, middle_names.value AS mname,
			    last_names.id AS lid, last_names.value AS lname,
                books.book_size AS size,
                dates.value AS added
            FROM titles
            JOIN books ON books.title_id = titles.id
            JOIN dates ON  books.date_id = dates.id
            LEFT JOIN series_map ON series_map.book_id = books.book_id
		    LEFT JOIN series ON series.id = series_map.serie_id
			JOIN authors_map ON authors_map.book_id = books.book_id
   		    JOIN first_names ON first_names.id = first_name_id
		    JOIN middle_names ON middle_names.id = middle_name_id
		    JOIN last_names ON last_names.id = last_name_id
            WHERE titles.value = $1
            ORDER BY sid, idx, name, added COLLATE opds;
            "#@,
        Query::BooksBySerieId => r#"
            SELECT
                books.book_id AS id,
				titles.value AS name,
                series.id AS sid,
                series_map.serie_num AS idx,
                first_names.id AS fid, first_names.value AS fname,
                middle_names.id AS mid, middle_names.value AS mname,
			    last_names.id AS lid, last_names.value AS lname,
                books.book_size AS size,
                dates.value AS added
            FROM authors_map
            JOIN books ON books.book_id = authors_map.book_id
            JOIN titles ON titles.id = books.title_id
            JOIN dates ON  books.date_id = dates.id
            LEFT JOIN series_map ON series_map.book_id = books.book_id
		    LEFT JOIN series ON series.id = series_map.serie_id
   		    JOIN first_names ON first_names.id = first_name_id
		    JOIN middle_names ON middle_names.id = middle_name_id
		    JOIN last_names ON last_names.id = last_name_id
            WHERE series.id = $1
            ORDER BY idx, name, added COLLATE opds;
            "#@,
        Query::MetaGenres => "SELECT DISTINCT meta AS value FROM genres_def ORDER BY value COLLATE opds"@,
        Query::GenresByMeta => r#"
            SELECT genres.id AS id, genre AS value
            FROM genres_def JOIN genres ON genres.value = genres_def.code
            WHERE meta = $1 ORDER BY value COLLATE opds;
            "#@,
    }
}

impl Query {
    /// Every enumerated identifier, in registration order.
    pub fn values() -> (r: Vec<Query>)
        ensures
            r@.len() == 18,
            forall|q: Query| r@.contains(q),
    {
        let r = vec![
            Query::AuthorNextCharByPrefix,
            Query::SerieNextCharByPrefix,
            Query::BookNextCharByPrefix,
            Query::AuthorsByLastName,
            Query::SeriesBySerieName,
            Query::SeriesByAuthorIds,
            Query::AuthorByIds,
            Query::BookById,
            Query::BooksByAuthorIds,
            Query::BooksByBookTitle,
            Query::BooksBySerieId,
            Query::MetaGenres,
            Query::GenresByMeta,
            Query::SeriesByGenreId,
            Query::AuthorsByGenreId,
            Query::BooksByGenreIdAndDate,
            Query::AuthorsByBooksIds,
            Query::SeriesByIds,
        ];
        proof {
            assert forall|q: Query| r@.contains(q) by {
                match q {
                    Query::AuthorNextCharByPrefix => assert(r@[0] == q),
                    Query::SerieNextCharByPrefix => assert(r@[1] == q),
                    Query::BookNextCharByPrefix => assert(r@[2] == q),
                    Query::AuthorsByLastName => assert(r@[3] == q),
                    Query::SeriesBySerieName => assert(r@[4] == q),
                    Query::SeriesByAuthorIds => assert(r@[5] == q),
                    Query::AuthorByIds => assert(r@[6] == q),
                    Query::BookById => assert(r@[7] == q),
                    Query::BooksByAuthorIds => assert(r@[8] == q),
                    Query::BooksByBookTitle => assert(r@[9] == q),
                    Query::BooksBySerieId => assert(r@[10] == q),
                    Query::MetaGenres => assert(r@[11] == q),
                    Query::GenresByMeta => assert(r@[12] == q),
                    Query::SeriesByGenreId => assert(r@[13] == q),
                    Query::AuthorsByGenreId => assert(r@[14] == q),
                    Query::BooksByGenreIdAndDate => assert(r@[15] == q),
                    Query::AuthorsByBooksIds => assert(r@[16] == q),
                    Query::SeriesByIds => assert(r@[17] == q),
                }
            }
        }
        r
    }

    /// The parameterized query text registered for this identifier. The
    /// registry is total: every enumerated identifier has exactly one
    /// text, so the lookup never fails.
    pub fn get(&self) -> (r: Result<&'static str, ApiError>)
        ensures
            r is Ok,
            r matches Ok(t) ==> t@ == spec_sql(*self),
    {
        match self {
            Query::AuthorNextCharByPrefix => Ok(
                r#"
            SELECT DISTINCT substr(value, 1, $1) AS value
            FROM last_names WHERE LOWER(value) LIKE LOWER($2) || '%'
            ORDER BY value COLLATE opds;
            "#,
            ),
            Query::SerieNextCharByPrefix => Ok(
                r#"
            SELECT DISTINCT substr(value, 1, $1) AS value
            FROM series WHERE LOWER(value) LIKE LOWER($2) || '%'
            ORDER BY value COLLATE opds;
            "#,
            ),
            Query::BookNextCharByPrefix => Ok(
                r#"
            SELECT DISTINCT substr(value, 1, $1) AS value
            FROM titles WHERE LOWER(value) LIKE LOWER($2) || '%'
            ORDER BY value COLLATE opds;
            "#,
            ),
            Query::AuthorsByLastName => Ok(
                r#"
            WITH last_name(fid, mid, lid, value) AS (
                SELECT DISTINCT first_name_id, middle_name_id, id, value
			    FROM last_names LEFT JOIN authors_map ON authors_map.last_name_id = id
                WHERE value = $1
            )
            SELECT
  	            fid, first_names.value AS fname,
                mid, middle_names.value AS mname,
			    lid, last_name.value AS lname
			FROM last_name
            JOIN middle_names ON middle_names.id = mid
            JOIN first_names ON first_names.id = fid
            ORDER BY lname, fname, mname COLLATE opds;
            "#,
            ),
            Query::AuthorsByBooksIds => Ok(
                r#"
            SELECT DISTINCT
  	            first_names.id AS fid, first_names.value AS fname,
                middle_names.id AS mid, middle_names.value AS mname,
			    last_names.id AS lid, last_names.value AS lname
			FROM authors_map
			JOIN first_names ON first_names.id = authors_map.first_name_id
			JOIN middle_names ON middle_names.id = authors_map.middle_name_id
			JOIN last_names ON last_names.id = authors_map.last_name_id
			WHERE authors_map.book_id IN rarray($1)
            ORDER BY lname, fname, mname COLLATE opds;
            "#,
            ),
            Query::SeriesByIds => Ok(
                r#"
            SELECT
                series.id AS id,
                series.value AS name,
                count(books.book_id) as count,
			    first_names.id AS fid, first_names.value AS fname,
                middle_names.id AS mid, middle_names.value AS mname,
			    last_names.id AS lid, last_names.value AS lname
            FROM series
		    JOIN series_map ON series_map.serie_id = series.id
		    JOIN authors_map ON authors_map.book_id = series_map.book_id
		    JOIN books ON books.book_id = series_map.book_id
		    JOIN first_names ON first_names.id = first_name_id
		    JOIN middle_names ON middle_names.id = middle_name_id
		    JOIN last_names ON last_names.id = last_name_id
            WHERE series.id IN rarray($1)
            GROUP BY 1, 4, 6, 8
		    ORDER BY name, lname, fname, mname COLLATE opds;
        "#,
            ),
            Query::SeriesBySerieName => Ok(
                r#"
            SELECT
                series.id AS id,
                series.value AS name,
                count(books.book_id) as count,
			    first_names.id AS fid, first_names.value AS fname,
                middle_names.id AS mid, middle_names.value AS mname,
			    last_names.id AS lid, last_names.value AS lname
            FROM series
		    JOIN series_map ON series_map.serie_id = series.id
		    JOIN authors_map ON authors_map.book_id = series_map.book_id
		    JOIN books ON books.book_id = series_map.book_id
		    JOIN first_names ON first_names.id = first_name_id
		    JOIN middle_names ON middle_names.id = middle_name_id
		    JOIN last_names ON last_names.id = last_name_id
            WHERE series.value = $1 AND name IS NOT NULL
            GROUP BY 1, 4, 6, 8
		    ORDER BY name, lname, fname, mname COLLATE opds;
            "#,
            ),
            Query::SeriesByAuthorIds => Ok(
                r#"
           	SELECT
                series.id AS id,
                series.value AS name,
			    count(books.book_id) as count,
			    first_names.id AS fid, first_names.value AS fname,
                middle_names.id AS mid, middle_names.value AS mname,
			    last_names.id AS lid, last_names.value AS lname
            FROM authors_map
            LEFT JOIN books ON authors_map.book_id = books.book_id
            LEFT JOIN series_map ON  books.book_id = series_map.book_id
            LEFT JOIN series ON series_map.serie_id = series.id
		    JOIN first_names ON first_names.id = first_name_id
		    JOIN middle_names ON middle_names.id = middle_name_id
		    JOIN last_names ON last_names.id = last_name_id
            WHERE first_name_id = $1 AND middle_name_id = $2 AND last_name_id = $3 AND name IS NOT NULL
            GROUP BY 1
		    ORDER BY name, lname, fname, mname COLLATE opds;
            "#,
            ),
            Query::SeriesByGenreId => Ok(
                r#"
           	WITH accepted(id) AS (
                SELECT book_id FROM genres_map WHERE genre_id = $1
            )
            SELECT
			    series.id AS id,
			    series.value AS name,
			    count(series.value) AS count,
			    first_names.id AS fid, first_names.value AS fname,
                middle_names.id AS mid, middle_names.value AS mname,
			    last_names.id AS lid, last_names.value AS lname
            FROM accepted
            JOIN series_map ON series_map.book_id = accepted.id
            JOIN series ON series.id = series_map.serie_id
		    JOIN authors_map ON authors_map.book_id = accepted.id
		    JOIN first_names ON first_names.id = first_name_id
		    JOIN middle_names ON middle_names.id = middle_name_id
		    JOIN last_names ON last_names.id = last_name_id

            WHERE series.value IS NOT NULL
            GROUP BY 1, 4, 6, 8
		    ORDER BY name, lname, fname, mname COLLATE opds;
            "#,
            ),
            Query::AuthorsByGenreId => Ok(
                r#"
            WITH accepted(id) AS (
                SELECT book_id FROM genres_map WHERE genre_id = $1
            )
            SELECT DISTINCT
  	            first_names.id AS fid, first_names.value AS fname,
                middle_names.id AS mid, middle_names.value AS mname,
			    last_names.id AS lid, last_names.value AS lname
			FROM accepted
			JOIN authors_map ON authors_map.book_id = accepted.id
			JOIN first_names ON first_names.id = authors_map.first_name_id
			JOIN middle_names ON middle_names.id = authors_map.middle_name_id
			JOIN last_names ON last_names.id = authors_map.last_name_id
            ORDER BY lname, fname, mname COLLATE opds;
            "#,
            ),
            Query::BooksByGenreIdAndDate => Ok(
                r#"
           	WITH accepted(id) AS (
                SELECT book_id FROM genres_map WHERE genre_id = $1
            )
            SELECT
                books.book_id AS id,
				titles.value AS name,
                series.id AS sid,
                series_map.serie_num AS idx,
                first_names.id AS fid, first_names.value AS fname,
                middle_names.id AS mid, middle_names.value AS mname,
			    last_names.id AS lid, last_names.value AS lname,
                books.book_size AS size,
                dates.value AS added
            FROM accepted
			JOIN books ON books.book_id = accepted.id
            JOIN titles ON titles.id = books.title_id
            LEFT JOIN series_map ON series_map.book_id = accepted.id
		    LEFT JOIN series ON series.id = series_map.serie_id
			JOIN authors_map ON authors_map.book_id = accepted.id
   		    JOIN first_names ON first_names.id = first_name_id
		    JOIN middle_names ON middle_names.id = middle_name_id
		    JOIN last_names ON last_names.id = last_name_id
			JOIN dates ON  dates.id = books.date_id
			WHERE dates.value LIKE $2
            ORDER BY sid, idx, name, added COLLATE opds;
            "#,
            ),
            Query::AuthorByIds => Ok(
                r#"
            SELECT
  	            first_names.id AS fid, first_names.value AS fname,
                middle_names.id AS mid, middle_names.value AS mname,
			    last_names.id AS lid, last_names.value AS lname
            FROM first_names, middle_names, last_names
            WHERE first_names.id = $1 AND middle_names.id = $2 AND last_names.id = $3;
            "#,
            ),
            Query::BookById => Ok(
                r#"
			WITH book(book_id, title_id, date_id, book_size) AS (
                SELECT book_id, title_id, date_id, book_size FROM books WHERE book_id = $1
            )
            SELECT
                book.book_id AS id,
				titles.value AS name,
                series.id AS sid,
                series_map.serie_num AS idx,
                first_names.id AS fid, first_names.value AS fname,
                middle_names.id AS mid, middle_names.value AS mname,
			    last_names.id AS lid, last_names.value AS lname,
                book.book_size AS size,
                dates.value AS added
            FROM book
			JOIN authors_map ON authors_map.book_id = book.book_id
            JOIN titles ON titles.id = book.title_id
            JOIN dates ON dates.id = book.date_id
            LEFT JOIN series_map ON series_map.book_id = book.book_id
		    LEFT JOIN series ON series.id = series_map.serie_id
   		    JOIN first_names ON first_names.id = first_name_id
		    JOIN middle_names ON middle_names.id = middle_name_id
		    JOIN last_names ON last_names.id = last_name_id;
            "#,
            ),
            Query::BooksByAuthorIds => Ok(
                r#"
            SELECT
                books.book_id AS id,
				titles.value AS name,
                series.id AS sid,
                series_map.serie_num AS idx,
                first_names.id AS fid, first_names.value AS fname,
                middle_names.id AS mid, middle_names.value AS mname,
			    last_names.id AS lid, last_names.value AS lname,
                books.book_size AS size,
                dates.value AS added
            FROM authors_map
            JOIN books ON books.book_id = authors_map.book_id
            JOIN titles ON titles.id = books.title_id
            JOIN dates ON  books.date_id = dates.id
            LEFT JOIN series_map ON series_map.book_id = books.book_id
		    LEFT JOIN series ON series.id = series_map.serie_id
   		    JOIN first_names ON first_names.id = first_name_id
		    JOIN middle_names ON middle_names.id = middle_name_id
		    JOIN last_names ON last_names.id = last_name_id
            WHERE first_name_id = $1 AND middle_name_id = $2 AND last_name_id = $3
            ORDER BY sid, idx, name, added COLLATE opds;
            "#,
            ),
            Query::BooksByBookTitle => Ok(
                r#"
            SELECT
                books.book_id AS id,
				titles.value AS name,
                series.id AS sid,
                series_map.serie_num AS idx,
                first_names.id AS fid, first_names.value AS fname,
                middle_names.id AS mid, middle_names.value AS mname,
			    last_names.id AS lid, last_names.value AS lname,
                books.book_size AS size,
                dates.value AS added
            FROM titles
            JOIN books ON books.title_id = titles.id
            JOIN dates ON  books.date_id = dates.id
            LEFT JOIN series_map ON series_map.book_id = books.book_id
		    LEFT JOIN series ON series.id = series_map.serie_id
			JOIN authors_map ON authors_map.book_id = books.book_id
   		    JOIN first_names ON first_names.id = first_name_id
		    JOIN middle_names ON middle_names.id = middle_name_id
		    JOIN last_names ON last_names.id = last_name_id
            WHERE titles.value = $1
            ORDER BY sid, idx, name, added COLLATE opds;
            "#,
            ),
            Query::BooksBySerieId => Ok(
                r#"
            SELECT
                books.book_id AS id,
				titles.value AS name,
                series.id AS sid,
                series_map.serie_num AS idx,
                first_names.id AS fid, first_names.value AS fname,
                middle_names.id AS mid, middle_names.value AS mname,
			    last_names.id AS lid, last_names.value AS lname,
                books.book_size AS size,
                dates.value AS added
            FROM authors_map
            JOIN books ON books.book_id = authors_map.book_id
            JOIN titles ON titles.id = books.title_id
            JOIN dates ON  books.date_id = dates.id
            LEFT JOIN series_map ON series_map.book_id = books.book_id
		    LEFT JOIN series ON series.id = series_map.serie_id
   		    JOIN first_names ON first_names.id = first_name_id
		    JOIN middle_names ON middle_names.id = middle_name_id
		    JOIN last_names ON last_names.id = last_name_id
            WHERE series.id = $1
            ORDER BY idx, name, added COLLATE opds;
            "#,
            ),
            Query::MetaGenres => Ok(
                "SELECT DISTINCT meta AS value FROM genres_def ORDER BY value COLLATE opds",
            ),
            Query::GenresByMeta => Ok(
                r#"
            SELECT genres.id AS id, genre AS value
            FROM genres_def JOIN genres ON genres.value = genres_def.code
            WHERE meta = $1 ORDER BY value COLLATE opds;
            "#,
            ),
        }
    }

    /// The row-mapper kind registered for this identifier. The registry is
    /// total: every enumerated identifier has exactly one mapper.
    pub fn mapper(&self) -> (r: Mapper)
        ensures
            r == spec_mapper(*self),
    {
        match self {
            Query::AuthorNextCharByPrefix => Mapper::Text,
            Query::SerieNextCharByPrefix => Mapper::Text,
            Query::BookNextCharByPrefix => Mapper::Text,
            Query::AuthorByIds => Mapper::Author,
            Query::AuthorsByGenreId => Mapper::Author,
            Query::AuthorsByLastName => Mapper::Author,
            Query::AuthorsByBooksIds => Mapper::Author,
            Query::SeriesByIds => Mapper::Serie,
            Query::SeriesByGenreId => Mapper::Serie,
            Query::SeriesBySerieName => Mapper::Serie,
            Query::SeriesByAuthorIds => Mapper::Serie,
            Query::BookById => Mapper::Book,
            Query::BooksBySerieId => Mapper::Book,
            Query::BooksByAuthorIds => Mapper::Book,
            Query::BooksByBookTitle => Mapper::Book,
            Query::BooksByGenreIdAndDate => Mapper::Book,
            Query::MetaGenres => Mapper::Text,
            Query::GenresByMeta => Mapper::Labeled,
        }
    }
}

/// Law: the catalog's self-check. Every enumerated query identifier has
/// exactly one registered text and one registered mapper: the text lookup
/// succeeds for each identifier, and the mapper is the registered kind.
pub fn catalog_self_check() -> (r: bool)
    ensures
        r,
{
    let ids = Query::values();
    let mut k: usize = 0;
    let mut ok = true;
    while k < ids.len()
        invariant
            ok,
        decreases ids@.len() - k,
    {
        let q = ids[k];
        match q.get() {
            Ok(_) => {},
            Err(_) => {
                ok = false;
                proof {
                    assert(false);
                }
            },
        }
        k = k + 1;
    }
    ok
}


/// The index of the first column named `name`, or -1 when no column has
/// that name. Column lookup is by name, not position, so query text can
/// add or reorder columns without breaking the mapping.
pub open spec fn col_of(names: Seq<String>, name: Seq<char>) -> int
    decreases names.len(),
{
    if names.len() == 0 {
        -1
    } else if names[0]@ == name {
        0
    } else {
        let r = col_of(names.drop_first(), name);
        if r < 0 {
            -1
        } else {
            r + 1
        }
    }
}

proof fn lemma_col_of_found(names: Seq<String>, name: Seq<char>, i: int)
    requires
        0 <= i <= names.len(),
        forall|k: int| 0 <= k < i ==> names[k]@ != name,
        i == names.len() || names[i]@ == name,
    ensures
        col_of(names, name) == if i == names.len() {
            -1int
        } else {
            i
        },
    decreases i, names.len(),
{
    if names.len() == 0 {
    } else if i == 0 {
        if names.len() > 0 && names[0]@ != name {
            let t = names.drop_first();
            lemma_col_of_found(t, name, 0);
        }
    } else {
        let t = names.drop_first();
        assert(names[0]@ != name);
        assert forall|k: int| 0 <= k < i - 1 implies t[k]@ != name by {
            assert(t[k] == names[k + 1]);
        }
        if i < names.len() {
            assert(t[i - 1] == names[i]);
        }
        lemma_col_of_found(t, name, i - 1);
    }
}

/// Finds the column named `name`, resolving the name to an index once per
/// row set.
pub fn find_column(names: &Vec<String>, name: &str) -> (r: Option<usize>)
    ensures
        match r {
            Some(i) => col_of(names@, name@) == i && i < names@.len(),
            None => col_of(names@, name@) == -1,
        },
{
    let wanted: String = name.to_owned();
    let mut k: usize = 0;
    while k < names.len()
        invariant
            k <= names@.len(),
            wanted@ == name@,
            forall|j: int| 0 <= j < k ==> names@[j]@ != name@,
        decreases names@.len() - k,
    {
        if names[k].eq(&wanted) {
            proof {
                lemma_col_of_found(names@, name@, k as int);
            }
            return Some(k);
        }
        k = k + 1;
    }
    proof {
        lemma_col_of_found(names@, name@, names@.len() as int);
    }
    None
}

/// The field stored under the column named `name`, if such a column exists
/// and the row covers it.
pub open spec fn cell(names: Seq<String>, row: Seq<Field>, name: Seq<char>) -> Option<Field> {
    let i = col_of(names, name);
    if 0 <= i < row.len() {
        Some(row[i])
    } else {
        None
    }
}

/// Decoding the column `name` as an unsigned 32-bit integer: the column
/// must exist and hold an integer in range, else the failing column's name.
pub open spec fn u32_cell(names: Seq<String>, row: Seq<Field>, name: Seq<char>) -> Result<
    u32,
    Seq<char>,
> {
    match cell(names, row, name) {
        Some(Field::Int(x)) => if 0 <= x && x <= (u32::MAX as i64) {
            Ok(x as u32)
        } else {
            Err(name)
        },
        _ => Err(name),
    }
}

/// Decoding the column `name` as text: the column must exist and hold
/// text, else the failing column's name.
pub open spec fn text_cell(names: Seq<String>, row: Seq<Field>, name: Seq<char>) -> Result<
    Seq<char>,
    Seq<char>,
> {
    match cell(names, row, name) {
        Some(Field::Text(s)) => Ok(s@),
        _ => Err(name),
    }
}

/// Decoding the column `name` as an optional unsigned 32-bit integer: an
/// SQL NULL decodes to nothing, an in-range integer to its value, anything
/// else is the failing column's name.
pub open spec fn opt_u32_cell(names: Seq<String>, row: Seq<Field>, name: Seq<char>) -> Result<
    Option<u32>,
    Seq<char>,
> {
    match cell(names, row, name) {
        Some(Field::Null) => Ok(None),
        Some(Field::Int(x)) => if 0 <= x && x <= (u32::MAX as i64) {
            Ok(Some(x as u32))
        } else {
            Err(name)
        },
        _ => Err(name),
    }
}

fn cell_at<'a>(names: &Vec<String>, row: &'a Vec<Field>, name: &str) -> (r: Option<&'a Field>)
    requires
        row@.len() == names@.len(),
    ensures
        match r {
            Some(f) => cell(names@, row@, name@) == Some(*f),
            None => cell(names@, row@, name@) is None,
        },
{
    match find_column(names, name) {
        Some(i) => Some(&row[i]),
        None => None,
    }
}

fn field_u32(names: &Vec<String>, row: &Vec<Field>, name: &str) -> (r: Result<u32, ApiError>)
    requires
        row@.len() == names@.len(),
    ensures
        match u32_cell(names@, row@, name@) {
            Ok(v) => r matches Ok(x) && x == v,
            Err(c) => r matches Err(e) && e matches ApiError::Decode(s) && s@ == c,
        },
{
    match cell_at(names, row, name) {
        Some(f) => match f {
            Field::Int(x) => {
                if 0 <= *x && *x <= (u32::MAX as i64) {
                    Ok(*x as u32)
                } else {
                    Err(ApiError::Decode(name.to_owned()))
                }
            },
            _ => Err(ApiError::Decode(name.to_owned())),
        },
        None => Err(ApiError::Decode(name.to_owned())),
    }
}

fn field_text(names: &Vec<String>, row: &Vec<Field>, name: &str) -> (r: Result<String, ApiError>)
    requires
        row@.len() == names@.len(),
    ensures
        match text_cell(names@, row@, name@) {
            Ok(v) => r matches Ok(x) && x@ == v,
            Err(c) => r matches Err(e) && e matches ApiError::Decode(s) && s@ == c,
        },
{
    match cell_at(names, row, name) {
        Some(f) => match f {
            Field::Text(s) => Ok(s.clone()),
            _ => Err(ApiError::Decode(name.to_owned())),
        },
        None => Err(ApiError::Decode(name.to_owned())),
    }
}

fn field_opt_u32(names: &Vec<String>, row: &Vec<Field>, name: &str) -> (r: Result<
    Option<u32>,
    ApiError,
>)
    requires
        row@.len() == names@.len(),
    ensures
        match opt_u32_cell(names@, row@, name@) {
            Ok(v) => r matches Ok(x) && x == v,
            Err(c) => r matches Err(e) && e matches ApiError::Decode(s) && s@ == c,
        },
{
    match cell_at(names, row, name) {
        Some(f) => match f {
            Field::Null => Ok(None),
            Field::Int(x) => {
                if 0 <= *x && *x <= (u32::MAX as i64) {
                    Ok(Some(*x as u32))
                } else {
                    Err(ApiError::Decode(name.to_owned()))
                }
            },
            _ => Err(ApiError::Decode(name.to_owned())),
        },
        None => Err(ApiError::Decode(name.to_owned())),
    }
}


/// Decoding one row of a plain-string query: the `value` column as text.
pub open spec fn decode_string_row(names: Seq<String>, row: Seq<Field>) -> Result<
    Seq<char>,
    Seq<char>,
> {
    text_cell(names, row, "value"@)
}

/// Decoding one row of a labeled-value query: `id` and `value`.
pub open spec fn decode_value_row(names: Seq<String>, row: Seq<Field>) -> Result<
    ValueView,
    Seq<char>,
> {
    match u32_cell(names, row, "id"@) {
        Err(c) => Err(c),
        Ok(id) => match text_cell(names, row, "value"@) {
            Err(c) => Err(c),
            Ok(t) => Ok(ValueView { id, text: t }),
        },
    }
}

/// Decoding one row's embedded author: the six author columns, which every
/// author-, series- and book-shaped query carries.
pub open spec fn decode_author_row(names: Seq<String>, row: Seq<Field>) -> Result<
    AuthorView,
    Seq<char>,
> {
    match u32_cell(names, row, "fid"@) {
        Err(c) => Err(c),
        Ok(fid) => match text_cell(names, row, "fname"@) {
            Err(c) => Err(c),
            Ok(fname) => match u32_cell(names, row, "mid"@) {
                Err(c) => Err(c),
                Ok(mid) => match text_cell(names, row, "mname"@) {
                    Err(c) => Err(c),
                    Ok(mname) => match u32_cell(names, row, "lid"@) {
                        Err(c) => Err(c),
                        Ok(lid) => match text_cell(names, row, "lname"@) {
                            Err(c) => Err(c),
                            Ok(lname) => Ok(
                                AuthorView {
                                    first: ValueView { id: fid, text: fname },
                                    middle: ValueView { id: mid, text: mname },
                                    last: ValueView { id: lid, text: lname },
                                },
                            ),
                        },
                    },
                },
            },
        },
    }
}

/// Decoding one row of a series query: `id`, `name`, `count` and the
/// embedded author.
pub open spec fn decode_serie_row(names: Seq<String>, row: Seq<Field>) -> Result<
    SerieView,
    Seq<char>,
> {
    match u32_cell(names, row, "id"@) {
        Err(c) => Err(c),
        Ok(id) => match text_cell(names, row, "name"@) {
            Err(c) => Err(c),
            Ok(name) => match u32_cell(names, row, "count"@) {
                Err(c) => Err(c),
                Ok(count) => match decode_author_row(names, row) {
                    Err(c) => Err(c),
                    Ok(author) => Ok(SerieView { id, name, count, author }),
                },
            },
        },
    }
}

/// Decoding one row of a book query: `id`, `name`, the optional series
/// columns `sid` and `idx`, `size`, `added`, and the embedded author.
pub open spec fn decode_book_row(names: Seq<String>, row: Seq<Field>) -> Result<
    BookView,
    Seq<char>,
> {
    match u32_cell(names, row, "id"@) {
        Err(c) => Err(c),
        Ok(id) => match text_cell(names, row, "name"@) {
            Err(c) => Err(c),
            Ok(name) => match opt_u32_cell(names, row, "sid"@) {
                Err(c) => Err(c),
                Ok(sid) => match opt_u32_cell(names, row, "idx"@) {
                    Err(c) => Err(c),
                    Ok(idx) => match u32_cell(names, row, "size"@) {
                        Err(c) => Err(c),
                        Ok(size) => match text_cell(names, row, "added"@) {
                            Err(c) => Err(c),
                            Ok(added) => match decode_author_row(names, row) {
                                Err(c) => Err(c),
                                Ok(author) => Ok(
                                    BookView { id, name, sid, idx, author, size, added },
                                ),
                            },
                        },
                    },
                },
            },
        },
    }
}

/// Decodes one result row into a plain string.
pub fn map_to_string(names: &Vec<String>, row: &Vec<Field>) -> (r: Result<String, ApiError>)
    requires
        row@.len() == names@.len(),
    ensures
        match decode_string_row(names@, row@) {
            Ok(v) => r matches Ok(x) && x@ == v,
            Err(c) => r matches Err(e) && e matches ApiError::Decode(s) && s@ == c,
        },
{
    field_text(names, row, "value")
}

/// Decodes one result row into a labeled value.
pub fn map_to_value(names: &Vec<String>, row: &Vec<Field>) -> (r: Result<Value, ApiError>)
    requires
        row@.len() == names@.len(),
    ensures
        match decode_value_row(names@, row@) {
            Ok(v) => r matches Ok(x) && x@ == v,
            Err(c) => r matches Err(e) && e matches ApiError::Decode(s) && s@ == c,
        },
{
    let id = match field_u32(names, row, "id") {
        Ok(v) => v,
        Err(e) => {
            return Err(e);
        },
    };
    let value = match field_text(names, row, "value") {
        Ok(v) => v,
        Err(e) => {
            return Err(e);
        },
    };
    Ok(Value::new(id, value.as_str()))
}

/// Decodes one result row's embedded author from the six author columns.
pub fn map_to_author(names: &Vec<String>, row: &Vec<Field>) -> (r: Result<Author, ApiError>)
    requires
        row@.len() == names@.len(),
    ensures
        match decode_author_row(names@, row@) {
            Ok(v) => r matches Ok(x) && x@ == v,
            Err(c) => r matches Err(e) && e matches ApiError::Decode(s) && s@ == c,
        },
{
    let fid = match field_u32(names, row, "fid") {
        Ok(v) => v,
        Err(e) => {
            return Err(e);
        },
    };
    let fname = match field_text(names, row, "fname") {
        Ok(v) => v,
        Err(e) => {
            return Err(e);
        },
    };
    let mid = match field_u32(names, row, "mid") {
        Ok(v) => v,
        Err(e) => {
            return Err(e);
        },
    };
    let mname = match field_text(names, row, "mname") {
        Ok(v) => v,
        Err(e) => {
            return Err(e);
        },
    };
    let lid = match field_u32(names, row, "lid") {
        Ok(v) => v,
        Err(e) => {
            return Err(e);
        },
    };
    let lname = match field_text(names, row, "lname") {
        Ok(v) => v,
        Err(e) => {
            return Err(e);
        },
    };
    Ok(
        Author::new(
            Value::new(fid, fname.as_str()),
            Value::new(mid, mname.as_str()),
            Value::new(lid, lname.as_str()),
        ),
    )
}

/// Decodes one result row into a series.
pub fn map_to_serie(names: &Vec<String>, row: &Vec<Field>) -> (r: Result<Serie, ApiError>)
    requires
        row@.len() == names@.len(),
    ensures
        match decode_serie_row(names@, row@) {
            Ok(v) => r matches Ok(x) && x@ == v,
            Err(c) => r matches Err(e) && e matches ApiError::Decode(s) && s@ == c,
        },
{
    let id = match field_u32(names, row, "id") {
        Ok(v) => v,
        Err(e) => {
            return Err(e);
        },
    };
    let name = match field_text(names, row, "name") {
        Ok(v) => v,
        Err(e) => {
            return Err(e);
        },
    };
    let count = match field_u32(names, row, "count") {
        Ok(v) => v,
        Err(e) => {
            return Err(e);
        },
    };
    let author = match map_to_author(names, row) {
        Ok(v) => v,
        Err(e) => {
            return Err(e);
        },
    };
    Ok(Serie::new(id, name.as_str(), count, author))
}

/// Decodes one result row into a book.
pub fn map_to_book(names: &Vec<String>, row: &Vec<Field>) -> (r: Result<Book, ApiError>)
    requires
        row@.len() == names@.len(),
    ensures
        match decode_book_row(names@, row@) {
            Ok(v) => r matches Ok(x) && x@ == v,
            Err(c) => r matches Err(e) && e matches ApiError::Decode(s) && s@ == c,
        },
{
    let id = match field_u32(names, row, "id") {
        Ok(v) => v,
        Err(e) => {
            return Err(e);
        },
    };
    let name = match field_text(names, row, "name") {
        Ok(v) => v,
        Err(e) => {
            return Err(e);
        },
    };
    let sid = match field_opt_u32(names, row, "sid") {
        Ok(v) => v,
        Err(e) => {
            return Err(e);
        },
    };
    let idx = match field_opt_u32(names, row, "idx") {
        Ok(v) => v,
        Err(e) => {
            return Err(e);
        },
    };
    let size = match field_u32(names, row, "size") {
        Ok(v) => v,
        Err(e) => {
            return Err(e);
        },
    };
    let added = match field_text(names, row, "added") {
        Ok(v) => v,
        Err(e) => {
            return Err(e);
        },
    };
    let author = match map_to_author(names, row) {
        Ok(v) => v,
        Err(e) => {
            return Err(e);
        },
    };
    Ok(Book::new(id, name.as_str(), sid, idx, author, size, added.as_str()))
}


/// Decoding a whole result set, row by row, with one per-row decoder: all
/// rows decode and the results keep row order, or the first failing row's
/// failing column is reported.
pub open spec fn decode_rows<T>(
    dec: spec_fn(Seq<String>, Seq<Field>) -> Result<T, Seq<char>>,
    names: Seq<String>,
    rows: Seq<Vec<Field>>,
) -> Result<Seq<T>, Seq<char>>
    decreases rows.len(),
{
    if rows.len() == 0 {
        Ok(Seq::<T>::empty())
    } else {
        match decode_rows(dec, names, rows.drop_last()) {
            Err(c) => Err(c),
            Ok(pre) => match dec(names, rows.last()@) {
                Ok(v) => Ok(pre.push(v)),
                Err(c) => Err(c),
            },
        }
    }
}

proof fn lemma_decode_rows_err<T>(
    dec: spec_fn(Seq<String>, Seq<Field>) -> Result<T, Seq<char>>,
    names: Seq<String>,
    rows: Seq<Vec<Field>>,
    k: int,
    c: Seq<char>,
)
    requires
        0 <= k < rows.len(),
        decode_rows(dec, names, rows.take(k)) is Ok,
        dec(names, rows[k]@) == Result::<T, Seq<char>>::Err(c),
    ensures
        decode_rows(dec, names, rows) == Result::<Seq<T>, Seq<char>>::Err(c),
    decreases rows.len(),
{
    if k == rows.len() - 1 {
        assert(rows.drop_last() =~= rows.take(k));
        assert(rows.last() == rows[k]);
    } else {
        let pre = rows.drop_last();
        assert(pre.take(k) =~= rows.take(k));
        assert(pre[k] == rows[k]);
        lemma_decode_rows_err(dec, names, pre, k, c);
    }
}

/// The per-row decoder of plain-string rows, as a value.
pub open spec fn string_dec() -> spec_fn(Seq<String>, Seq<Field>) -> Result<Seq<char>, Seq<char>> {
    |names: Seq<String>, row: Seq<Field>| decode_string_row(names, row)
}

/// The per-row decoder of labeled-value rows, as a value.
pub open spec fn value_dec() -> spec_fn(Seq<String>, Seq<Field>) -> Result<ValueView, Seq<char>> {
    |names: Seq<String>, row: Seq<Field>| decode_value_row(names, row)
}

/// The per-row decoder of author rows, as a value.
pub open spec fn author_dec() -> spec_fn(Seq<String>, Seq<Field>) -> Result<AuthorView, Seq<char>> {
    |names: Seq<String>, row: Seq<Field>| decode_author_row(names, row)
}

/// The per-row decoder of series rows, as a value.
pub open spec fn serie_dec() -> spec_fn(Seq<String>, Seq<Field>) -> Result<SerieView, Seq<char>> {
    |names: Seq<String>, row: Seq<Field>| decode_serie_row(names, row)
}

/// The per-row decoder of book rows, as a value.
pub open spec fn book_dec() -> spec_fn(Seq<String>, Seq<Field>) -> Result<BookView, Seq<char>> {
    |names: Seq<String>, row: Seq<Field>| decode_book_row(names, row)
}

/// The views of a sequence of strings.
pub open spec fn string_views(v: Seq<String>) -> Seq<Seq<char>> {
    v.map_values(|x: String| x@)
}

/// The views of a sequence of labeled values.
pub open spec fn value_views(v: Seq<Value>) -> Seq<ValueView> {
    v.map_values(|x: Value| x@)
}

/// The views of a sequence of authors.
pub open spec fn author_views(v: Seq<Author>) -> Seq<AuthorView> {
    v.map_values(|x: Author| x@)
}

/// The views of a sequence of series.
pub open spec fn serie_views(v: Seq<Serie>) -> Seq<SerieView> {
    v.map_values(|x: Serie| x@)
}

/// The views of a sequence of books.
pub open spec fn book_views(v: Seq<Book>) -> Seq<BookView> {
    v.map_values(|x: Book| x@)
}

/// Decodes every row of a plain-string result set, in row order.
pub fn decode_strings(t: &Table) -> (r: Result<Vec<String>, ApiError>)
    requires
        t.wf(),
    ensures
        match decode_rows(string_dec(), t.names@, t.rows@) {
            Ok(s) => r matches Ok(v) && string_views(v@) == s,
            Err(c) => r matches Err(e) && e matches ApiError::Decode(n) && n@ == c,
        },
{
    let mut out: Vec<String> = Vec::new();
    let mut k: usize = 0;
    while k < t.rows.len()
        invariant
            t.wf(),
            k <= t.rows@.len(),
            decode_rows(string_dec(), t.names@, t.rows@.take(k as int)) matches Ok(s)
                && string_views(out@) == s,
        decreases t.rows@.len() - k,
    {
        let row = &t.rows[k];
        proof {
            assert(t.rows@.take(k + 1).drop_last() =~= t.rows@.take(k as int));
            assert(t.rows@.take(k + 1).last() == t.rows@[k as int]);
        }
        match map_to_string(&t.names, row) {
            Ok(v) => {
                let ghost prev = out@;
                out.push(v);
                proof {
                    assert(string_views(out@) =~= string_views(prev).push(v@));
                }
            },
            Err(e) => {
                proof {
                    let c = decode_string_row(t.names@, t.rows@[k as int]@)->Err_0;
                    lemma_decode_rows_err(string_dec(), t.names@, t.rows@, k as int, c);
                }
                return Err(e);
            },
        }
        k = k + 1;
    }
    proof {
        assert(t.rows@.take(t.rows@.len() as int) =~= t.rows@);
    }
    Ok(out)
}


/// Decodes every row of a labeled-value result set, in row order.
pub fn decode_values(t: &Table) -> (r: Result<Vec<Value>, ApiError>)
    requires
        t.wf(),
    ensures
        match decode_rows(value_dec(), t.names@, t.rows@) {
            Ok(s) => r matches Ok(v) && value_views(v@) == s,
            Err(c) => r matches Err(e) && e matches ApiError::Decode(n) && n@ == c,
        },
{
    let mut out: Vec<Value> = Vec::new();
    let mut k: usize = 0;
    while k < t.rows.len()
        invariant
            t.wf(),
            k <= t.rows@.len(),
            decode_rows(value_dec(), t.names@, t.rows@.take(k as int)) matches Ok(s)
                && value_views(out@) == s,
        decreases t.rows@.len() - k,
    {
        let row = &t.rows[k];
        proof {
            assert(t.rows@.take(k + 1).drop_last() =~= t.rows@.take(k as int));
            assert(t.rows@.take(k + 1).last() == t.rows@[k as int]);
        }
        match map_to_value(&t.names, row) {
            Ok(v) => {
                let ghost prev = out@;
                out.push(v);
                proof {
                    assert(value_views(out@) =~= value_views(prev).push(v@));
                }
            },
            Err(e) => {
                proof {
                    let c = decode_value_row(t.names@, t.rows@[k as int]@)->Err_0;
                    lemma_decode_rows_err(value_dec(), t.names@, t.rows@, k as int, c);
                }
                return Err(e);
            },
        }
        k = k + 1;
    }
    proof {
        assert(t.rows@.take(t.rows@.len() as int) =~= t.rows@);
    }
    Ok(out)
}

/// Decodes every row of a author result set, in row order.
pub fn decode_authors(t: &Table) -> (r: Result<Vec<Author>, ApiError>)
    requires
        t.wf(),
    ensures
        match decode_rows(author_dec(), t.names@, t.rows@) {
            Ok(s) => r matches Ok(v) && author_views(v@) == s,
            Err(c) => r matches Err(e) && e matches ApiError::Decode(n) && n@ == c,
        },
{
    let mut out: Vec<Author> = Vec::new();
    let mut k: usize = 0;
    while k < t.rows.len()
        invariant
            t.wf(),
            k <= t.rows@.len(),
            decode_rows(author_dec(), t.names@, t.rows@.take(k as int)) matches Ok(s)
                && author_views(out@) == s,
        decreases t.rows@.len() - k,
    {
        let row = &t.rows[k];
        proof {
            assert(t.rows@.take(k + 1).drop_last() =~= t.rows@.take(k as int));
            assert(t.rows@.take(k + 1).last() == t.rows@[k as int]);
        }
        match map_to_author(&t.names, row) {
            Ok(v) => {
                let ghost prev = out@;
                out.push(v);
                proof {
                    assert(author_views(out@) =~= author_views(prev).push(v@));
                }
            },
            Err(e) => {
                proof {
                    let c = decode_author_row(t.names@, t.rows@[k as int]@)->Err_0;
                    lemma_decode_rows_err(author_dec(), t.names@, t.rows@, k as int, c);
                }
                return Err(e);
            },
        }
        k = k + 1;
    }
    proof {
        assert(t.rows@.take(t.rows@.len() as int) =~= t.rows@);
    }
    Ok(out)
}

/// Decodes every row of a series result set, in row order.
pub fn decode_series(t: &Table) -> (r: Result<Vec<Serie>, ApiError>)
    requires
        t.wf(),
    ensures
        match decode_rows(serie_dec(), t.names@, t.rows@) {
            Ok(s) => r matches Ok(v) && serie_views(v@) == s,
            Err(c) => r matches Err(e) && e matches ApiError::Decode(n) && n@ == c,
        },
{
    let mut out: Vec<Serie> = Vec::new();
    let mut k: usize = 0;
    while k < t.rows.len()
        invariant
            t.wf(),
            k <= t.rows@.len(),
            decode_rows(serie_dec(), t.names@, t.rows@.take(k as int)) matches Ok(s)
                && serie_views(out@) == s,
        decreases t.rows@.len() - k,
    {
        let row = &t.rows[k];
        proof {
            assert(t.rows@.take(k + 1).drop_last() =~= t.rows@.take(k as int));
            assert(t.rows@.take(k + 1).last() == t.rows@[k as int]);
        }
        match map_to_serie(&t.names, row) {
            Ok(v) => {
                let ghost prev = out@;
                out.push(v);
                proof {
                    assert(serie_views(out@) =~= serie_views(prev).push(v@));
                }
            },
            Err(e) => {
                proof {
                    let c = decode_serie_row(t.names@, t.rows@[k as int]@)->Err_0;
                    lemma_decode_rows_err(serie_dec(), t.names@, t.rows@, k as int, c);
                }
                return Err(e);
            },
        }
        k = k + 1;
    }
    proof {
        assert(t.rows@.take(t.rows@.len() as int) =~= t.rows@);
    }
    Ok(out)
}

/// Decodes every row of a book result set, in row order.
pub fn decode_books(t: &Table) -> (r: Result<Vec<Book>, ApiError>)
    requires
        t.wf(),
    ensures
        match decode_rows(book_dec(), t.names@, t.rows@) {
            Ok(s) => r matches Ok(v) && book_views(v@) == s,
            Err(c) => r matches Err(e) && e matches ApiError::Decode(n) && n@ == c,
        },
{
    let mut out: Vec<Book> = Vec::new();
    let mut k: usize = 0;
    while k < t.rows.len()
        invariant
            t.wf(),
            k <= t.rows@.len(),
            decode_rows(book_dec(), t.names@, t.rows@.take(k as int)) matches Ok(s)
                && book_views(out@) == s,
        decreases t.rows@.len() - k,
    {
        let row = &t.rows[k];
        proof {
            assert(t.rows@.take(k + 1).drop_last() =~= t.rows@.take(k as int));
            assert(t.rows@.take(k + 1).last() == t.rows@[k as int]);
        }
        match map_to_book(&t.names, row) {
            Ok(v) => {
                let ghost prev = out@;
                out.push(v);
                proof {
                    assert(book_views(out@) =~= book_views(prev).push(v@));
                }
            },
            Err(e) => {
                proof {
                    let c = decode_book_row(t.names@, t.rows@[k as int]@)->Err_0;
                    lemma_decode_rows_err(book_dec(), t.names@, t.rows@, k as int, c);
                }
                return Err(e);
            },
        }
        k = k + 1;
    }
    proof {
        assert(t.rows@.take(t.rows@.len() as int) =~= t.rows@);
    }
    Ok(out)
}


/// `v` is exactly the decoding of the well-formed result set `t` as
/// authors.
pub open spec fn authors_from_table(t: Table, v: Seq<Author>) -> bool {
    t.wf() && decode_rows(author_dec(), t.names@, t.rows@) == Result::<
        Seq<AuthorView>,
        Seq<char>,
    >::Ok(author_views(v))
}

/// `v` is exactly the decoding of the well-formed result set `t` as
/// books.
pub open spec fn books_from_table(t: Table, v: Seq<Book>) -> bool {
    t.wf() && decode_rows(book_dec(), t.names@, t.rows@) == Result::<
        Seq<BookView>,
        Seq<char>,
    >::Ok(book_views(v))
}

} // verus!
