use opds_catalog::collation::{collation, Rank};
use opds_catalog::error::ApiError;
use opds_catalog::OpdsApi;

fn catalog_in_memory() -> rusqlite::Connection {
    let conn = rusqlite::Connection::open_in_memory().unwrap();
    conn.create_collation("opds", |a, b| match collation(a, b) {
        Rank::Less => std::cmp::Ordering::Less,
        Rank::Equal => std::cmp::Ordering::Equal,
        Rank::Greater => std::cmp::Ordering::Greater,
    })
    .unwrap();
    rusqlite::vtab::array::load_module(&conn).unwrap();
    conn.execute_batch(
        "CREATE TABLE first_names(id INTEGER, value TEXT);
         CREATE TABLE middle_names(id INTEGER, value TEXT);
         CREATE TABLE last_names(id INTEGER, value TEXT COLLATE NOCASE);
         CREATE TABLE authors_map(book_id INTEGER, first_name_id INTEGER,
                                  middle_name_id INTEGER, last_name_id INTEGER);
         CREATE TABLE titles(id INTEGER, value TEXT);
         CREATE TABLE dates(id INTEGER, value TEXT);
         CREATE TABLE books(book_id INTEGER, title_id INTEGER, date_id INTEGER,
                            book_size INTEGER);
         CREATE TABLE series(id INTEGER, value TEXT);
         CREATE TABLE series_map(book_id INTEGER, serie_id INTEGER, serie_num INTEGER);
         CREATE TABLE genres(id INTEGER, value TEXT);
         CREATE TABLE genres_def(code TEXT, meta TEXT, genre TEXT);
         CREATE TABLE genres_map(book_id INTEGER, genre_id INTEGER);
         INSERT INTO first_names VALUES (1, 'F');
         INSERT INTO middle_names VALUES (2, 'M');
         INSERT INTO last_names VALUES (3, 'Smith');
         INSERT INTO authors_map VALUES (100, 1, 2, 3);
         INSERT INTO titles VALUES (10, 'Title');
         INSERT INTO dates VALUES (20, '2024-06-01');
         INSERT INTO books VALUES (100, 10, 20, 156);
         INSERT INTO series VALUES (30, 'Saga');
         INSERT INTO series_map VALUES (100, 30, 1);
         INSERT INTO genres VALUES (24, 'sf');
         INSERT INTO genres_def VALUES ('sf', 'Fiction', 'Sci-Fi');
         INSERT INTO genres_map VALUES (100, 24);",
    )
    .unwrap();
    conn
}

#[test]
fn open_registers_and_reports_writable() {
    let api = OpdsApi::try_open(":memory:").unwrap();
    assert!(!api.is_readonly().unwrap());
}

#[test]
fn authors_by_last_name_folds_case() {
    let api = OpdsApi::new(catalog_in_memory());
    let authors = api.authors_by_last_name(&String::from("Smith")).unwrap();
    assert_eq!(1, authors.len());
    assert_eq!("F M Smith", authors[0].render());
}

#[test]
fn authors_by_genre_and_book_ids() {
    let api = OpdsApi::new(catalog_in_memory());
    let by_genre = api.authors_by_genre_id(24).unwrap();
    assert_eq!(1, by_genre.len());
    assert_eq!("F M Smith", by_genre[0].render());
    let by_books = api.authors_by_books_ids(vec![100, 101]).unwrap();
    assert_eq!(1, by_books.len());
    assert_eq!("F M Smith", by_books[0].render());
    let by_author = api.author_by_ids(1, 2, 3).unwrap().unwrap();
    assert_eq!("F M Smith", by_author.render());
}

#[test]
fn books_come_back_typed_and_rendered() {
    let api = OpdsApi::new(catalog_in_memory());
    let book = api.book_by_id(100).unwrap().unwrap();
    assert_eq!(100, book.id);
    assert_eq!(Some(30), book.sid);
    assert_eq!(Some(1), book.idx);
    assert_eq!("1 Title - F M Smith (2024-06-01) [156 B]", book.render());
    assert!(api.book_by_id(999).unwrap().is_none());

    let by_author = api.books_by_author_ids(1, 2, 3).unwrap();
    assert_eq!(1, by_author.len());
    let in_serie = api.books_by_author_ids_and_serie_id(1, 2, 3, 30).unwrap();
    assert_eq!(1, in_serie.len());
    let wrong_serie = api.books_by_author_ids_and_serie_id(1, 2, 3, 31).unwrap();
    assert!(wrong_serie.is_empty());
    let free = api.books_by_author_ids_without_serie(1, 2, 3).unwrap();
    assert!(free.is_empty());
    let by_serie = api.books_by_serie_id(30).unwrap();
    assert_eq!(1, by_serie.len());
    let by_date = api.books_by_genre_id_and_date(24, String::from("2024-06-0%")).unwrap();
    assert_eq!(1, by_date.len());
    let by_title = api.books_by_book_title(&String::from("Title")).unwrap();
    assert_eq!(1, by_title.len());
}

#[test]
fn series_queries_aggregate() {
    let api = OpdsApi::new(catalog_in_memory());
    let by_ids = api.series_by_ids(vec![30]).unwrap();
    assert_eq!(1, by_ids.len());
    assert_eq!("Saga [F M Smith] (1)", by_ids[0].render());
    let by_name = api.series_by_serie_name(&String::from("Saga")).unwrap();
    assert_eq!(1, by_name.len());
    let by_genre = api.series_by_genre_id(24).unwrap();
    assert_eq!(1, by_genre.len());
    let by_author = api.series_by_author_ids(1, 2, 3).unwrap();
    assert_eq!(1, by_author.len());
}

#[test]
fn genre_taxonomy_lists() {
    let api = OpdsApi::new(catalog_in_memory());
    let metas = api.meta_genres().unwrap();
    assert_eq!(vec!["Fiction"], metas);
    let genres = api.genres_by_meta(&String::from("Fiction")).unwrap();
    assert_eq!(1, genres.len());
    assert_eq!(24, genres[0].id);
    assert_eq!("Sci-Fi", genres[0].value);
}

#[test]
fn prefix_search_without_matches_is_empty() {
    let api = OpdsApi::new(catalog_in_memory());
    let (complete, incomplete) = api.search_authors_by_prefix(&String::from("xyz")).unwrap();
    assert!(complete.is_empty());
    assert!(incomplete.is_empty());
    let (complete, incomplete) = api.search_series_by_prefix(&String::from("xyz")).unwrap();
    assert!(complete.is_empty());
    assert!(incomplete.is_empty());
    let (complete, incomplete) = api.search_books_by_prefix(&String::from("xyz")).unwrap();
    assert!(complete.is_empty());
    assert!(incomplete.is_empty());
}

#[test]
fn missing_schema_surfaces_storage_error() {
    let api = OpdsApi::try_open(":memory:").unwrap();
    match api.meta_genres().unwrap_err() {
        ApiError::Storage(_) => {},
        other => panic!("expected a storage error, got {other:?}"),
    }
}
