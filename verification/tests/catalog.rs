use opds_catalog::collation::{collation, Rank};
use opds_catalog::db::{Field, Table};
use opds_catalog::error::ApiError;
use opds_catalog::queries::{
    catalog_self_check, decode_books, find_column, map_to_author, map_to_string, map_to_value,
    Mapper, Query,
};

#[test]
fn catalog_is_complete() {
    assert!(catalog_self_check());
    let ids = Query::values();
    assert_eq!(18, ids.len());
    for q in &ids {
        assert!(q.get().is_ok());
    }
}

#[test]
fn catalog_mapper_kinds() {
    assert!(matches!(Query::AuthorNextCharByPrefix.mapper(), Mapper::Text));
    assert!(matches!(Query::AuthorsByLastName.mapper(), Mapper::Author));
    assert!(matches!(Query::SeriesByIds.mapper(), Mapper::Serie));
    assert!(matches!(Query::BookById.mapper(), Mapper::Book));
    assert!(matches!(Query::GenresByMeta.mapper(), Mapper::Labeled));
}

#[test]
fn collation_orders_case_insensitively() {
    assert!(matches!(collation("a", "B"), Rank::Less));
    assert!(matches!(collation("B", "a"), Rank::Greater));
    // Case variants are adjacent: only the tiebreak separates them, with
    // uppercase first.
    assert!(matches!(collation("ABC", "abc"), Rank::Less));
    assert!(matches!(collation("abc", "ABC"), Rank::Greater));
    assert!(matches!(collation("abc", "abc"), Rank::Equal));
    // A proper prefix sorts first.
    assert!(matches!(collation("ab", "abc"), Rank::Less));
    // Cyrillic letters fold by case too.
    assert!(matches!(collation("Стое", "сТоУ"), Rank::Less));
    assert!(matches!(collation("Warhammer ", "warhammer "), Rank::Less));
}

fn author_table_names() -> Vec<String> {
    ["fid", "fname", "mid", "mname", "lid", "lname"]
        .iter()
        .map(|s| s.to_string())
        .collect()
}

#[test]
fn find_column_is_by_name() {
    let names = author_table_names();
    assert_eq!(Some(2), find_column(&names, "mid"));
    assert_eq!(Some(0), find_column(&names, "fid"));
    assert_eq!(None, find_column(&names, "absent"));
}

#[test]
fn map_to_author_reads_six_columns() {
    let names = author_table_names();
    let row = vec![
        Field::Int(1),
        Field::Text(String::from("F")),
        Field::Int(2),
        Field::Text(String::from("M")),
        Field::Int(3),
        Field::Text(String::from("L")),
    ];
    let author = map_to_author(&names, &row).unwrap();
    assert_eq!(1, author.first_name.id);
    assert_eq!("F", author.first_name.value);
    assert_eq!(2, author.middle_name.id);
    assert_eq!("M", author.middle_name.value);
    assert_eq!(3, author.last_name.id);
    assert_eq!("L", author.last_name.value);
}

#[test]
fn map_to_author_reports_missing_column() {
    let names: Vec<String> = ["fid", "fname", "mid", "mname", "lid"]
        .iter()
        .map(|s| s.to_string())
        .collect();
    let row = vec![
        Field::Int(1),
        Field::Text(String::from("F")),
        Field::Int(2),
        Field::Text(String::from("M")),
        Field::Int(3),
    ];
    match map_to_author(&names, &row).unwrap_err() {
        ApiError::Decode(column) => assert_eq!("lname", column),
        _ => panic!("expected a decode error"),
    }
}

#[test]
fn map_to_value_rejects_wrong_shape() {
    let names: Vec<String> = ["id", "value"].iter().map(|s| s.to_string()).collect();
    let good = vec![Field::Int(47), Field::Text(String::from("G"))];
    let v = map_to_value(&names, &good).unwrap();
    assert_eq!(47, v.id);
    assert_eq!("G", v.value);

    let bad_type = vec![Field::Text(String::from("47")), Field::Text(String::from("G"))];
    match map_to_value(&names, &bad_type).unwrap_err() {
        ApiError::Decode(column) => assert_eq!("id", column),
        _ => panic!("expected a decode error"),
    }

    let out_of_range = vec![Field::Int(-1), Field::Text(String::from("G"))];
    assert!(map_to_value(&names, &out_of_range).is_err());
}

#[test]
fn map_to_string_reads_value_column() {
    let names: Vec<String> = ["value"].iter().map(|s| s.to_string()).collect();
    let row = vec![Field::Text(String::from("hello"))];
    assert_eq!("hello", map_to_string(&names, &row).unwrap());
    let null_row = vec![Field::Null];
    assert!(map_to_string(&names, &null_row).is_err());
}

#[test]
fn decode_books_decodes_optional_series() {
    let names: Vec<String> = [
        "id", "name", "sid", "idx", "fid", "fname", "mid", "mname", "lid", "lname", "size",
        "added",
    ]
    .iter()
    .map(|s| s.to_string())
    .collect();
    let in_serie = vec![
        Field::Int(7),
        Field::Text(String::from("T")),
        Field::Int(30),
        Field::Int(2),
        Field::Int(1),
        Field::Text(String::from("F")),
        Field::Int(2),
        Field::Text(String::from("M")),
        Field::Int(3),
        Field::Text(String::from("L")),
        Field::Int(42),
        Field::Text(String::from("2024-10-10")),
    ];
    let free = vec![
        Field::Int(8),
        Field::Text(String::from("T")),
        Field::Null,
        Field::Null,
        Field::Int(1),
        Field::Text(String::from("F")),
        Field::Int(2),
        Field::Text(String::from("M")),
        Field::Int(3),
        Field::Text(String::from("L")),
        Field::Int(42),
        Field::Text(String::from("2024-10-10")),
    ];
    let t = Table { names, rows: vec![in_serie, free] };
    let books = decode_books(&t).unwrap();
    assert_eq!(2, books.len());
    assert_eq!(Some(30), books[0].sid);
    assert_eq!(Some(2), books[0].idx);
    assert_eq!("2 T - F M L (2024-10-10) [42 B]", books[0].render());
    assert_eq!(None, books[1].sid);
    assert_eq!(None, books[1].idx);
}
