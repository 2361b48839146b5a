use opds_catalog::author::Author;
use opds_catalog::book::{format_size, Book};
use opds_catalog::serie::Serie;
use opds_catalog::value::Value;

fn abc_author() -> Author {
    Author {
        first_name: Value::new(1, "A"),
        middle_name: Value::new(2, "B"),
        last_name: Value::new(3, "C"),
    }
}

#[test]
fn author_fmt() {
    assert_eq!("A B C", abc_author().render());
    assert_eq!(
        "A C",
        Author {
            first_name: Value::new(1, "A"),
            middle_name: Value::new(2, ""),
            last_name: Value::new(3, "C"),
        }
        .render()
    );
    assert_eq!(
        "C",
        Author {
            first_name: Value::new(1, ""),
            middle_name: Value::new(2, ""),
            last_name: Value::new(3, "C"),
        }
        .render()
    );
    assert_eq!(
        "",
        Author {
            first_name: Value::new(1, ""),
            middle_name: Value::new(2, ""),
            last_name: Value::new(3, ""),
        }
        .render()
    );
}

#[test]
fn author_fmt_trims_components() {
    assert_eq!(
        "A B C",
        Author {
            first_name: Value::new(1, "  A "),
            middle_name: Value::new(2, "\tB"),
            last_name: Value::new(3, "C  "),
        }
        .render()
    );
    assert_eq!(
        "C",
        Author {
            first_name: Value::new(1, "   "),
            middle_name: Value::new(2, " "),
            last_name: Value::new(3, " C "),
        }
        .render()
    );
}

#[test]
fn size() {
    assert_eq!(format_size(156), String::from("156 B"));
    assert_eq!(format_size(2450), String::from("2.39 KB"));
    assert_eq!(format_size(4050000), String::from("3.86 MB"));
}

#[test]
fn size_matches_standard_rounding() {
    // The two-decimal rendering must round exactly as the standard
    // formatter does on the exact dyadic value, ties to even included.
    let samples: Vec<u32> = vec![
        1024, 1025, 1151, 1152, 1153, 1408, 2450, 65536, 123456, 999999, 1048576, 1048577, 1572864,
        4050000, 5242880, 104857600, 4294967295,
    ];
    for size in samples {
        let expected = if size >= 1048576 {
            format!("{:.2} MB", size as f64 / 1048576.0)
        } else if size >= 1024 {
            format!("{:.2} KB", size as f64 / 1024.0)
        } else {
            format!("{} B", size)
        };
        assert_eq!(expected, format_size(size), "size {}", size);
    }
}

#[test]
fn book_fmt() {
    assert_eq!(
        "1 T - F M L (2024-10-10) [42 B]",
        Book::new(
            1,
            "T",
            Some(42),
            Some(1),
            Author {
                first_name: Value::new(1, "F"),
                middle_name: Value::new(2, "M"),
                last_name: Value::new(3, "L"),
            },
            42,
            "2024-10-10"
        )
        .render()
    );
}

#[test]
fn book_fmt_without_index_or_author() {
    let nobody = Author {
        first_name: Value::new(1, ""),
        middle_name: Value::new(2, ""),
        last_name: Value::new(3, ""),
    };
    assert_eq!(
        "T (2024-10-10) [42 B]",
        Book::new(1, "T", None, None, nobody, 42, "2024-10-10").render()
    );
}

#[test]
fn serie_fmt() {
    assert_eq!("A [A B C] (42)", Serie::new(1, "A", 42, abc_author()).render());
}

#[test]
fn value_fmt() {
    assert_eq!("A", Value::new(1, "A").render());
}

#[test]
fn entity_equality_is_structural() {
    assert_eq!(Value::new(1, "A"), Value::new(1, "A"));
    assert_ne!(Value::new(1, "A"), Value::new(2, "A"));
    assert_ne!(Value::new(1, "A"), Value::new(1, "B"));
    let a = abc_author();
    assert_eq!(a, a.clone());
    let b = Book::new(1, "T", Some(42), Some(1), abc_author(), 42, "2024-10-10");
    assert_eq!(b, b.clone());
    let s = Serie::new(1, "A", 42, abc_author());
    assert_eq!(s, s.clone());
}
