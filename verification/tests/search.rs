use opds_catalog::error::ApiError;
use opds_catalog::search::search_by_mask;

fn fetcher(mask: &String) -> Result<Vec<String>, ApiError> {
    let out = match mask.as_str() {
        "A" => vec!["A", "Ab", "Ac"],
        "B" => vec!["B", "BB"],
        "BB" => vec!["BBB"],
        "BBB" => vec!["BBBB"],
        "BBBB" => vec!["BBBB"],
        "C" => vec!["CC", "cc"],
        "CC" => vec!["CCC", "ccc"],
        "CCC" => vec!["CCC", "ccc"],
        "ccc" => vec!["ccc"],
        _ => vec![],
    };
    if out.is_empty() {
        Err(ApiError::Fetcher(format!("Unexpected mask '{mask}'")))
    } else {
        Ok(out.into_iter().map(String::from).collect())
    }
}

#[test]
fn search_by_mask_a() {
    let (exact, tail) = search_by_mask("A", fetcher).unwrap();
    assert_eq!(vec!["A"], exact.iter().map(|a| a.as_str()).collect::<Vec<_>>());
    assert_eq!(vec!["Ab", "Ac"], tail.iter().map(|a| a.as_str()).collect::<Vec<_>>());
}

#[test]
fn search_by_mask_b() {
    let empty: Vec<&str> = Vec::new();
    let (exact, tail) = search_by_mask("B", fetcher).unwrap();
    assert_eq!(vec!["B", "BBBB"], exact.iter().map(|a| a.as_str()).collect::<Vec<_>>());
    assert_eq!(empty, tail.iter().map(|a| a.as_str()).collect::<Vec<_>>());
}

#[test]
fn search_by_mask_c() {
    let empty: Vec<&str> = Vec::new();
    let (exact, tail) = search_by_mask("C", fetcher).unwrap();
    assert_eq!(vec!["CCC", "ccc"], exact.iter().map(|a| a.as_str()).collect::<Vec<_>>());
    assert_eq!(empty, tail.iter().map(|a| a.as_str()).collect::<Vec<_>>());
}

#[test]
fn search_by_mask_plain_fork_stops() {
    fn fork_fetcher(mask: &String) -> Result<Vec<String>, ApiError> {
        match mask.as_str() {
            "D" => Ok(vec![String::from("Da"), String::from("Db")]),
            other => Err(ApiError::Fetcher(format!("Unexpected mask '{other}'"))),
        }
    }
    let (exact, tail) = search_by_mask("D", fork_fetcher).unwrap();
    let none: Vec<&str> = Vec::new();
    assert_eq!(none, exact.iter().map(|a| a.as_str()).collect::<Vec<_>>());
    assert_eq!(vec!["Da", "Db"], tail.iter().map(|a| a.as_str()).collect::<Vec<_>>());
}

#[test]
fn search_by_mask_no_matches() {
    fn empty_fetcher(_: &String) -> Result<Vec<String>, ApiError> {
        Ok(Vec::new())
    }
    let (exact, tail) = search_by_mask("Zzz", empty_fetcher).unwrap();
    assert!(exact.is_empty());
    assert!(tail.is_empty());
}

#[test]
fn search_by_mask_propagates_fetcher_error() {
    let err = search_by_mask("X", fetcher).unwrap_err();
    match err {
        ApiError::Fetcher(msg) => assert_eq!("Unexpected mask 'X'", msg),
        _ => panic!("expected a fetcher error"),
    }
}

#[test]
fn search_by_mask_step_count_is_bounded() {
    // The longest stored string here has four characters and the seed has
    // one, so the walk may fetch at most four times.
    let calls = std::cell::Cell::new(0u32);
    let counting = |mask: &String| -> Result<Vec<String>, ApiError> {
        calls.set(calls.get() + 1);
        fetcher(mask)
    };
    let (exact, tail) = search_by_mask("B", counting).unwrap();
    assert_eq!(vec!["B", "BBBB"], exact);
    assert!(tail.is_empty());
    assert!(calls.get() <= 4);
    assert_eq!(4, calls.get());
}
