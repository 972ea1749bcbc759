use inkanim::{parse_path_indexes, parse_path_names, PathParseError, SiblingOrNested};

#[test]
fn sibling_or_nested() {
    let a: Vec<usize> = vec![1, 3, 0];
    assert!(a.sibling_or_nested(&[]));
    assert!(a.sibling_or_nested(&[1, 3, 0]));
    assert!(a.sibling_or_nested(&[1, 3]));
    assert!(!a.sibling_or_nested(&[1, 3, 0, 0]));
    assert!(!a.sibling_or_nested(&[1, 4]));
    assert!(!a.sibling_or_nested(&[2]));
    let empty: Vec<usize> = vec![];
    assert!(empty.sibling_or_nested(&[]));
    assert!(!empty.sibling_or_nested(&[0]));
}

#[test]
fn index_paths_parse() {
    assert_eq!(parse_path_indexes("1.3.0.0.16"), Ok(vec![1, 3, 0, 0, 16]));
    assert_eq!(parse_path_indexes(" 2 \u{2502} 5 "), Ok(vec![2, 5]));
    assert_eq!(parse_path_indexes("7"), Ok(vec![7]));
    assert_eq!(parse_path_indexes("+7"), Ok(vec![7]));
}

#[test]
fn index_paths_reject_other_text() {
    assert_eq!(parse_path_indexes("1.x"), Err(PathParseError::NotAnIndex(1)));
    assert_eq!(parse_path_indexes("1..2"), Err(PathParseError::NotAnIndex(1)));
    assert_eq!(parse_path_indexes("-1"), Err(PathParseError::NotAnIndex(0)));
    assert_eq!(
        parse_path_indexes("99999999999999999999999"),
        Err(PathParseError::NotAnIndex(0))
    );
}

#[test]
fn name_paths_parse() {
    assert_eq!(
        parse_path_names("main_canvas. Arrival .Arrival_GPS_Canvas"),
        vec![
            "main_canvas".to_string(),
            "Arrival".to_string(),
            "Arrival_GPS_Canvas".to_string()
        ]
    );
    assert_eq!(parse_path_names("  solo\t"), vec!["solo".to_string()]);
}
