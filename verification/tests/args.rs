use browser_automation::args::string_to_args;

#[test]
fn test_string_to_args() {
    assert_eq!(string_to_args(""), Vec::<String>::new());
    assert_eq!(
        string_to_args("arga argb argc"),
        vec!["arga", "argb", "argc"]
    );
    assert_eq!(
        string_to_args(r#"arga "argb" argc"#),
        vec!["arga", "argb", "argc"]
    );
    assert_eq!(
        string_to_args(r#"arga "argb argc""#),
        vec!["arga", "argb argc"]
    );
    assert_eq!(
        string_to_args(r#"arga "argb \"argc""#),
        vec!["arga", "argb \"argc"]
    );
}

#[test]
fn unterminated_quote_drops_buffered_token() {
    assert_eq!(string_to_args(r#"arga "argb argc"#), vec!["arga"]);
    assert_eq!(string_to_args("\""), Vec::<String>::new());
}

#[test]
fn consecutive_separators_yield_empty_tokens() {
    assert_eq!(string_to_args("a  b"), vec!["a", "", "b"]);
    assert_eq!(string_to_args(" a"), vec!["", "a"]);
    assert_eq!(string_to_args("a "), vec!["a"]);
}

#[test]
fn backslash_escapes_the_next_character() {
    assert_eq!(string_to_args(r"a\b"), vec!["ab"]);
    assert_eq!(string_to_args(r#"\""#), vec!["\""]);
}

#[test]
fn quoted_spaces_are_kept_verbatim() {
    assert_eq!(string_to_args(r#""a  b""#), vec!["a  b"]);
    assert_eq!(string_to_args(r#"x "y z" w"#), vec!["x", "y z", "w"]);
}
