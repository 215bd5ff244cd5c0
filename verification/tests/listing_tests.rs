use scaffold::code_table::{Code, CodeEntry};
use scaffold::listing::{code_entries, code_rows, CodeTableError};

fn code(name: &str, code: i64, message: &str) -> Code {
    Code { name: name.to_string(), code, message: message.to_string() }
}

#[test]
fn entries_of_a_listing() {
    let yaml = "auth:\n  message: no auth\n  code: 7\nuser:\n  code: 200\norder:\n";
    assert_eq!(
        code_entries(yaml),
        Ok(vec![
            CodeEntry { key: "auth".to_string(), message: Some("no auth".to_string()), code: Some(7) },
            CodeEntry { key: "user".to_string(), message: None, code: Some(200) },
            CodeEntry { key: "order".to_string(), message: None, code: None },
        ])
    );
}

#[test]
fn entries_follow_the_listing_not_the_alphabet() {
    let yaml = "zeta:\n  code: 1\nalpha:\n  code: 2\n";
    let keys: Vec<String> =
        code_entries(yaml).expect("the listing reads").into_iter().map(|e| e.key).collect();
    assert_eq!(keys, vec!["zeta", "alpha"]);
}

#[test]
fn table_of_a_file() {
    let yaml = "auth:\n  message: no auth\nuser:\n  code: 200\norder:\n  note: x\n";
    assert_eq!(
        code_rows("100_user.yaml", yaml),
        Ok(vec![
            code("AUTH", 100, "no auth"),
            code("USER", 200, "user错误"),
            code("ORDER", 201, "order错误"),
        ])
    );
}

#[test]
fn code_that_is_no_number_counts_as_not_given() {
    assert_eq!(
        code_rows("5.yaml", "a:\n  code: high\nb:\n  code: 1.5\n"),
        Ok(vec![code("A", 5, "a错误"), code("B", 6, "b错误")])
    );
}

#[test]
fn file_without_number_gives_no_table() {
    assert_eq!(code_rows("user.yaml", "a:\n  code: 1\n"), Err(CodeTableError::Number));
}

#[test]
fn listing_that_is_no_map_gives_no_table() {
    assert_eq!(code_rows("1.yaml", "- a\n- b\n"), Err(CodeTableError::Listing));
    assert_eq!(code_entries("a: [1, 2"), Err(CodeTableError::Listing));
}

#[test]
fn message_that_is_no_string_gives_no_table() {
    assert_eq!(code_rows("1.yaml", "a:\n  message: 5\n"), Err(CodeTableError::Message));
    assert_eq!(
        code_entries("a:\n  message: fine\nb:\n  message: [x]\nc:\n  code: 1\n"),
        Err(CodeTableError::Message)
    );
}

#[test]
fn codes_that_run_out_give_no_table() {
    assert_eq!(
        code_rows("1.yaml", "a:\n  code: 9223372036854775807\n"),
        Err(CodeTableError::Codes)
    );
}
