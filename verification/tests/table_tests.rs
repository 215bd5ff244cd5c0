use scaffold::code_table::{file_number, key_order, number_rows, Code, CodeEntry};
use scaffold::driver::declare_module;
use scaffold::enum_table::{
    parse_request, parse_row, request_in_line, requests_in_file, EnumRequest, EnumRequestError,
    EnumRow,
};

fn entry(key: &str, message: Option<&str>, code: Option<i64>) -> CodeEntry {
    CodeEntry { key: key.to_string(), message: message.map(|m| m.to_string()), code }
}

fn code(name: &str, code: i64, message: &str) -> Code {
    Code { name: name.to_string(), code, message: message.to_string() }
}

fn row(name: &str, code: i32, message: &str) -> EnumRow {
    EnumRow { name: name.to_string(), code, message: message.to_string() }
}

#[test]
fn file_number_is_the_first_run_of_digits() {
    assert_eq!(file_number("100_user.yaml"), Some(100));
    assert_eq!(file_number("a12b34.yaml"), Some(12));
    assert_eq!(file_number("errors.yaml"), None);
    assert_eq!(file_number("99999999999999999999.yaml"), None);
}

#[test]
fn keys_come_in_listing_order() {
    let listing = "zeta:\n  code: 7\n  message: late\nalpha:\n# note\n9lives:\nBeta : \n";
    assert_eq!(key_order(listing), vec!["zeta", "alpha", "Beta "]);
    assert_eq!(key_order(""), Vec::<String>::new());
}

#[test]
fn rows_are_numbered_from_the_start() {
    let entries = vec![
        entry("auth", None, None),
        entry("user", Some("no such user"), Some(200)),
        entry("order", None, None),
    ];
    assert_eq!(
        number_rows(100, &entries),
        Some(vec![
            code("AUTH", 100, "auth错误"),
            code("USER", 200, "no such user"),
            code("ORDER", 201, "order错误"),
        ])
    );
}

#[test]
fn numbering_of_no_entries() {
    assert_eq!(number_rows(5, &Vec::new()), Some(Vec::new()));
}

#[test]
fn numbering_stops_where_codes_run_out() {
    assert_eq!(number_rows(i64::MAX, &vec![entry("a", None, None)]), None);
    assert_eq!(number_rows(0, &vec![entry("a", None, Some(i64::MAX))]), None);
    assert_eq!(
        number_rows(i64::MAX - 1, &vec![entry("a", None, None)]),
        Some(vec![code("A", i64::MAX - 1, "a错误")])
    );
    assert_eq!(
        number_rows(i64::MAX - 1, &vec![entry("a", None, None), entry("b", None, None)]),
        None
    );
}

#[test]
fn request_with_two_rows() {
    assert_eq!(
        parse_request("-e=order_flow -f=发起订单:selling_assistant-1-销售内勤,sale-2-销售"),
        Ok(EnumRequest {
            module: "order_flow".to_string(),
            doc: "发起订单".to_string(),
            rows: vec![row("SELLING_ASSISTANT", 1, "销售内勤"), row("SALE", 2, "销售")],
        })
    );
}

#[test]
fn request_is_cleaned_first() {
    assert_eq!(
        parse_request("  -e=flow \\\n -f= Title :a- 1 - first \r\n"),
        Ok(EnumRequest {
            module: "flow".to_string(),
            doc: "Title".to_string(),
            rows: vec![row("A", 1, "first")],
        })
    );
}

#[test]
fn request_errors() {
    assert_eq!(parse_request("order_flow"), Err(EnumRequestError::Pattern));
    assert_eq!(parse_request("-e=1 -f=t:a-1-b"), Err(EnumRequestError::Pattern));
    assert_eq!(parse_request("-e=a -f=t:b-1-c -f=u"), Err(EnumRequestError::Name));
    assert_eq!(parse_request("-e=a -f=title"), Err(EnumRequestError::Rows));
    assert_eq!(parse_request("-e=a -f=t:b-1"), Err(EnumRequestError::Row));
    assert_eq!(parse_request("-e=a -f=t:b-x-c"), Err(EnumRequestError::Code));
    assert_eq!(parse_request("-e=a -f=t:b-1-c,d-e-f,g"), Err(EnumRequestError::Code));
    assert_eq!(parse_request("-e=a -f=t:b-1-c,g,d-e-f"), Err(EnumRequestError::Row));
}

#[test]
fn single_rows() {
    assert_eq!(parse_row(" draft - 3 - Not sent "), Ok(row("DRAFT", 3, "Not sent")));
    assert_eq!(parse_row("a-1-b-c"), Ok(row("A", 1, "b")));
    assert_eq!(parse_row("a-1"), Err(EnumRequestError::Row));
    assert_eq!(parse_row("a-99999999999-b"), Err(EnumRequestError::Code));
    assert_eq!(parse_row("a--1-b"), Err(EnumRequestError::Code));
}

#[test]
fn request_in_a_line() {
    assert_eq!(
        request_in_line("cargo run gen enum --out=\"./enums\" --name=\"-e=flow -f=T:a-1-b\""),
        Some("-e=flow -f=T:a-1-b".to_string())
    );
    assert_eq!(request_in_line("cargo run gen code --out=\"./errcode/mod.rs\""), None);
}

#[test]
fn requests_in_a_file() {
    let content = "# Enums\n--name=\"-e=a -f=T:x-1-y\"\nplain line\n  --name=\"-e=b -f=U:z-2-w\"  \n";
    assert_eq!(requests_in_file(content), vec!["-e=a -f=T:x-1-y", "-e=b -f=U:z-2-w"]);
    assert_eq!(requests_in_file(""), Vec::<String>::new());
}

#[test]
fn module_declaration_in_text() {
    assert_eq!(declare_module("", "order_flow").expect("parses"), "pub mod order_flow;");
    assert_eq!(
        declare_module("pub mod a;\nfn configure(c: C) { c }", "b").expect("parses"),
        "pub mod b;\npub mod a;\nfn configure(c: C) { c }"
    );
    let once = declare_module("use x::y;\npub mod a;", "b").expect("parses");
    assert_eq!(declare_module(&once, "b").expect("parses"), once);
    assert!(declare_module("pub mod", "b").is_err());
}
