use scaffold::item::{Function, Item};
use scaffold::locate::{find_function, first_module_declaration};
use scaffold::merge::{declares_module, merge_module, module_declaration};
use scaffold::serialize::serialize;

fn module(name: &str) -> Item {
    Item::ModuleDeclaration { name: name.to_string(), text: format!("pub mod {};", name) }
}

fn other(text: &str) -> Item {
    Item::Other { text: text.to_string() }
}

fn function(name: &str) -> Item {
    Item::Function(Function {
        name: name.to_string(),
        header: format!("fn {}()", name),
        signature: Vec::new(),
        body: Vec::new(),
        text: format!("fn {}() {{}}", name),
    })
}

#[test]
fn declaration_text() {
    assert_eq!(module_declaration("orders"), module("orders"));
}

#[test]
fn first_module_declaration_is_found() {
    let items = vec![other("use a::b;"), module("users"), function("f"), module("carts")];
    assert_eq!(first_module_declaration(&items), Some(1));
    assert_eq!(first_module_declaration(&vec![other("use a::b;"), function("f")]), None);
    assert_eq!(first_module_declaration(&Vec::new()), None);
}

#[test]
fn first_function_of_a_name_wins() {
    let items = vec![function("other"), function("configure"), module("m"), function("configure")];
    assert_eq!(find_function(&items, "configure"), Some(1));
    assert_eq!(find_function(&items, "other"), Some(0));
    assert_eq!(find_function(&items, "missing"), None);
    assert_eq!(find_function(&vec![module("configure")], "configure"), None);
}

#[test]
fn merge_into_empty_file_appends() {
    assert_eq!(merge_module(Vec::new(), "orders"), vec![module("orders")]);
}

#[test]
fn merge_without_module_declaration_appends() {
    assert_eq!(
        merge_module(vec![other("use a::b;"), function("f")], "orders"),
        vec![other("use a::b;"), function("f"), module("orders")]
    );
}

#[test]
fn merge_goes_before_first_module_declaration() {
    assert_eq!(
        merge_module(vec![other("use a::b;"), module("users"), module("carts")], "orders"),
        vec![other("use a::b;"), module("orders"), module("users"), module("carts")]
    );
}

#[test]
fn merge_of_declared_module_changes_nothing() {
    let items = vec![module("users"), function("f"), module("orders")];
    assert!(declares_module(&items, "orders"));
    assert!(!declares_module(&items, "order"));
    assert_eq!(
        merge_module(items, "orders"),
        vec![module("users"), function("f"), module("orders")]
    );
}

#[test]
fn merge_twice_equals_merge_once() {
    let once = merge_module(vec![other("use a::b;"), module("users")], "orders");
    let text_once = serialize(&once);
    let twice = merge_module(once, "orders");
    assert_eq!(
        twice,
        vec![other("use a::b;"), module("orders"), module("users")]
    );
    assert_eq!(serialize(&twice), text_once);
    assert_eq!(text_once.matches("pub mod orders;").count(), 1);
}

#[test]
fn private_declaration_counts_as_declared() {
    let items = vec![Item::ModuleDeclaration {
        name: "orders".to_string(),
        text: "mod orders;".to_string(),
    }];
    assert_eq!(merge_module(items, "orders").len(), 1);
}

#[test]
fn serialization_keeps_order_and_text() {
    let items = vec![other("use  a::b ;"), module("users"), function("f")];
    assert_eq!(serialize(&items), "use  a::b ;\npub mod users;\nfn f() {}");
    assert_eq!(serialize(&Vec::new()), "");
    assert_eq!(serialize(&vec![other("x")]), "x");
}
