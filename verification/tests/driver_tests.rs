use scaffold::driver::{
    default_target, mutate_items, mutate_source, register_routes, Driver, FunctionStep, Stage,
};
use scaffold::enum_body::Enum;
use scaffold::item::Item;
use scaffold::syntax::parse_items;
use scaffold::serialize::serialize;

fn variants(items: &[Item]) -> Vec<u8> {
    items
        .iter()
        .map(|item| match item {
            Item::ModuleDeclaration { .. } => 0,
            Item::Function(_) => 1,
            Item::Other { .. } => 2,
        })
        .collect()
}

#[test]
fn enum_body_accessors() {
    let value = Enum::Body { code: 404, message: "not found" };
    assert_eq!(value.code(), 404);
    assert_eq!(value.message(), "not found");
    assert_eq!(Enum::Body { code: -1, message: "" }.code(), -1);
}

#[test]
fn default_target_name() {
    assert_eq!(default_target(), "configure");
}

#[test]
fn empty_file_gets_only_the_module_declaration() {
    let mutation = mutate_source("", "configure", "orders").expect("an empty file parses");
    assert_eq!(mutation.text, "pub mod orders;");
    assert_eq!(mutation.function_step, FunctionStep::Absent);
}

#[test]
fn registration_goes_before_the_tail_expression() {
    let source = "fn configure(cfg: &mut ServiceConfig) { let cfg = cfg.with_defaults(); cfg }";
    let items = parse_items(source).expect("the file parses");
    let (items, step) = mutate_items(items, "configure", "orders");
    assert_eq!(step, FunctionStep::Injected);
    assert_eq!(items.len(), 2);
    match &items[0] {
        Item::Function(function) => {
            assert_eq!(function.name, "configure");
            assert_eq!(
                function.body,
                vec![
                    "let cfg = cfg.with_defaults();".to_string(),
                    "cfg = cfg.configure(orders::routes);".to_string(),
                    "cfg".to_string(),
                ]
            );
        }
        other => panic!("expected a function, found {:?}", other),
    }
    assert_eq!(
        items[1],
        Item::ModuleDeclaration { name: "orders".to_string(), text: "pub mod orders;".to_string() }
    );
}

#[test]
fn mutated_file_still_parses() {
    let source = "pub mod users;\nuse a::b;\n#[get]\npub fn configure(cfg: &mut ServiceConfig) { let cfg = cfg.with_defaults(); cfg }\n";
    let mutation = mutate_source(source, "configure", "orders").expect("the file parses");
    assert_eq!(mutation.function_step, FunctionStep::Injected);
    let again = parse_items(&mutation.text).expect("the new text parses");
    assert_eq!(variants(&again), vec![0, 0, 2, 1]);
    match &again[3] {
        Item::Function(function) => {
            assert_eq!(function.body.len(), 3);
            assert_eq!(function.body[1], "cfg = cfg.configure(orders::routes);");
            assert_eq!(function.body[2], "cfg");
        }
        other => panic!("expected a function, found {:?}", other),
    }
    assert!(mutation.text.starts_with("pub mod orders;\npub mod users;\nuse a::b;\n"));
}

#[test]
fn unparsable_file_is_an_error() {
    assert!(mutate_source("fn configure( {", "configure", "orders").is_err());
    assert!(parse_items("pub mod ;").is_err());
    match parse_items("fn f( {") {
        Err(error) => assert!(!error.message.is_empty()),
        Ok(items) => panic!("expected an error, found {:?}", items),
    }
}

#[test]
fn function_without_parameters_is_left_alone() {
    let source = "fn configure() { run(); }";
    let mutation = mutate_source(source, "configure", "orders").expect("the file parses");
    assert_eq!(mutation.function_step, FunctionStep::NoParameters);
    assert_eq!(mutation.text, "fn configure() { run(); }\npub mod orders;");
}

#[test]
fn only_the_first_target_function_is_extended() {
    let source = "fn configure(a: A) { a }\nfn configure(b: B) { b }";
    let items = parse_items(source).expect("the file parses");
    let (items, step) = register_routes(items, "configure", "orders");
    assert_eq!(step, FunctionStep::Injected);
    match (&items[0], &items[1]) {
        (Item::Function(first), Item::Function(second)) => {
            assert_eq!(first.body, vec!["a = a.configure(orders::routes);", "a"]);
            assert_eq!(second.body, vec!["b"]);
            assert_eq!(second.text, "fn configure(b: B) { b }");
        }
        other => panic!("expected two functions, found {:?}", other),
    }
}

#[test]
fn other_target_name() {
    let source = "fn routes(app: App) { app }";
    let mutation = mutate_source(source, "routes", "orders").expect("the file parses");
    assert_eq!(mutation.function_step, FunctionStep::Injected);
    let absent = mutate_source(source, "configure", "orders").expect("the file parses");
    assert_eq!(absent.function_step, FunctionStep::Absent);
    assert_eq!(absent.text, "fn routes(app: App) { app }\npub mod orders;");
}

#[test]
fn declared_module_is_not_declared_again() {
    let source = "pub mod orders;\npub mod users;";
    let mutation = mutate_source(source, "configure", "orders").expect("the file parses");
    assert_eq!(mutation.text, "pub mod orders;\npub mod users;");
    let again = mutate_source(&mutation.text, "configure", "orders").expect("the file parses");
    assert_eq!(again.text, mutation.text);
}

#[test]
fn unmodified_file_round_trips() {
    let source = "//! docs\nuse std::fmt;\n\npub mod users;\n\n/// A thing.\npub struct Thing {\n    a:   u8,\n}\n\nfn configure(cfg: &mut ServiceConfig) {\n    cfg\n}\n\nimpl Thing {}\n";
    let items = parse_items(source).expect("the file parses");
    assert_eq!(variants(&items), vec![2, 0, 2, 1, 2]);
    let text = serialize(&items);
    let again = parse_items(&text).expect("the serialized text parses");
    assert_eq!(again.len(), items.len());
    assert_eq!(variants(&again), variants(&items));
    assert_eq!(again, items);
}

#[test]
fn untouched_items_keep_their_formatting() {
    let source = "pub struct Thing {\n    a:   u8,   // width\n}\nfn  helper( ) { }";
    let items = parse_items(source).expect("the file parses");
    assert_eq!(items[0], Item::Other { text: "pub struct Thing {\n    a:   u8,   // width\n}".to_string() });
    let mutation = mutate_source(source, "configure", "orders").expect("the file parses");
    assert_eq!(
        mutation.text,
        "pub struct Thing {\n    a:   u8,   // width\n}\nfn  helper( ) { }\npub mod orders;"
    );
}

#[test]
fn parsed_function_is_taken_apart() {
    let items = parse_items("#[inline]\npub fn configure(cfg: Config) -> Config { cfg }")
        .expect("the file parses");
    match &items[0] {
        Item::Function(function) => {
            assert_eq!(function.name, "configure");
            assert_eq!(function.header, "#[inline]\npub fn configure(cfg: Config) -> Config");
            assert_eq!(function.body, vec!["cfg"]);
            assert_eq!(function.text, "#[inline]\npub fn configure(cfg: Config) -> Config { cfg }");
            assert!(!function.signature.is_empty());
        }
        other => panic!("expected a function, found {:?}", other),
    }
}

#[test]
fn parsed_module_declaration_has_its_name() {
    let items = parse_items("mod inline { fn f() {} }\npub mod users;").expect("the file parses");
    assert_eq!(
        items[0],
        Item::ModuleDeclaration {
            name: "inline".to_string(),
            text: "mod inline { fn f() {} }".to_string(),
        }
    );
    assert_eq!(
        items[1],
        Item::ModuleDeclaration { name: "users".to_string(), text: "pub mod users;".to_string() }
    );
}

#[test]
fn text_beyond_ascii_is_kept() {
    let source = "/// 订单\npub struct 订单 { 名: u8 }\npub mod 用户;\nfn configure(cfg: Cfg) { let s = \"错误\"; cfg }";
    let mutation = mutate_source(source, "configure", "orders").expect("the file parses");
    assert_eq!(mutation.function_step, FunctionStep::Injected);
    assert!(mutation.text.starts_with("/// 订单\npub struct 订单 { 名: u8 }\npub mod orders;\npub mod 用户;\n"));
    let items = parse_items(&mutation.text).expect("the new text parses");
    match &items[3] {
        Item::Function(function) => assert_eq!(
            function.body,
            vec!["let s = \"错误\";", "cfg = cfg.configure(orders::routes);", "cfg"]
        ),
        other => panic!("expected a function, found {:?}", other),
    }
}

#[test]
fn function_with_one_statement_takes_the_registration_first() {
    let items = parse_items("fn configure(cfg: Cfg) { cfg }").expect("the file parses");
    let (items, step) = register_routes(items, "configure", "orders");
    assert_eq!(step, FunctionStep::Injected);
    match &items[0] {
        Item::Function(function) => {
            assert_eq!(function.body, vec!["cfg = cfg.configure(orders::routes);", "cfg"])
        }
        other => panic!("expected a function, found {:?}", other),
    }
}

#[test]
fn function_with_empty_body_takes_the_registration_alone() {
    let items = parse_items("fn configure(cfg: Cfg) {}").expect("the file parses");
    let (items, _) = register_routes(items, "configure", "orders");
    match &items[0] {
        Item::Function(function) => {
            assert_eq!(function.body, vec!["cfg = cfg.configure(orders::routes);"])
        }
        other => panic!("expected a function, found {:?}", other),
    }
}

#[test]
fn receiver_only_function_has_no_parameter() {
    let items = parse_items("fn configure(self) { run() }").expect("the file parses");
    let (items, step) = mutate_items(items, "configure", "orders");
    assert_eq!(step, FunctionStep::NoParameters);
    assert_eq!(serialize(&items), "fn configure(self) { run() }\npub mod orders;");
}

#[test]
fn run_goes_through_its_stages_in_order() {
    let run = Driver::new();
    assert_eq!(run.current_stage(), Stage::Idle);
    let run = match run.parse("pub mod users;\nfn configure(cfg: Cfg) { cfg }") {
        Ok(run) => run,
        Err(error) => panic!("the file parses: {:?}", error),
    };
    assert_eq!(run.current_stage(), Stage::Parsed);
    let run = run.locate("configure");
    assert_eq!(run.current_stage(), Stage::Located);
    let run = run.mutate("orders");
    assert_eq!(run.current_stage(), Stage::Mutated);
    let run = run.serialize();
    assert_eq!(run.current_stage(), Stage::Serialized);
    let mutation = run.outcome();
    assert_eq!(mutation.function_step, FunctionStep::Injected);
    assert_eq!(
        mutation.text,
        "pub mod orders;\npub mod users;\nfn configure(cfg: Cfg) {\n    cfg = cfg.configure(orders::routes);\n    cfg\n}"
    );
    let run = run.written();
    assert_eq!(run.current_stage(), Stage::Written);
}

#[test]
fn run_without_target_function_declares_the_module() {
    let run = match Driver::new().parse("use a::b;") {
        Ok(run) => run,
        Err(error) => panic!("the file parses: {:?}", error),
    };
    let mutation = run.locate("configure").mutate("orders").serialize().outcome();
    assert_eq!(mutation.function_step, FunctionStep::Absent);
    assert_eq!(mutation.text, "use a::b;\npub mod orders;");
}

#[test]
fn run_ends_where_the_text_does_not_parse() {
    assert!(Driver::new().parse("fn (").is_err());
}
