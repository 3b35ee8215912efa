use drop_client::command::{ArgError, Command, DropCreate, DropEdit, EditValue, Parsed};
use drop_client::output::{drop_text, help_text, list_text, reply_text, DropRecord, Reply, HELP_TEXT};
use drop_client::request::{
    create_body_text, delete_body_text, edit_body_text, request_for, ClientConfig, HttpRequest,
    Method,
};
use drop_client::session::{decide, Action};
use drop_client::text::{int_to_text, parse_i32, split_tokens, str_eq, strip_line_end, usize_to_text};
use drop_client::command::parse_line;

fn s(x: &str) -> String {
    x.to_string()
}

fn sneakers() -> DropRecord {
    DropRecord {
        name: s("sneakers"),
        param: s("size"),
        secret: s("abc123"),
        drop_type: s("initial-lifetime"),
        stock: 50,
        purchased: 3,
    }
}

fn sent(line: &str) -> Option<HttpRequest> {
    match decide(&ClientConfig::local(), &parse_line(line)) {
        Action::Send(q) => Some(q),
        _ => None,
    }
}

fn printed(line: &str) -> Option<String> {
    match decide(&ClientConfig::local(), &parse_line(line)) {
        Action::Print(t) => Some(t),
        _ => None,
    }
}

#[test]
fn split_keeps_empty_pieces() {
    assert_eq!(split_tokens("a  b"), vec![s("a"), s(""), s("b")]);
    assert_eq!(split_tokens(""), vec![s("")]);
    assert_eq!(split_tokens("view x "), vec![s("view"), s("x"), s("")]);
}

#[test]
fn strip_removes_one_terminator() {
    assert_eq!(strip_line_end("list\n"), "list");
    assert_eq!(strip_line_end("list\r\n"), "list");
    assert_eq!(strip_line_end("list"), "list");
    assert_eq!(strip_line_end("\n"), "");
}

#[test]
fn str_eq_compares_characters() {
    assert!(str_eq("edit", "edit"));
    assert!(!str_eq("edit", "edits"));
    assert!(!str_eq("edit", "exit"));
}

#[test]
fn parse_i32_reads_signed_decimals() {
    assert_eq!(parse_i32("50"), Some(50));
    assert_eq!(parse_i32("-7"), Some(-7));
    assert_eq!(parse_i32("+3"), Some(3));
    assert_eq!(parse_i32("007"), Some(7));
    assert_eq!(parse_i32("2147483647"), Some(i32::MAX));
    assert_eq!(parse_i32("-2147483648"), Some(i32::MIN));
    assert_eq!(parse_i32("2147483648"), None);
    assert_eq!(parse_i32("-2147483649"), None);
    assert_eq!(parse_i32("99999999999999999999"), None);
    assert_eq!(parse_i32(""), None);
    assert_eq!(parse_i32("-"), None);
    assert_eq!(parse_i32("5a"), None);
    assert_eq!(parse_i32("fifty"), None);
    assert_eq!(parse_i32("1.5"), None);
}

#[test]
fn parse_i32_agrees_with_std() {
    for t in ["0", "12", "-0", "+", "+-1", " 1", "4294967296", "-12x", "123456789"] {
        assert_eq!(parse_i32(t), t.parse::<i32>().ok(), "{}", t);
    }
}

#[test]
fn integers_are_written_in_decimal() {
    assert_eq!(int_to_text(0), "0");
    assert_eq!(int_to_text(50), "50");
    assert_eq!(int_to_text(-15), "-15");
    assert_eq!(int_to_text(i64::MIN), "-9223372036854775808");
    assert_eq!(usize_to_text(1203), "1203");
}

#[test]
fn help_and_list_are_recognised() {
    assert_eq!(parse_line("help"), Parsed::Ready(Command::Help));
    assert_eq!(parse_line("list"), Parsed::Ready(Command::List));
    assert_eq!(printed("help"), Some(format!("{}\n", HELP_TEXT)));
    assert_eq!(help_text(), format!("{}\n", HELP_TEXT));
    assert!(HELP_TEXT.contains("usage: create <NAME> <PARAM> <SECRET> <TYPE> <STOCK>"));
}

#[test]
fn short_commands_send_nothing() {
    assert_eq!(parse_line("view"), Parsed::Rejected(ArgError::ViewArity));
    assert_eq!(parse_line("delete"), Parsed::Rejected(ArgError::DeleteArity));
    assert_eq!(parse_line("create a b"), Parsed::Rejected(ArgError::CreateArity(2)));
    assert_eq!(parse_line("create a b c d e f"), Parsed::Rejected(ArgError::CreateArity(6)));
    assert_eq!(parse_line("edit"), Parsed::Rejected(ArgError::EditArity(0)));
    assert_eq!(parse_line("edit a"), Parsed::Rejected(ArgError::EditArity(0)));
    assert_eq!(parse_line("edit a name"), Parsed::Rejected(ArgError::EditArity(1)));
    assert_eq!(printed("view"), Some(s("View command requires 1 argument, 0 were provided\n\n")));
    assert_eq!(
        printed("delete"),
        Some(s("Delete command requires 1 argument, 0 were provided\n\n"))
    );
    assert_eq!(
        printed("create a b"),
        Some(s("Create command requires 4 arguments, 2 were provided\n\n"))
    );
    assert_eq!(
        printed("edit a name"),
        Some(s("Edit command requires 2 arguments, 1 was provided\n\n"))
    );
    assert_eq!(printed("edit"), Some(s("Edit command requires 2 arguments, 0 were provided\n\n")));
    assert!(sent("view").is_none() && sent("create a b").is_none() && sent("edit a").is_none());
}

#[test]
fn create_with_bad_type_sends_nothing() {
    let line = "create sneakers size abc123 lifetime 50";
    assert_eq!(parse_line(line), Parsed::Rejected(ArgError::DropType));
    assert_eq!(printed(line), Some(s("Type argument value must be a valid drop type\n\n")));
    assert!(sent(line).is_none());
}

#[test]
fn non_integer_stock_sends_nothing() {
    let line = "create sneakers size abc123 paid-renewal fifty";
    assert_eq!(parse_line(line), Parsed::Rejected(ArgError::Stock));
    assert_eq!(printed(line), Some(s("Stock argument value must be an integer\n\n")));
    assert!(sent(line).is_none());
    assert_eq!(parse_line("edit sneakers stock 1.5"), Parsed::Rejected(ArgError::Stock));
    assert!(sent("edit sneakers stock 1.5").is_none());
}

#[test]
fn edit_checks_field_and_type() {
    assert_eq!(parse_line("edit sneakers colour red"), Parsed::Rejected(ArgError::EditField));
    assert_eq!(
        printed("edit sneakers colour red"),
        Some(s("Edit command argument 1 must be a valid argument (name, param, secret, type, stock)\n\n"))
    );
    assert_eq!(parse_line("edit sneakers type weekly"), Parsed::Rejected(ArgError::DropType));
    assert_eq!(
        parse_line("edit sneakers type paid-lifetime"),
        Parsed::Ready(Command::Edit(DropEdit {
            name: s("sneakers"),
            argument: s("type"),
            value: EditValue::Text(s("paid-lifetime")),
        }))
    );
}

#[test]
fn edit_stock_is_a_number_and_other_fields_are_text() {
    let stock = sent("edit sneakers stock 12").unwrap();
    assert_eq!(stock.method, Method::Post);
    assert_eq!(stock.url, "http://localhost:3000/");
    assert_eq!(stock.body, Some(s(r#"{"name":"sneakers","argument":"stock","value":12}"#)));
    let param = sent("edit sneakers param 12").unwrap();
    assert_eq!(param.body, Some(s(r#"{"name":"sneakers","argument":"param","value":"12"}"#)));
    let body = edit_body_text(&DropEdit {
        name: s("a"),
        argument: s("stock"),
        value: EditValue::Int(-4),
    });
    assert_eq!(body, r#"{"name":"a","argument":"stock","value":-4}"#);
}

#[test]
fn create_body_carries_stock_as_integer() {
    let line = "create sneakers size abc123 initial-lifetime 50";
    assert_eq!(
        parse_line(line),
        Parsed::Ready(Command::Create(DropCreate {
            name: s("sneakers"),
            param: s("size"),
            secret: s("abc123"),
            drop_type: s("initial-lifetime"),
            stock: 50,
        }))
    );
    let q = sent(line).unwrap();
    assert_eq!(q.method, Method::Post);
    assert_eq!(q.header_name, "header");
    assert_eq!(q.header_value, "value");
    let body = q.body.unwrap();
    assert_eq!(
        body,
        r#"{"name":"sneakers","param":"size","secret":"abc123","type":"initial-lifetime","stock":50}"#
    );
    assert!(body.contains(r#""stock":50"#));
    assert!(!body.contains(r#""stock":"50""#));
}

#[test]
fn json_strings_are_escaped() {
    assert_eq!(delete_body_text("a\"b"), r#"{"name":"a\"b"}"#);
    assert_eq!(delete_body_text("x\\y"), r#"{"name":"x\\y"}"#);
    let c = DropCreate {
        name: s("tab\there"),
        param: s(""),
        secret: s("k"),
        drop_type: s("paid-renewal"),
        stock: -1,
    };
    assert_eq!(
        create_body_text(&c),
        r#"{"name":"tab\there","param":"","secret":"k","type":"paid-renewal","stock":-1}"#
    );
}

#[test]
fn get_requests_name_their_query() {
    let cfg = ClientConfig::local();
    let list = request_for(&cfg, &Command::List).unwrap();
    assert_eq!(list.method, Method::Get);
    assert_eq!(list.url, "http://localhost:3000/?all_drops=true");
    assert_eq!(list.body, None);
    let view = sent("view sneakers").unwrap();
    assert_eq!(view.method, Method::Get);
    assert_eq!(view.url, "http://localhost:3000/?drop=sneakers");
    assert_eq!(view.body, None);
    let del = sent("delete sneakers").unwrap();
    assert_eq!(del.body, Some(s(r#"{"name":"sneakers"}"#)));
    assert!(request_for(&cfg, &Command::Help).is_none());
}

#[test]
fn unknown_command_does_nothing() {
    assert_eq!(parse_line("frobnicate a b"), Parsed::Ignored);
    assert_eq!(decide(&ClientConfig::local(), &parse_line("frobnicate a b")), Action::Nothing);
    assert_eq!(decide(&ClientConfig::local(), &parse_line("")), Action::Nothing);
    assert_eq!(parse_line("LIST"), Parsed::Ignored);
}

#[test]
fn empty_listing_says_so() {
    assert_eq!(
        reply_text(&Command::List, &Reply::Drops(vec![])),
        "There are currently no drops\n\n"
    );
    assert_eq!(list_text(&vec![]), "There are currently no drops\n\n");
}

#[test]
fn listing_shows_six_fields_in_order() {
    let expected = "Name: sneakers\nParameter: size\nSecret token: abc123\nType: initial-lifetime\nStock: 50\nPurchased: 3\n\n";
    assert_eq!(reply_text(&Command::List, &Reply::Drops(vec![sneakers()])), expected);
    assert_eq!(drop_text(&sneakers()), expected);
    let mut other = sneakers();
    other.name = s("boots");
    other.stock = -2;
    let two = list_text(&vec![sneakers(), other]);
    assert_eq!(two, format!("{}Name: boots\nParameter: size\nSecret token: abc123\nType: initial-lifetime\nStock: -2\nPurchased: 3\n\n", expected));
    assert_eq!(reply_text(&Command::View(s("sneakers")), &Reply::One(sneakers())), expected);
}

#[test]
fn delete_reports_outcome() {
    let cmd = Command::Delete(s("sneakers"));
    assert_eq!(reply_text(&cmd, &Reply::Status(true)), "Drop: sneakers has been deleted\n\n");
    assert_eq!(reply_text(&cmd, &Reply::Status(false)), "There are no drops named: sneakers\n\n");
    assert_eq!(reply_text(&cmd, &Reply::Undecodable), "There are no drops named: sneakers\n\n");
}

#[test]
fn edit_and_create_report_outcome() {
    let edit = match parse_line("edit sneakers stock 4") {
        Parsed::Ready(c) => c,
        other => panic!("{:?}", other),
    };
    assert_eq!(reply_text(&edit, &Reply::Status(true)), "Drop: sneakers has been edited\n\n");
    assert_eq!(reply_text(&edit, &Reply::Status(false)), "There are no drops named: sneakers\n\n");
    let create = match parse_line("create sneakers size abc123 initial-lifetime 50") {
        Parsed::Ready(c) => c,
        other => panic!("{:?}", other),
    };
    assert_eq!(reply_text(&create, &Reply::Status(true)), "Drop: sneakers has been created\n\n");
    assert_eq!(reply_text(&create, &Reply::Status(false)), "There was an error creating the drop\n\n");
    assert_eq!(reply_text(&create, &Reply::Undecodable), "There was an error creating the drop\n\n");
}

#[test]
fn missing_drop_and_transport_errors() {
    let view = Command::View(s("ghost"));
    assert_eq!(reply_text(&view, &Reply::Undecodable), "There are no drops named: ghost\n\n");
    assert_eq!(
        reply_text(&view, &Reply::Transport(s("connection refused"))),
        "Error while getting list:\nconnection refused\n\n"
    );
    assert_eq!(
        reply_text(&Command::List, &Reply::Transport(s("timeout"))),
        "Error while getting lists:\ntimeout\n\n"
    );
    assert_eq!(
        reply_text(&Command::Delete(s("x")), &Reply::Transport(s("dns"))),
        "Error while deleting drop:\ndns\n\n"
    );
    assert_eq!(
        reply_text(&Command::List, &Reply::Undecodable),
        "The list of drops could not be read\n\n"
    );
}
