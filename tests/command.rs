use norseline::command::{
    commands, CommandInput, CommandOption, FleetCommand, FleetCommandPartial, OptionKind, OptionValue, ParseError,
};

fn text(name: &str, value: &str) -> CommandOption {
    CommandOption { name: name.to_string(), value: OptionValue::Text(value.to_string()), focused: false }
}

fn input(name: &str, sub: Option<&str>, options: Vec<CommandOption>) -> CommandInput {
    CommandInput { name: name.to_string(), subcommand: sub.map(|s| s.to_string()), options }
}

#[test]
fn parses_add() {
    let c = FleetCommand::from_interaction(&input("fleet", Some("add"), vec![text("model", "cutlass")])).unwrap();
    match c {
        FleetCommand::Add(a) => {
            assert_eq!(a.ship_model, "cutlass");
            assert_eq!(a.ship_name, None);
        }
        _ => panic!("expected add"),
    }
    let c = FleetCommand::from_interaction(&input("fleet", Some("add"), vec![text("name", "Rusty"), text("model", "aurora")])).unwrap();
    match c {
        FleetCommand::Add(a) => {
            assert_eq!(a.ship_model, "aurora");
            assert_eq!(a.ship_name.as_deref(), Some("Rusty"));
        }
        _ => panic!("expected add"),
    }
}

#[test]
fn parse_errors() {
    let e = |i: CommandInput| FleetCommand::from_interaction(&i).unwrap_err();
    assert_eq!(e(input("wishlist", Some("add"), vec![])), ParseError::UnknownCommand);
    assert_eq!(e(input("fleet", None, vec![])), ParseError::MissingSubcommand);
    assert_eq!(e(input("fleet", Some("fly"), vec![])), ParseError::UnknownSubcommand);
    assert_eq!(e(input("fleet", Some("add"), vec![text("name", "x")])), ParseError::MissingOption);
    let wrong = CommandOption { name: "model".to_string(), value: OptionValue::Integer(3), focused: false };
    assert_eq!(e(input("fleet", Some("add"), vec![wrong])), ParseError::WrongType);
    let negative = CommandOption { name: "entry".to_string(), value: OptionValue::Integer(-1), focused: false };
    assert_eq!(e(input("fleet", Some("remove"), vec![negative])), ParseError::WrongType);
    assert_eq!(e(input("fleet", Some("show"), vec![])), ParseError::MissingOption);
}

#[test]
fn parses_other_subcommands() {
    let user = CommandOption { name: "user".to_string(), value: OptionValue::User(42), focused: false };
    match FleetCommand::from_interaction(&input("fleet", Some("list"), vec![user])).unwrap() {
        FleetCommand::List(l) => assert_eq!(l.user, Some(42)),
        _ => panic!("expected list"),
    }
    let entry = CommandOption { name: "entry".to_string(), value: OptionValue::Integer(7), focused: false };
    match FleetCommand::from_interaction(&input("fleet", Some("remove"), vec![entry])).unwrap() {
        FleetCommand::Remove(r) => assert_eq!(r.entry_id, 7),
        _ => panic!("expected remove"),
    }
    let entry = CommandOption { name: "entry".to_string(), value: OptionValue::Integer(3), focused: false };
    match FleetCommand::from_interaction(&input("fleet", Some("rename"), vec![entry, text("name", "Nova")])).unwrap() {
        FleetCommand::Rename(r) => {
            assert_eq!(r.entry_id, 3);
            assert_eq!(r.new_name, "Nova");
        }
        _ => panic!("expected rename"),
    }
    let dummy = CommandOption { name: "_dummy".to_string(), value: OptionValue::Boolean(true), focused: false };
    match FleetCommand::from_interaction(&input("fleet", Some("show"), vec![dummy])).unwrap() {
        FleetCommand::Show(s) => assert!(s.dummy),
        _ => panic!("expected show"),
    }
}

#[test]
fn partial_parse_reads_only_the_model() {
    let focused = CommandOption { name: "model".to_string(), value: OptionValue::Text("cut".to_string()), focused: true };
    let stray = CommandOption { name: "name".to_string(), value: OptionValue::Integer(1), focused: false };
    match FleetCommandPartial::from_interaction(&input("fleet", Some("add"), vec![stray, focused])).unwrap() {
        FleetCommandPartial::Add(a) => assert_eq!(a.ship_model, "cut"),
    }
    let r = FleetCommandPartial::from_interaction(&input("fleet", Some("list"), vec![]));
    assert_eq!(r.unwrap_err(), ParseError::UnknownSubcommand);
}

#[test]
fn registration_lists_fleet() {
    let c = commands();
    assert_eq!(c.len(), 1);
    assert_eq!(c[0].name, FleetCommand::NAME);
    let names: Vec<&str> = c[0].subcommands.iter().map(|s| s.name.as_str()).collect();
    assert_eq!(names, vec!["add", "list", "remove", "rename", "show"]);
    let model = &c[0].subcommands[0].options[0];
    assert_eq!(model.name, "model");
    assert!(model.autocomplete && model.required);
    assert_eq!(model.kind, OptionKind::Text);
}
