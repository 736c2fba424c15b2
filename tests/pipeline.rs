use ed25519_dalek::{Signer, SigningKey};
use norseline::catalog::{Catalog, ShipModel};
use norseline::command::{CommandInput, CommandOption, FleetCommand, OptionValue};
use norseline::fleet::Fleets;
use norseline::gate::SignatureGate;
use norseline::orchestrator::{
    advance, autocomplete_reply, not_found_reply, parse_error_reply, removed_reply, start, unavailable_reply,
    Envelope, Reply, ServiceAnswer, ServiceCall, Step,
};
use norseline::command::ParseError;
use norseline::service::{answer_collection, answer_data, route, Destination};

fn hex(bytes: &[u8]) -> Vec<u8> {
    bytes.iter().map(|b| format!("{:02x}", b)).collect::<String>().into_bytes()
}

fn catalog() -> Catalog {
    Catalog::new(
        vec![
            ShipModel { id: "cutlass".to_string(), name: "Cutlass Black".to_string(), manufacturer_id: "drak".to_string() },
            ShipModel { id: "aurora".to_string(), name: "Aurora MR".to_string(), manufacturer_id: "rsi".to_string() },
        ],
        vec![],
    )
}

fn add_input(model: &str) -> CommandInput {
    CommandInput {
        name: "fleet".to_string(),
        subcommand: Some("add".to_string()),
        options: vec![CommandOption { name: "model".to_string(), value: OptionValue::Text(model.to_string()), focused: false }],
    }
}

fn run(env: &Envelope, catalog: &Catalog, fleets: &mut Fleets) -> Reply {
    let mut step = start(env);
    loop {
        match step {
            Step::Done(r) => return r,
            Step::Call(c) => {
                let answer = match route(&c) {
                    Destination::Data => answer_data(catalog, &c),
                    Destination::Collection => answer_collection(fleets, c),
                };
                step = advance(env, answer);
            }
        }
    }
}

fn text(r: Reply) -> String {
    match r {
        Reply::Message(m) => m,
        Reply::Choices(_) => panic!("expected a message"),
    }
}

fn signed_flow(model: &str) -> (String, Fleets) {
    let body = format!(
        r#"{{"data":{{"name":"fleet","options":[{{"name":"add","options":[{{"name":"model","value":"{}"}}]}}]}}}}"#,
        model
    )
    .into_bytes();
    let ts = b"1690000000".to_vec();
    let key = SigningKey::from_bytes(&[9u8; 32]);
    let mut msg = ts.clone();
    msg.extend_from_slice(&body);
    let sig = hex(&key.sign(&msg).to_bytes());
    let gate = SignatureGate::from_hex(&hex(&key.verifying_key().to_bytes())).unwrap();
    assert_eq!(gate.verify_request(&Some(sig), &Some(ts), &body), Ok(()));
    let env = FleetCommand::handler(5, &add_input(model)).unwrap();
    match &env.command {
        FleetCommand::Add(a) => assert_eq!(a.ship_model, model),
        _ => panic!("expected add"),
    }
    let mut fleets = Fleets::new();
    let reply = text(run(&env, &catalog(), &mut fleets));
    (reply, fleets)
}

#[test]
fn signed_add_of_known_model_is_answered_with_its_name() {
    let (reply, fleets) = signed_flow("cutlass");
    assert!(reply.contains("Cutlass Black"));
    assert_eq!(reply, "Adding a Cutlass Black to the fleet.");
    let l = fleets.list_entries(5);
    assert_eq!(l.len(), 1);
    assert_eq!(l[0].model_id, "cutlass");
}

#[test]
fn signed_add_of_unknown_model_is_refused() {
    let (reply, fleets) = signed_flow("not-a-real-ship");
    assert_eq!(reply, "`not-a-real-ship` is not a valid ship model.");
    assert!(fleets.list_entries(5).is_empty());
}

#[test]
fn list_remove_rename_flow() {
    let c = catalog();
    let mut f = Fleets::new();
    let mut add = FleetCommand::handler(1, &add_input("aurora")).unwrap();
    if let FleetCommand::Add(a) = &mut add.command {
        a.ship_name = Some("Dusty".to_string());
    }
    assert_eq!(text(run(&add, &c, &mut f)), "Adding a Aurora MR named _Dusty_ to the fleet.");
    let list = Envelope { user_id: 1, command: FleetCommand::List(norseline::command::ListCommand { user: None }) };
    assert_eq!(text(run(&list, &c, &mut f)), "The fleet:\n#0 Aurora MR named _Dusty_");
    let rename = Envelope {
        user_id: 1,
        command: FleetCommand::Rename(norseline::command::RenameCommand { entry_id: 0, new_name: "Nova".to_string() }),
    };
    assert_eq!(text(run(&rename, &c, &mut f)), "Ship #0 is now named _Nova_.");
    let remove = Envelope { user_id: 1, command: FleetCommand::Remove(norseline::command::RemoveCommand { entry_id: 0 }) };
    assert_eq!(text(run(&remove, &c, &mut f)), "Removed ship #0 from the fleet.");
    assert_eq!(text(run(&remove, &c, &mut f)), "You have no ship #0.");
    assert_eq!(text(run(&list, &c, &mut f)), "The fleet is empty.");
}

#[test]
fn replies_for_failures() {
    assert_eq!(
        text(parse_error_reply(ParseError::UnknownSubcommand)),
        "Something went wrong parsing the interaction: unknown subcommand"
    );
    assert_eq!(text(unavailable_reply()), "The service is unavailable right now; please try again.");
    assert_eq!(text(removed_reply(120)), "Removed ship #120 from the fleet.");
    assert_eq!(text(not_found_reply(7)), "You have no ship #7.");
    let env = FleetCommand::handler(1, &add_input("cutlass")).unwrap();
    match advance(&env, ServiceAnswer::Unavailable) {
        Step::Done(r) => assert_eq!(text(r), "The service is unavailable right now; please try again."),
        Step::Call(_) => panic!("expected a reply"),
    }
    let bad = CommandInput { name: "fleet".to_string(), subcommand: None, options: vec![] };
    match FleetCommand::handler(1, &bad) {
        Err(r) => assert_eq!(text(r), "Something went wrong parsing the interaction: no subcommand given"),
        Ok(_) => panic!("expected a parse failure"),
    }
}

#[test]
fn autocomplete_flow() {
    let mut input = add_input("CUT");
    input.options[0].focused = true;
    let call = FleetCommand::autocomplete_handler(&input).unwrap();
    match &call {
        ServiceCall::Suggest(q) => assert_eq!(q, "CUT"),
        _ => panic!("expected a suggestion request"),
    }
    match autocomplete_reply(answer_data(&catalog(), &call)) {
        Reply::Choices(v) => {
            assert_eq!(v.len(), 1);
            assert_eq!(v[0].name, "Cutlass Black");
            assert_eq!(v[0].value, "cutlass");
        }
        _ => panic!("expected choices"),
    }
}
