//! The orchestration service's decisions. A decoded command becomes a chain
//! of calls to the data and collection services; each answer decides the next
//! call or the reply. The runtime that carries the calls and answers between
//! the services only performs what these functions decide.

use vstd::prelude::*;
use crate::catalog::{Choice, ShipModel};
use crate::command::{CommandInput, FleetCommand, FleetCommandPartial, ParseError, parse_spec, parse_partial_spec};
use crate::fleet::{FleetEntry, FleetError};

verus! {

/// The reply sent back for an interaction.
#[derive(Debug)]
pub enum Reply {
    /// A message shown to the user.
    Message(String),
    /// Autocomplete choices (at most 25).
    Choices(Vec<Choice>),
}

/// A decoded command, together with the user who invoked it.
#[derive(Debug)]
pub struct Envelope {
    pub user_id: u64,
    pub command: FleetCommand,
}

/// A request to the data service or the collection service.
#[derive(Debug)]
pub enum ServiceCall {
    /// Data service: exact lookup of a model by identifier.
    LookupModel(String),
    /// Data service: autocomplete suggestions for a partial model name.
    Suggest(String),
    /// Collection service: add the resolved model to a user's fleet.
    AddEntry(u64, ShipModel, Option<String>),
    /// Collection service: a user's entries.
    ListEntries(u64),
    /// Collection service: remove an entry of a user.
    RemoveEntry(u64, u64),
    /// Collection service: rename an entry of a user.
    RenameEntry(u64, u64, String),
}

/// What a service answered.
#[derive(Debug)]
pub enum ServiceAnswer {
    Model(Option<ShipModel>),
    Suggestions(Vec<Choice>),
    Added(Result<FleetEntry, FleetError>),
    Entries(Vec<FleetEntry>),
    Removed(Result<(), FleetError>),
    Renamed(Result<FleetEntry, FleetError>),
    /// The service could not be reached.
    Unavailable,
}

/// The next thing to do for an interaction.
#[derive(Debug)]
pub enum Step {
    Call(ServiceCall),
    Done(Reply),
}

/// Decimal digits of `n`, most significant first.
pub open spec fn decimal(n: nat) -> Seq<char>
    decreases n,
{
    if n < 10 {
        seq![(n + 48) as char]
    } else {
        decimal(n / 10).push(((n % 10) + 48) as char)
    }
}

/// Relies on `u64`'s `ToString` (its `Display`): the decimal digits, no sign,
/// no leading zeros.
#[verifier::external_body]
fn decimal_text(n: u64) -> (r: String)
    ensures
        r@ == decimal(n as nat),
{
    n.to_string()
}

/// ` named _<nick>_`, or nothing.
pub open spec fn named_part(nickname: Option<String>) -> Seq<char> {
    match nickname {
        Some(n) => " named _"@ + n@ + "_"@,
        None => Seq::empty(),
    }
}

/// Text of a successful add.
pub open spec fn added_text(e: FleetEntry) -> Seq<char> {
    "Adding a "@ + e.model_name@ + named_part(e.nickname) + " to the fleet."@
}

/// Text for a model identifier that the catalog does not know.
pub open spec fn invalid_model_text(model: Seq<char>) -> Seq<char> {
    "`"@ + model + "` is not a valid ship model."@
}

/// Text when no entry identifier is left.
pub open spec fn full_text() -> Seq<char> {
    "Your fleet cannot take any more ships."@
}

/// Text when a service cannot be reached.
pub open spec fn unavailable_text() -> Seq<char> {
    "The service is unavailable right now; please try again."@
}

/// Text for an entry the user does not own.
pub open spec fn not_found_text(id: u64) -> Seq<char> {
    "You have no ship #"@ + decimal(id as nat) + "."@
}

/// Text of a successful remove.
pub open spec fn removed_text(id: u64) -> Seq<char> {
    "Removed ship #"@ + decimal(id as nat) + " from the fleet."@
}

/// Text of a successful rename.
pub open spec fn renamed_text(e: FleetEntry) -> Seq<char> {
    "Ship #"@ + decimal(e.entry_id as nat) + " is now"@ + named_part(e.nickname) + "."@
}

/// One line of a fleet listing.
pub open spec fn entry_line(e: FleetEntry) -> Seq<char> {
    "\n#"@ + decimal(e.entry_id as nat) + " "@ + e.model_name@ + named_part(e.nickname)
}

/// The lines of a fleet listing.
pub open spec fn entry_lines(entries: Seq<FleetEntry>) -> Seq<char>
    decreases entries.len(),
{
    if entries.len() == 0 {
        Seq::empty()
    } else {
        entry_lines(entries.drop_last()) + entry_line(entries.last())
    }
}

/// Text of a fleet listing.
pub open spec fn list_text(entries: Seq<FleetEntry>) -> Seq<char> {
    if entries.len() == 0 {
        "The fleet is empty."@
    } else {
        "The fleet:"@ + entry_lines(entries)
    }
}

/// Human-readable cause of a decoding failure.
pub open spec fn parse_error_cause(e: ParseError) -> Seq<char> {
    match e {
        ParseError::UnknownCommand => "unknown command"@,
        ParseError::MissingSubcommand => "no subcommand given"@,
        ParseError::UnknownSubcommand => "unknown subcommand"@,
        ParseError::MissingOption => "a required option is missing"@,
        ParseError::WrongType => "an option has a value of the wrong kind"@,
    }
}

/// Text for an interaction that could not be decoded.
pub open spec fn parse_error_text(e: ParseError) -> Seq<char> {
    "Something went wrong parsing the interaction: "@ + parse_error_cause(e)
}

/// The reply is a message with text `t`.
pub open spec fn says(r: Reply, t: Seq<char>) -> bool {
    r matches Reply::Message(m) && m@ == t
}

/// The step is the message reply `t`.
pub open spec fn done_saying(s: Step, t: Seq<char>) -> bool {
    s matches Step::Done(r) && says(r, t)
}

/// The first step for a command.
pub open spec fn start_spec(env: Envelope, s: Step) -> bool {
    match env.command {
        FleetCommand::Add(a) => s == Step::Call(ServiceCall::LookupModel(a.ship_model)),
        FleetCommand::List(l) => s == Step::Call(
            ServiceCall::ListEntries(
                match l.user {
                    Some(u) => u,
                    None => env.user_id,
                },
            ),
        ),
        FleetCommand::Remove(r) => s == Step::Call(ServiceCall::RemoveEntry(env.user_id, r.entry_id)),
        FleetCommand::Rename(r) => s == Step::Call(
            ServiceCall::RenameEntry(env.user_id, r.entry_id, r.new_name),
        ),
        FleetCommand::Show(_) => s == Step::Call(ServiceCall::ListEntries(env.user_id)),
    }
}

/// The step after `answer` for a command.
pub open spec fn advance_spec(env: Envelope, answer: ServiceAnswer, s: Step) -> bool {
    match answer {
        ServiceAnswer::Unavailable => done_saying(s, unavailable_text()),
        ServiceAnswer::Model(m) => match (env.command, m) {
            (FleetCommand::Add(a), None) => done_saying(s, invalid_model_text(a.ship_model@)),
            (FleetCommand::Add(a), Some(model)) => s == Step::Call(
                ServiceCall::AddEntry(env.user_id, model, a.ship_name),
            ),
            _ => done_saying(s, unavailable_text()),
        },
        ServiceAnswer::Added(r) => match r {
            Ok(e) => done_saying(s, added_text(e)),
            Err(FleetError::Full) => done_saying(s, full_text()),
            Err(_) => match env.command {
                FleetCommand::Add(a) => done_saying(s, invalid_model_text(a.ship_model@)),
                _ => done_saying(s, unavailable_text()),
            },
        },
        ServiceAnswer::Entries(v) => done_saying(s, list_text(v@)),
        ServiceAnswer::Removed(r) => match env.command {
            FleetCommand::Remove(c) => match r {
                Ok(_) => done_saying(s, removed_text(c.entry_id)),
                Err(_) => done_saying(s, not_found_text(c.entry_id)),
            },
            _ => done_saying(s, unavailable_text()),
        },
        ServiceAnswer::Renamed(r) => match env.command {
            FleetCommand::Rename(c) => match r {
                Ok(e) => done_saying(s, renamed_text(e)),
                Err(_) => done_saying(s, not_found_text(c.entry_id)),
            },
            _ => done_saying(s, unavailable_text()),
        },
        ServiceAnswer::Suggestions(_) => done_saying(s, unavailable_text()),
    }
}

/// A message reply built from one literal.
fn message(text: &str) -> (r: Reply)
    ensures
        says(r, text@),
{
    Reply::Message(String::from_str(text))
}

/// ` named _<nick>_`, or nothing.
fn named_text(nickname: &Option<String>) -> (r: String)
    ensures
        r@ == named_part(*nickname),
{
    match nickname {
        Some(n) => {
            let mut t = String::from_str(" named _");
            t.append(n.as_str());
            t.append("_");
            t
        },
        None => String::new(),
    }
}

/// The message for a successful add.
pub fn added_reply(e: &FleetEntry) -> (r: Reply)
    ensures
        says(r, added_text(*e)),
{
    let mut t = String::from_str("Adding a ");
    t.append(e.model_name.as_str());
    let n = named_text(&e.nickname);
    t.append(n.as_str());
    t.append(" to the fleet.");
    Reply::Message(t)
}

/// The message for an unknown model identifier.
pub fn invalid_model_reply(model: &String) -> (r: Reply)
    ensures
        says(r, invalid_model_text(model@)),
{
    let mut t = String::from_str("`");
    t.append(model.as_str());
    t.append("` is not a valid ship model.");
    Reply::Message(t)
}

/// The message when a service cannot be reached.
pub fn unavailable_reply() -> (r: Reply)
    ensures
        says(r, unavailable_text()),
{
    message("The service is unavailable right now; please try again.")
}

/// The message for an entry the user does not own.
pub fn not_found_reply(id: u64) -> (r: Reply)
    ensures
        says(r, not_found_text(id)),
{
    let mut t = String::from_str("You have no ship #");
    let d = decimal_text(id);
    t.append(d.as_str());
    t.append(".");
    Reply::Message(t)
}

/// The message for a successful remove.
pub fn removed_reply(id: u64) -> (r: Reply)
    ensures
        says(r, removed_text(id)),
{
    let mut t = String::from_str("Removed ship #");
    let d = decimal_text(id);
    t.append(d.as_str());
    t.append(" from the fleet.");
    Reply::Message(t)
}

/// The message for a successful rename.
pub fn renamed_reply(e: &FleetEntry) -> (r: Reply)
    ensures
        says(r, renamed_text(*e)),
{
    let mut t = String::from_str("Ship #");
    let d = decimal_text(e.entry_id);
    t.append(d.as_str());
    t.append(" is now");
    let n = named_text(&e.nickname);
    t.append(n.as_str());
    t.append(".");
    Reply::Message(t)
}

/// The message listing a fleet.
pub fn list_reply(entries: &Vec<FleetEntry>) -> (r: Reply)
    ensures
        says(r, list_text(entries@)),
{
    if entries.len() == 0 {
        return message("The fleet is empty.");
    }
    let mut t = String::from_str("The fleet:");
    let ghost head = t@;
    let mut i: usize = 0;
    while i < entries.len()
        invariant
            i <= entries@.len(),
            t@ == head + entry_lines(entries@.take(i as int)),
        decreases entries@.len() - i,
    {
        assert(entries@.take(i + 1).drop_last() =~= entries@.take(i as int));
        let e = &entries[i];
        t.append("\n#");
        let d = decimal_text(e.entry_id);
        t.append(d.as_str());
        t.append(" ");
        t.append(e.model_name.as_str());
        let n = named_text(&e.nickname);
        t.append(n.as_str());
        assert(t@ =~= head + entry_lines(entries@.take(i + 1)));
        i = i + 1;
    }
    assert(entries@.take(i as int) =~= entries@);
    Reply::Message(t)
}

/// The message for an interaction that could not be decoded.
pub fn parse_error_reply(e: ParseError) -> (r: Reply)
    ensures
        says(r, parse_error_text(e)),
{
    let mut t = String::from_str("Something went wrong parsing the interaction: ");
    let cause = match e {
        ParseError::UnknownCommand => "unknown command",
        ParseError::MissingSubcommand => "no subcommand given",
        ParseError::UnknownSubcommand => "unknown subcommand",
        ParseError::MissingOption => "a required option is missing",
        ParseError::WrongType => "an option has a value of the wrong kind",
    };
    t.append(cause);
    Reply::Message(t)
}

/// The first step for a decoded command.
pub fn start(env: &Envelope) -> (r: Step)
    ensures
        start_spec(*env, r),
{
    match &env.command {
        FleetCommand::Add(a) => Step::Call(ServiceCall::LookupModel(a.ship_model.clone())),
        FleetCommand::List(l) => Step::Call(
            ServiceCall::ListEntries(
                match l.user {
                    Some(u) => u,
                    None => env.user_id,
                },
            ),
        ),
        FleetCommand::Remove(r) => Step::Call(ServiceCall::RemoveEntry(env.user_id, r.entry_id)),
        FleetCommand::Rename(r) => Step::Call(
            ServiceCall::RenameEntry(env.user_id, r.entry_id, r.new_name.clone()),
        ),
        FleetCommand::Show(_) => Step::Call(ServiceCall::ListEntries(env.user_id)),
    }
}

/// The step that follows `answer`: the next call, or the reply.
pub fn advance(env: &Envelope, answer: ServiceAnswer) -> (r: Step)
    ensures
        advance_spec(*env, answer, r),
{
    match answer {
        ServiceAnswer::Unavailable => Step::Done(unavailable_reply()),
        ServiceAnswer::Model(m) => match (&env.command, m) {
            (FleetCommand::Add(a), None) => Step::Done(invalid_model_reply(&a.ship_model)),
            (FleetCommand::Add(a), Some(model)) => Step::Call(
                ServiceCall::AddEntry(env.user_id, model, crate::fleet::copy_text(&a.ship_name)),
            ),
            _ => Step::Done(unavailable_reply()),
        },
        ServiceAnswer::Added(r) => match r {
            Ok(e) => Step::Done(added_reply(&e)),
            Err(FleetError::Full) => Step::Done(message("Your fleet cannot take any more ships.")),
            Err(_) => match &env.command {
                FleetCommand::Add(a) => Step::Done(invalid_model_reply(&a.ship_model)),
                _ => Step::Done(unavailable_reply()),
            },
        },
        ServiceAnswer::Entries(v) => Step::Done(list_reply(&v)),
        ServiceAnswer::Removed(r) => match &env.command {
            FleetCommand::Remove(c) => match r {
                Ok(_) => Step::Done(removed_reply(c.entry_id)),
                Err(_) => Step::Done(not_found_reply(c.entry_id)),
            },
            _ => Step::Done(unavailable_reply()),
        },
        ServiceAnswer::Renamed(r) => match &env.command {
            FleetCommand::Rename(c) => match r {
                Ok(e) => Step::Done(renamed_reply(&e)),
                Err(_) => Step::Done(not_found_reply(c.entry_id)),
            },
            _ => Step::Done(unavailable_reply()),
        },
        ServiceAnswer::Suggestions(_) => Step::Done(unavailable_reply()),
    }
}

impl FleetCommand {
    /// A received command interaction: decoded into an envelope, or answered with
    /// the decoding failure.
    pub fn handler(user_id: u64, input: &CommandInput) -> (r: Result<Envelope, Reply>)
        ensures
            match parse_spec(*input) {
                Ok(c) => r == Ok::<Envelope, Reply>(Envelope { user_id, command: c }),
                Err(e) => r matches Err(rep) && says(rep, parse_error_text(e)),
            },
    {
        match FleetCommand::from_interaction(input) {
            Ok(c) => Ok(Envelope { user_id, command: c }),
            Err(e) => Err(parse_error_reply(e)),
        }
    }

    /// A received autocomplete interaction: the suggestion request to make, or the
    /// reply for a decoding failure.
    pub fn autocomplete_handler(input: &CommandInput) -> (r: Result<ServiceCall, Reply>)
        ensures
            match parse_partial_spec(*input) {
                Ok(FleetCommandPartial::Add(a)) => r == Ok::<ServiceCall, Reply>(ServiceCall::Suggest(a.ship_model)),
                Err(e) => r matches Err(rep) && says(rep, parse_error_text(e)),
            },
    {
        match FleetCommandPartial::from_interaction(input) {
            Ok(FleetCommandPartial::Add(a)) => Ok(ServiceCall::Suggest(a.ship_model)),
            Err(e) => Err(parse_error_reply(e)),
        }
    }
}

/// The reply to an autocomplete interaction, from the data service's answer.
pub fn autocomplete_reply(answer: ServiceAnswer) -> (r: Reply)
    ensures
        match answer {
            ServiceAnswer::Suggestions(v) => r == Reply::Choices(v),
            _ => says(r, unavailable_text()),
        },
{
    match answer {
        ServiceAnswer::Suggestions(v) => Reply::Choices(v),
        _ => unavailable_reply(),
    }
}

} // verus!
