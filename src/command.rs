//! The command registry: the typed `fleet` command and its subcommands, decoded
//! from the name and options of an interaction, strictly for a command and
//! leniently for an autocomplete request.

use vstd::prelude::*;

verus! {

/// The value of one option of an interaction.
#[derive(Debug)]
pub enum OptionValue {
    Text(String),
    Integer(i64),
    Boolean(bool),
    User(u64),
}

/// One named option of an interaction; `focused` marks the option that an
/// autocomplete request is about.
#[derive(Debug)]
pub struct CommandOption {
    pub name: String,
    pub value: OptionValue,
    pub focused: bool,
}

/// What the decoder reads of an interaction: the command name, the subcommand
/// chosen (if any) and that subcommand's options.
#[derive(Debug)]
pub struct CommandInput {
    pub name: String,
    pub subcommand: Option<String>,
    pub options: Vec<CommandOption>,
}

/// Why an interaction could not be decoded.
#[derive(Debug, Clone, Copy, PartialEq, Eq, Structural)]
pub enum ParseError {
    /// The command name is not `fleet`.
    UnknownCommand,
    /// No subcommand was chosen.
    MissingSubcommand,
    /// The subcommand is not one of this command's.
    UnknownSubcommand,
    /// A required option is absent.
    MissingOption,
    /// An option holds a value of the wrong kind.
    WrongType,
}

/// Add a ship to your fleet.
#[derive(Debug)]
pub struct AddCommand {
    /// The model of ship to add (option `model`, autocompleted).
    pub ship_model: String,
    /// The name of the ship (option `name`, optional).
    pub ship_name: Option<String>,
}

/// List the ships in your, or the given user's, fleet.
#[derive(Debug)]
pub struct ListCommand {
    /// The user whose fleet to list (option `user`, optional).
    pub user: Option<u64>,
}

/// Remove a ship from your fleet.
#[derive(Debug)]
pub struct RemoveCommand {
    /// The entry to remove (option `entry`).
    pub entry_id: u64,
}

/// Rename a ship in your fleet.
#[derive(Debug)]
pub struct RenameCommand {
    /// The entry to rename (option `entry`).
    pub entry_id: u64,
    /// Its new name (option `name`).
    pub new_name: String,
}

/// Show your fleet to the channel.
#[derive(Debug)]
pub struct ShowCommand {
    /// A placeholder flag (option `_dummy`).
    pub dummy: bool,
}

/// The `fleet` command, one variant per subcommand.
#[derive(Debug)]
pub enum FleetCommand {
    Add(AddCommand),
    List(ListCommand),
    Remove(RemoveCommand),
    Rename(RenameCommand),
    Show(ShowCommand),
}

/// The relaxed form of `add` used while the user is still typing.
#[derive(Debug)]
pub struct AddCommandPartial {
    /// What has been typed of the model so far.
    pub ship_model: String,
}

/// The subcommands of `fleet` that offer autocompletion.
#[derive(Debug)]
pub enum FleetCommandPartial {
    Add(AddCommandPartial),
}

/// The first option of `options` named `name`.
pub open spec fn option_named(options: Seq<CommandOption>, name: Seq<char>) -> Option<CommandOption>
    decreases options.len(),
{
    if options.len() == 0 {
        None
    } else if options[0].name@ == name {
        Some(options[0])
    } else {
        option_named(options.drop_first(), name)
    }
}

/// The text option `name`: `Ok(None)` if absent, an error if not text.
pub open spec fn text_option(options: Seq<CommandOption>, name: Seq<char>) -> Result<Option<String>, ParseError> {
    match option_named(options, name) {
        None => Ok(None),
        Some(o) => match o.value {
            OptionValue::Text(s) => Ok(Some(s)),
            _ => Err(ParseError::WrongType),
        },
    }
}

/// The user option `name`: `Ok(None)` if absent, an error if not a user.
pub open spec fn user_option(options: Seq<CommandOption>, name: Seq<char>) -> Result<Option<u64>, ParseError> {
    match option_named(options, name) {
        None => Ok(None),
        Some(o) => match o.value {
            OptionValue::User(u) => Ok(Some(u)),
            _ => Err(ParseError::WrongType),
        },
    }
}

/// The required boolean option `name`.
pub open spec fn bool_option(options: Seq<CommandOption>, name: Seq<char>) -> Result<bool, ParseError> {
    match option_named(options, name) {
        None => Err(ParseError::MissingOption),
        Some(o) => match o.value {
            OptionValue::Boolean(b) => Ok(b),
            _ => Err(ParseError::WrongType),
        },
    }
}

/// The required entry identifier option `name`: a non-negative integer.
pub open spec fn id_option(options: Seq<CommandOption>, name: Seq<char>) -> Result<u64, ParseError> {
    match option_named(options, name) {
        None => Err(ParseError::MissingOption),
        Some(o) => match o.value {
            OptionValue::Integer(n) => if n >= 0 {
                Ok(n as u64)
            } else {
                Err(ParseError::WrongType)
            },
            _ => Err(ParseError::WrongType),
        },
    }
}

/// The required text option `name`.
pub open spec fn required_text(options: Seq<CommandOption>, name: Seq<char>) -> Result<String, ParseError> {
    match text_option(options, name) {
        Err(e) => Err(e),
        Ok(None) => Err(ParseError::MissingOption),
        Ok(Some(s)) => Ok(s),
    }
}

/// The subcommand that `input` names, once its command name is checked.
pub open spec fn checked_subcommand(input: CommandInput) -> Result<Seq<char>, ParseError> {
    if input.name@ != "fleet"@ {
        Err(ParseError::UnknownCommand)
    } else {
        match input.subcommand {
            None => Err(ParseError::MissingSubcommand),
            Some(s) => Ok(s@),
        }
    }
}

/// The decoding of `input` against the strict schema of `fleet`.
pub open spec fn parse_spec(input: CommandInput) -> Result<FleetCommand, ParseError> {
    let opts = input.options@;
    match checked_subcommand(input) {
        Err(e) => Err(e),
        Ok(sub) => if sub == "add"@ {
            match required_text(opts, "model"@) {
                Err(e) => Err(e),
                Ok(m) => match text_option(opts, "name"@) {
                    Err(e) => Err(e),
                    Ok(n) => Ok(FleetCommand::Add(AddCommand { ship_model: m, ship_name: n })),
                },
            }
        } else if sub == "list"@ {
            match user_option(opts, "user"@) {
                Err(e) => Err(e),
                Ok(u) => Ok(FleetCommand::List(ListCommand { user: u })),
            }
        } else if sub == "remove"@ {
            match id_option(opts, "entry"@) {
                Err(e) => Err(e),
                Ok(id) => Ok(FleetCommand::Remove(RemoveCommand { entry_id: id })),
            }
        } else if sub == "rename"@ {
            match id_option(opts, "entry"@) {
                Err(e) => Err(e),
                Ok(id) => match required_text(opts, "name"@) {
                    Err(e) => Err(e),
                    Ok(n) => Ok(FleetCommand::Rename(RenameCommand { entry_id: id, new_name: n })),
                },
            }
        } else if sub == "show"@ {
            match bool_option(opts, "_dummy"@) {
                Err(e) => Err(e),
                Ok(b) => Ok(FleetCommand::Show(ShowCommand { dummy: b })),
            }
        } else {
            Err(ParseError::UnknownSubcommand)
        },
    }
}

/// The decoding of `input` against the relaxed autocomplete schema of `fleet`:
/// only `add` autocompletes, and only its `model` option is read.
pub open spec fn parse_partial_spec(input: CommandInput) -> Result<FleetCommandPartial, ParseError> {
    match checked_subcommand(input) {
        Err(e) => Err(e),
        Ok(sub) => if sub == "add"@ {
            match required_text(input.options@, "model"@) {
                Err(e) => Err(e),
                Ok(m) => Ok(FleetCommandPartial::Add(AddCommandPartial { ship_model: m })),
            }
        } else {
            Err(ParseError::UnknownSubcommand)
        },
    }
}

/// Position of the first option named `name`.
fn find_option(options: &Vec<CommandOption>, name: &str) -> (r: Option<usize>)
    ensures
        match r {
            Some(i) => i < options@.len() && option_named(options@, name@) == Some(options@[i as int]),
            None => option_named(options@, name@) is None,
        },
{
    let target = String::from_str(name);
    let mut i: usize = 0;
    assert(options@.subrange(0, options@.len() as int) =~= options@);
    while i < options.len()
        invariant
            i <= options@.len(),
            target@ == name@,
            option_named(options@, name@) == option_named(
                options@.subrange(i as int, options@.len() as int),
                name@,
            ),
        decreases options@.len() - i,
    {
        let ghost rest = options@.subrange(i as int, options@.len() as int);
        assert(rest.drop_first() =~= options@.subrange(i + 1, options@.len() as int));
        if options[i].name == target {
            return Some(i);
        }
        i = i + 1;
    }
    None
}

/// The text option `name`.
fn get_text(options: &Vec<CommandOption>, name: &str) -> (r: Result<Option<String>, ParseError>)
    ensures
        r == text_option(options@, name@),
{
    match find_option(options, name) {
        None => Ok(None),
        Some(i) => match &options[i].value {
            OptionValue::Text(s) => Ok(Some(s.clone())),
            _ => Err(ParseError::WrongType),
        },
    }
}

/// The required text option `name`.
fn get_required_text(options: &Vec<CommandOption>, name: &str) -> (r: Result<String, ParseError>)
    ensures
        r == required_text(options@, name@),
{
    match get_text(options, name) {
        Err(e) => Err(e),
        Ok(None) => Err(ParseError::MissingOption),
        Ok(Some(s)) => Ok(s),
    }
}

/// The user option `name`.
fn get_user(options: &Vec<CommandOption>, name: &str) -> (r: Result<Option<u64>, ParseError>)
    ensures
        r == user_option(options@, name@),
{
    match find_option(options, name) {
        None => Ok(None),
        Some(i) => match &options[i].value {
            OptionValue::User(u) => Ok(Some(*u)),
            _ => Err(ParseError::WrongType),
        },
    }
}

/// The required boolean option `name`.
fn get_bool(options: &Vec<CommandOption>, name: &str) -> (r: Result<bool, ParseError>)
    ensures
        r == bool_option(options@, name@),
{
    match find_option(options, name) {
        None => Err(ParseError::MissingOption),
        Some(i) => match &options[i].value {
            OptionValue::Boolean(b) => Ok(*b),
            _ => Err(ParseError::WrongType),
        },
    }
}

/// The required entry identifier option `name`.
fn get_id(options: &Vec<CommandOption>, name: &str) -> (r: Result<u64, ParseError>)
    ensures
        r == id_option(options@, name@),
{
    match find_option(options, name) {
        None => Err(ParseError::MissingOption),
        Some(i) => match &options[i].value {
            OptionValue::Integer(n) => if *n >= 0 {
                Ok(*n as u64)
            } else {
                Err(ParseError::WrongType)
            },
            _ => Err(ParseError::WrongType),
        },
    }
}

/// Checks the command name and returns the subcommand chosen.
fn get_subcommand(input: &CommandInput) -> (r: Result<String, ParseError>)
    ensures
        match r {
            Ok(s) => checked_subcommand(*input) == Ok::<Seq<char>, ParseError>(s@),
            Err(e) => checked_subcommand(*input) == Err::<Seq<char>, ParseError>(e),
        },
{
    if input.name != String::from_str("fleet") {
        return Err(ParseError::UnknownCommand);
    }
    match &input.subcommand {
        None => Err(ParseError::MissingSubcommand),
        Some(s) => Ok(s.clone()),
    }
}

impl FleetCommand {
    /// The name under which the command is registered.
    pub const NAME: &'static str = "fleet";

    /// Decodes an interaction into a `fleet` subcommand.
    pub fn from_interaction(input: &CommandInput) -> (r: Result<FleetCommand, ParseError>)
        ensures
            r == parse_spec(*input),
    {
        let sub = match get_subcommand(input) {
            Err(e) => return Err(e),
            Ok(s) => s,
        };
        let opts = &input.options;
        if sub == String::from_str("add") {
            let m = match get_required_text(opts, "model") {
                Err(e) => return Err(e),
                Ok(m) => m,
            };
            match get_text(opts, "name") {
                Err(e) => Err(e),
                Ok(n) => Ok(FleetCommand::Add(AddCommand { ship_model: m, ship_name: n })),
            }
        } else if sub == String::from_str("list") {
            match get_user(opts, "user") {
                Err(e) => Err(e),
                Ok(u) => Ok(FleetCommand::List(ListCommand { user: u })),
            }
        } else if sub == String::from_str("remove") {
            match get_id(opts, "entry") {
                Err(e) => Err(e),
                Ok(id) => Ok(FleetCommand::Remove(RemoveCommand { entry_id: id })),
            }
        } else if sub == String::from_str("rename") {
            let id = match get_id(opts, "entry") {
                Err(e) => return Err(e),
                Ok(id) => id,
            };
            match get_required_text(opts, "name") {
                Err(e) => Err(e),
                Ok(n) => Ok(FleetCommand::Rename(RenameCommand { entry_id: id, new_name: n })),
            }
        } else if sub == String::from_str("show") {
            match get_bool(opts, "_dummy") {
                Err(e) => Err(e),
                Ok(b) => Ok(FleetCommand::Show(ShowCommand { dummy: b })),
            }
        } else {
            Err(ParseError::UnknownSubcommand)
        }
    }
}

impl FleetCommandPartial {
    /// Decodes an autocomplete interaction; options other than `add`'s
    /// `model` are not read, so an unfinished command still decodes.
    pub fn from_interaction(input: &CommandInput) -> (r: Result<FleetCommandPartial, ParseError>)
        ensures
            r == parse_partial_spec(*input),
    {
        let sub = match get_subcommand(input) {
            Err(e) => return Err(e),
            Ok(s) => s,
        };
        if sub == String::from_str("add") {
            match get_required_text(&input.options, "model") {
                Err(e) => Err(e),
                Ok(m) => Ok(FleetCommandPartial::Add(AddCommandPartial { ship_model: m })),
            }
        } else {
            Err(ParseError::UnknownSubcommand)
        }
    }
}

/// The kind of value an option takes.
#[derive(Debug, Clone, Copy, PartialEq, Eq, Structural)]
pub enum OptionKind {
    Text,
    Integer,
    Boolean,
    User,
}

/// How one option is registered.
#[derive(Debug)]
pub struct OptionDefinition {
    pub name: String,
    pub description: String,
    pub kind: OptionKind,
    pub required: bool,
    pub autocomplete: bool,
}

/// How one subcommand is registered.
#[derive(Debug)]
pub struct SubcommandDefinition {
    pub name: String,
    pub description: String,
    pub options: Vec<OptionDefinition>,
}

/// How one command is registered with the platform.
#[derive(Debug)]
pub struct CommandDefinition {
    pub name: String,
    pub description: String,
    pub subcommands: Vec<SubcommandDefinition>,
}

/// The option is registered under `name` with the given kind and flags.
pub open spec fn option_is(
    o: OptionDefinition,
    name: Seq<char>,
    kind: OptionKind,
    required: bool,
    autocomplete: bool,
) -> bool {
    o.name@ == name && o.kind == kind && o.required == required && o.autocomplete == autocomplete
}

/// The registration of `fleet` matches the schema that `parse_spec` decodes:
/// the five subcommands in order, each with the options it reads, and
/// autocompletion on `add`'s `model` alone.
pub open spec fn fleet_definition(c: CommandDefinition) -> bool {
    let subs = c.subcommands@;
    &&& c.name@ == "fleet"@
    &&& subs.len() == 5
    &&& subs[0].name@ == "add"@ && subs[0].options@.len() == 2
    &&& option_is(subs[0].options@[0], "model"@, OptionKind::Text, true, true)
    &&& option_is(subs[0].options@[1], "name"@, OptionKind::Text, false, false)
    &&& subs[1].name@ == "list"@ && subs[1].options@.len() == 1
    &&& option_is(subs[1].options@[0], "user"@, OptionKind::User, false, false)
    &&& subs[2].name@ == "remove"@ && subs[2].options@.len() == 1
    &&& option_is(subs[2].options@[0], "entry"@, OptionKind::Integer, true, false)
    &&& subs[3].name@ == "rename"@ && subs[3].options@.len() == 2
    &&& option_is(subs[3].options@[0], "entry"@, OptionKind::Integer, true, false)
    &&& option_is(subs[3].options@[1], "name"@, OptionKind::Text, true, false)
    &&& subs[4].name@ == "show"@ && subs[4].options@.len() == 1
    &&& option_is(subs[4].options@[0], "_dummy"@, OptionKind::Boolean, true, false)
}

fn option_def(name: &str, description: &str, kind: OptionKind, required: bool, autocomplete: bool) -> (r:
    OptionDefinition)
    ensures
        option_is(r, name@, kind, required, autocomplete),
{
    OptionDefinition {
        name: String::from_str(name),
        description: String::from_str(description),
        kind,
        required,
        autocomplete,
    }
}

fn subcommand_def(name: &str, description: &str, options: Vec<OptionDefinition>) -> (r: SubcommandDefinition)
    ensures
        r.name@ == name@,
        r.options@ == options@,
{
    SubcommandDefinition { name: String::from_str(name), description: String::from_str(description), options }
}

/// The registration of `fleet`.
pub fn fleet_command_definition() -> (r: CommandDefinition)
    ensures
        fleet_definition(r),
{
    let add = subcommand_def(
        "add",
        "Add a ship to your fleet.",
        vec![
            option_def("model", "The model of ship you want to add.", OptionKind::Text, true, true),
            option_def("name", "The name of the ship. (Optional)", OptionKind::Text, false, false),
        ],
    );
    let list = subcommand_def(
        "list",
        "Privately list the ships in your, or the specified user's, fleet.",
        vec![
            option_def("user", "The user who's fleet you'd like to see. (Optional)", OptionKind::User, false, false),
        ],
    );
    let remove = subcommand_def(
        "remove",
        "Remove a ship from your fleet.",
        vec![option_def("entry", "The number of the ship to remove.", OptionKind::Integer, true, false)],
    );
    let rename = subcommand_def(
        "rename",
        "Rename a ship in your fleet.",
        vec![
            option_def("entry", "The number of the ship to rename.", OptionKind::Integer, true, false),
            option_def("name", "The new name of the ship.", OptionKind::Text, true, false),
        ],
    );
    let show = subcommand_def(
        "show",
        "Show your fleet to the channel.",
        vec![option_def("_dummy", "A placeholder; set it true or false.", OptionKind::Boolean, true, false)],
    );
    CommandDefinition {
        name: String::from_str("fleet"),
        description: String::from_str("Manage or view your fleet, or show it off."),
        subcommands: vec![add, list, remove, rename, show],
    }
}

/// Every command, for bulk registration with the platform.
pub fn commands() -> (r: Vec<CommandDefinition>)
    ensures
        r@.len() == 1,
        fleet_definition(r@[0]),
{
    vec![fleet_command_definition()]
}

} // verus!
