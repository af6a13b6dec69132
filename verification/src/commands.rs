//! Slash commands: which command was invoked, its options, and who may use it.
use vstd::prelude::*;

use crate::text::same_text;

verus! {

/// The slash commands of the bot.
#[derive(Debug, Clone, Copy, PartialEq, Eq, Structural)]
pub enum SlashCommand {
    Approve,
    Decline,
    Transaction,
    Transactions,
    Give,
    Take,
    Leaderboard,
    Pending,
    Unknown,
}

/// The command with a name.
pub open spec fn command_named(name: Seq<char>) -> SlashCommand {
    if name == "approve"@ {
        SlashCommand::Approve
    } else if name == "decline"@ {
        SlashCommand::Decline
    } else if name == "transaction"@ {
        SlashCommand::Transaction
    } else if name == "transactions"@ {
        SlashCommand::Transactions
    } else if name == "give"@ {
        SlashCommand::Give
    } else if name == "take"@ {
        SlashCommand::Take
    } else if name == "leaderboard"@ {
        SlashCommand::Leaderboard
    } else if name == "pending"@ {
        SlashCommand::Pending
    } else {
        SlashCommand::Unknown
    }
}

/// The command with a name.
pub fn slash_command(name: &str) -> (c: SlashCommand)
    ensures
        c == command_named(name@),
{
    if same_text(name, "approve") {
        SlashCommand::Approve
    } else if same_text(name, "decline") {
        SlashCommand::Decline
    } else if same_text(name, "transaction") {
        SlashCommand::Transaction
    } else if same_text(name, "transactions") {
        SlashCommand::Transactions
    } else if same_text(name, "give") {
        SlashCommand::Give
    } else if same_text(name, "take") {
        SlashCommand::Take
    } else if same_text(name, "leaderboard") {
        SlashCommand::Leaderboard
    } else if same_text(name, "pending") {
        SlashCommand::Pending
    } else {
        SlashCommand::Unknown
    }
}

/// The reply to a command that the bot does not know.
pub fn unknown_command_reply() -> (s: String)
    ensures
        s@ == "Unknown command"@,
{
    String::from_str("Unknown command")
}

/// The value of a command option.
#[derive(Debug, Clone)]
pub enum OptionValue {
    Integer(i64),
    Text(String),
    Other,
}

/// A command option: its name and value.
#[derive(Debug, Clone)]
pub struct CommandOption {
    pub name: String,
    pub value: OptionValue,
}

/// The first option with a name.
pub open spec fn first_named(options: Seq<CommandOption>, name: Seq<char>) -> Option<CommandOption>
    decreases options.len(),
{
    if options.len() == 0 {
        None
    } else if options[0].name@ == name {
        Some(options[0])
    } else {
        first_named(options.drop_first(), name)
    }
}

proof fn lemma_first_named_skip(options: Seq<CommandOption>, name: Seq<char>, i: int)
    requires
        0 <= i <= options.len(),
        forall|j: int| 0 <= j < i ==> options[j].name@ != name,
    ensures
        first_named(options, name) == first_named(options.skip(i), name),
    decreases i,
{
    if i > 0 {
        let rest = options.drop_first();
        assert forall|j: int| 0 <= j < i - 1 implies rest[j].name@ != name by {
            assert(rest[j] == options[j + 1]);
        }
        lemma_first_named_skip(rest, name, i - 1);
        assert(rest.skip(i - 1) =~= options.skip(i));
    } else {
        assert(options.skip(0) =~= options);
    }
}

fn find_option<'a>(options: &'a Vec<CommandOption>, name: &str) -> (r: Option<&'a CommandOption>)
    ensures
        r matches Some(o) ==> first_named(options@, name@) == Some(*o),
        r is None ==> first_named(options@, name@) is None,
{
    let mut i: usize = 0;
    while i < options.len()
        invariant
            i <= options.len(),
            forall|j: int| 0 <= j < i ==> options@[j].name@ != name@,
        decreases options.len() - i,
    {
        if same_text(options[i].name.as_str(), name) {
            proof {
                lemma_first_named_skip(options@, name@, i as int);
                assert(options@.skip(i as int)[0] == options@[i as int]);
            }
            return Some(&options[i]);
        }
        i = i + 1;
    }
    proof {
        lemma_first_named_skip(options@, name@, i as int);
        assert(options@.skip(i as int).len() == 0);
    }
    None
}

/// The integer value of the first option with a name, if that option holds an integer.
pub open spec fn option_integer(options: Seq<CommandOption>, name: Seq<char>) -> Option<i64> {
    match first_named(options, name) {
        Some(o) => match o.value {
            OptionValue::Integer(v) => Some(v),
            _ => None,
        },
        None => None,
    }
}

/// The text value of the first option with a name, if that option holds a text.
pub open spec fn option_text(options: Seq<CommandOption>, name: Seq<char>) -> Option<Seq<char>> {
    match first_named(options, name) {
        Some(o) => match o.value {
            OptionValue::Text(s) => Some(s@),
            _ => None,
        },
        None => None,
    }
}

/// The integer value of the first option named `name`.
pub fn get_option_i64(options: &Vec<CommandOption>, name: &str) -> (r: Option<i64>)
    ensures
        r == option_integer(options@, name@),
{
    match find_option(options, name) {
        Some(o) => match &o.value {
            OptionValue::Integer(v) => Some(*v),
            _ => None,
        },
        None => None,
    }
}

/// The text value of the first option named `name`.
pub fn get_option_string(options: &Vec<CommandOption>, name: &str) -> (r: Option<String>)
    ensures
        r matches Some(s) ==> option_text(options@, name@) == Some(s@),
        r is None ==> option_text(options@, name@) is None,
{
    match find_option(options, name) {
        Some(o) => match &o.value {
            OptionValue::Text(s) => Some(s.clone()),
            _ => None,
        },
        None => None,
    }
}

/// An integer option read as the `i32` a command works with: cut to 32 bits, 0 when absent.
pub open spec fn option_number(v: Option<i64>) -> i32 {
    match v {
        Some(x) => x as i32,
        None => 0,
    }
}

/// An integer option read as the `i32` a command works with.
pub fn option_as_i32(v: Option<i64>) -> (n: i32)
    ensures
        n == option_number(v),
{
    match v {
        Some(x) => x as i32,
        None => 0,
    }
}

/// A text option, or the empty text when it is absent.
pub fn text_or_empty(v: Option<String>) -> (s: String)
    ensures
        s@ == (match v { Some(t) => t@, None => Seq::<char>::empty() }),
{
    match v {
        Some(t) => t,
        None => String::new(),
    }
}

/// Whether a member holds one of the allowed roles; with no role configured everyone may.
pub open spec fn role_allowed(member_roles: Seq<u64>, allowed_roles: Seq<u64>) -> bool {
    allowed_roles.len() == 0 || exists|i: int| 0 <= i < member_roles.len() && allowed_roles.contains(
        member_roles[i],
    )
}

/// Whether a member holds one of the allowed roles.
pub fn has_allowed_role(member_roles: &[u64], allowed_roles: &[u64]) -> (b: bool)
    ensures
        b == role_allowed(member_roles@, allowed_roles@),
{
    if allowed_roles.len() == 0 {
        return true;
    }
    let mut i: usize = 0;
    while i < member_roles.len()
        invariant
            i <= member_roles.len(),
            forall|k: int| 0 <= k < i ==> !allowed_roles@.contains(member_roles@[k]),
        decreases member_roles.len() - i,
    {
        let r = member_roles[i];
        let mut j: usize = 0;
        while j < allowed_roles.len()
            invariant
                j <= allowed_roles.len(),
                i < member_roles.len(),
                r == member_roles@[i as int],
                forall|k: int| 0 <= k < j ==> allowed_roles@[k] != r,
            decreases allowed_roles.len() - j,
        {
            if allowed_roles[j] == r {
                assert(allowed_roles@[j as int] == member_roles@[i as int]);
                assert(allowed_roles@.contains(member_roles@[i as int]));
                assert(0 <= i < member_roles@.len());
                return true;
            }
            j = j + 1;
        }
        i = i + 1;
    }
    false
}

/// Whether an interaction may go on: one that comes from a server member needs an allowed
/// role, one without member data is let through.
pub open spec fn may_interact(member_roles: Option<Seq<u64>>, allowed_roles: Seq<u64>) -> bool {
    match member_roles {
        Some(roles) => role_allowed(roles, allowed_roles),
        None => true,
    }
}

/// Whether an interaction may go on.
pub fn interaction_allowed(member_roles: Option<&[u64]>, allowed_roles: &[u64]) -> (b: bool)
    ensures
        b == may_interact(
            match member_roles {
                Some(r) => Some(r@),
                None => None,
            },
            allowed_roles@,
        ),
{
    match member_roles {
        Some(r) => has_allowed_role(r, allowed_roles),
        None => true,
    }
}

/// The reply to a member without an allowed role: for a command, or for a button.
pub fn permission_denied_reply(for_command: bool) -> (s: String)
    ensures
        s@ == if for_command {
            "You do not have permission to use this command."@
        } else {
            "You do not have permission to use this action."@
        },
{
    if for_command {
        String::from_str("You do not have permission to use this command.")
    } else {
        String::from_str("You do not have permission to use this action.")
    }
}


/// The type of a command option.
#[derive(Debug, Clone, Copy, PartialEq, Eq, Structural)]
pub enum OptionKind {
    Integer,
    Text,
}

/// A fixed choice offered for a text option: what is shown and what is sent.
#[derive(Debug, Clone)]
pub struct OptionChoice {
    pub label: String,
    pub value: String,
}

/// The definition of a command option.
#[derive(Debug, Clone)]
pub struct OptionSpec {
    pub kind: OptionKind,
    pub name: String,
    pub description: String,
    pub required: bool,
    pub choices: Vec<OptionChoice>,
}

/// The definition of a slash command.
#[derive(Debug, Clone)]
pub struct CommandSpec {
    pub name: String,
    pub description: String,
    pub options: Vec<OptionSpec>,
}

/// An option definition as texts.
pub struct OptionDef {
    pub kind: OptionKind,
    pub name: Seq<char>,
    pub description: Seq<char>,
    pub required: bool,
    pub choices: Seq<(Seq<char>, Seq<char>)>,
}

/// A command definition as texts.
pub struct CommandDef {
    pub name: Seq<char>,
    pub description: Seq<char>,
    pub options: Seq<OptionDef>,
}

impl View for OptionSpec {
    type V = OptionDef;

    open spec fn view(&self) -> OptionDef {
        OptionDef {
            kind: self.kind,
            name: self.name@,
            description: self.description@,
            required: self.required,
            choices: self.choices@.map_values(|c: OptionChoice| (c.label@, c.value@)),
        }
    }
}

/// The texts of a list of option definitions.
pub open spec fn option_defs(options: Seq<OptionSpec>) -> Seq<OptionDef> {
    options.map_values(|o: OptionSpec| o@)
}

impl View for CommandSpec {
    type V = CommandDef;

    open spec fn view(&self) -> CommandDef {
        CommandDef {
            name: self.name@,
            description: self.description@,
            options: option_defs(self.options@),
        }
    }
}

/// An option without fixed choices.
pub open spec fn plain_option(
    kind: OptionKind,
    name: Seq<char>,
    description: Seq<char>,
    required: bool,
) -> OptionDef {
    OptionDef { kind, name, description, required, choices: Seq::empty() }
}

/// The command that approves or declines a transaction: its id, and an optional reason.
pub open spec fn verdict_command(name: Seq<char>, description: Seq<char>) -> CommandDef {
    CommandDef {
        name,
        description,
        options: seq![
            plain_option(OptionKind::Integer, "id"@, "Transaction ID"@, true),
            plain_option(OptionKind::Text, "reason"@, "Optional reason"@, false),
        ],
    }
}

/// The command that adjusts a character's Alduin: its name, the amount, an optional comment.
pub open spec fn adjust_command(name: Seq<char>, description: Seq<char>) -> CommandDef {
    CommandDef {
        name,
        description,
        options: seq![
            plain_option(OptionKind::Text, "name"@, "Character name"@, true),
            plain_option(OptionKind::Integer, "amount"@, "Amount of Alduin"@, true),
            plain_option(OptionKind::Text, "comment"@, "Reason for the adjustment"@, false),
        ],
    }
}

/// The command that lists transactions, with its two optional filters.
pub open spec fn transactions_command() -> CommandDef {
    CommandDef {
        name: "transactions"@,
        description: "List transactions with optional filters"@,
        options: seq![
            OptionDef {
                kind: OptionKind::Text,
                name: "status"@,
                description: "Filter by status"@,
                required: false,
                choices: seq![
                    ("Pending"@, "pending"@),
                    ("Approved"@, "approved"@),
                    ("Cancelled"@, "cancelled"@),
                ],
            },
            plain_option(OptionKind::Text, "character"@, "Filter by character name"@, false),
        ],
    }
}

/// The slash commands that the bot registers, in order.
pub open spec fn command_table() -> Seq<CommandDef> {
    seq![
        verdict_command("approve"@, "Approve a pending Alduin transaction"@),
        verdict_command("decline"@, "Decline a pending Alduin transaction"@),
        CommandDef {
            name: "transaction"@,
            description: "Show details of a specific transaction"@,
            options: seq![plain_option(OptionKind::Integer, "id"@, "Transaction ID"@, true)],
        },
        transactions_command(),
        adjust_command("give"@, "Ad-hoc deposit of Alduin to a character"@),
        adjust_command("take"@, "Ad-hoc withdrawal of Alduin from a character"@),
        CommandDef {
            name: "leaderboard"@,
            description: "Top characters by Alduin amount"@,
            options: seq![
                plain_option(OptionKind::Integer, "page"@, "Page number (default 1)"@, false),
            ],
        },
        CommandDef {
            name: "pending"@,
            description: "List pending transactions with message links"@,
            options: Seq::empty(),
        },
    ]
}

fn option_spec(kind: OptionKind, name: &str, description: &str, required: bool) -> (o: OptionSpec)
    ensures
        o@ == plain_option(kind, name@, description@, required),
{
    let o = OptionSpec {
        kind,
        name: String::from_str(name),
        description: String::from_str(description),
        required,
        choices: Vec::new(),
    };
    assert(o@.choices =~= Seq::<(Seq<char>, Seq<char>)>::empty());
    o
}

fn push_option(options: &mut Vec<OptionSpec>, o: OptionSpec)
    ensures
        option_defs(final(options)@) == option_defs(old(options)@).push(o@),
{
    let ghost v = o@;
    options.push(o);
    assert(option_defs(final(options)@) =~= option_defs(old(options)@).push(v));
}

fn verdict_spec(name: &str, description: &str) -> (c: CommandSpec)
    ensures
        c@ == verdict_command(name@, description@),
{
    let mut options: Vec<OptionSpec> = Vec::new();
    push_option(&mut options, option_spec(OptionKind::Integer, "id", "Transaction ID", true));
    push_option(&mut options, option_spec(OptionKind::Text, "reason", "Optional reason", false));
    let c = CommandSpec {
        name: String::from_str(name),
        description: String::from_str(description),
        options,
    };
    assert(c@.options =~= verdict_command(name@, description@).options);
    c
}

fn adjust_spec(name: &str, description: &str) -> (c: CommandSpec)
    ensures
        c@ == adjust_command(name@, description@),
{
    let mut options: Vec<OptionSpec> = Vec::new();
    push_option(&mut options, option_spec(OptionKind::Text, "name", "Character name", true));
    push_option(&mut options, option_spec(OptionKind::Integer, "amount", "Amount of Alduin", true));
    push_option(
        &mut options,
        option_spec(OptionKind::Text, "comment", "Reason for the adjustment", false),
    );
    let c = CommandSpec {
        name: String::from_str(name),
        description: String::from_str(description),
        options,
    };
    assert(c@.options =~= adjust_command(name@, description@).options);
    c
}

fn transactions_spec() -> (c: CommandSpec)
    ensures
        c@ == transactions_command(),
{
    let mut choices: Vec<OptionChoice> = Vec::new();
    choices.push(OptionChoice { label: String::from_str("Pending"), value: String::from_str("pending") });
    choices.push(OptionChoice { label: String::from_str("Approved"), value: String::from_str("approved") });
    choices.push(OptionChoice { label: String::from_str("Cancelled"), value: String::from_str("cancelled") });
    let status = OptionSpec {
        kind: OptionKind::Text,
        name: String::from_str("status"),
        description: String::from_str("Filter by status"),
        required: false,
        choices,
    };
    assert(status@.choices =~= transactions_command().options[0].choices);
    let mut options: Vec<OptionSpec> = Vec::new();
    push_option(&mut options, status);
    push_option(
        &mut options,
        option_spec(OptionKind::Text, "character", "Filter by character name", false),
    );
    let c = CommandSpec {
        name: String::from_str("transactions"),
        description: String::from_str("List transactions with optional filters"),
        options,
    };
    assert(c@.options =~= transactions_command().options);
    c
}

fn single_option_spec(
    name: &str,
    description: &str,
    kind: OptionKind,
    option_name: &str,
    option_description: &str,
    required: bool,
) -> (c: CommandSpec)
    ensures
        c@ == (CommandDef {
            name: name@,
            description: description@,
            options: seq![plain_option(kind, option_name@, option_description@, required)],
        }),
{
    let mut options: Vec<OptionSpec> = Vec::new();
    push_option(&mut options, option_spec(kind, option_name, option_description, required));
    let c = CommandSpec {
        name: String::from_str(name),
        description: String::from_str(description),
        options,
    };
    assert(c@.options =~= seq![plain_option(kind, option_name@, option_description@, required)]);
    c
}

/// The slash commands that the bot registers.
pub fn command_definitions() -> (v: Vec<CommandSpec>)
    ensures
        v@.map_values(|c: CommandSpec| c@) == command_table(),
{
    let mut v: Vec<CommandSpec> = Vec::new();
    v.push(verdict_spec("approve", "Approve a pending Alduin transaction"));
    v.push(verdict_spec("decline", "Decline a pending Alduin transaction"));
    v.push(
        single_option_spec(
            "transaction",
            "Show details of a specific transaction",
            OptionKind::Integer,
            "id",
            "Transaction ID",
            true,
        ),
    );
    v.push(transactions_spec());
    v.push(adjust_spec("give", "Ad-hoc deposit of Alduin to a character"));
    v.push(adjust_spec("take", "Ad-hoc withdrawal of Alduin from a character"));
    v.push(
        single_option_spec(
            "leaderboard",
            "Top characters by Alduin amount",
            OptionKind::Integer,
            "page",
            "Page number (default 1)",
            false,
        ),
    );
    let pending = CommandSpec {
        name: String::from_str("pending"),
        description: String::from_str("List pending transactions with message links"),
        options: Vec::new(),
    };
    assert(pending@.options =~= Seq::<OptionDef>::empty());
    v.push(pending);
    assert(v@.map_values(|c: CommandSpec| c@) =~= command_table());
    v
}

} // verus!
