use vstd::prelude::*;

use crate::text::{push_text, same_text, text_of};

pub mod join;
pub mod pause;
pub mod play;
pub mod queue;
pub mod resume;
pub mod skip;
pub mod test_command;

verus! {

/// The slash commands that the bot answers.
#[derive(PartialEq, Eq, Structural, Debug, Clone, Copy)]
pub enum Command {
    TestCommand,
    Play,
    Join,
    Skip,
    Resume,
    Pause,
    Queue,
}

/// The kind of value that a command option takes.
#[derive(PartialEq, Eq, Structural, Debug, Clone, Copy)]
pub enum OptionKind {
    Text,
    User,
}

/// An option of a slash command, as it is registered.
pub struct OptionSpec {
    pub name: String,
    pub description: String,
    pub kind: OptionKind,
    pub required: bool,
}

/// A slash command, as it is registered.
pub struct CommandSpec {
    pub name: String,
    pub description: String,
    pub options: Vec<OptionSpec>,
}

/// The resolved value of an option that a user gave a command.
pub enum OptionValue {
    Text(String),
    User { name: String },
    Other,
}

/// The error message for a guild where the bot has no voice session.
pub open spec fn not_in_voice_message() -> Seq<char> {
    "Ты не в голосовом канале!"@
}

/// An error outcome with the message `text`.
pub(crate) fn fail_with(text: &str) -> (r: Result<Option<String>, Option<String>>)
    ensures
        r matches Err(Some(m)) && m@ == text@,
{
    Err(Some(text_of(text)))
}

/// A success outcome with the message `text`.
pub(crate) fn succeed_with(text: &str) -> (r: Result<Option<String>, Option<String>>)
    ensures
        r matches Ok(Some(m)) && m@ == text@,
{
    Ok(Some(text_of(text)))
}

/// A registration with no options.
pub(crate) fn plain_command(name: &str, description: &str) -> (r: CommandSpec)
    ensures
        r.name@ == name@,
        r.description@ == description@,
        r.options@.len() == 0,
{
    CommandSpec { name: text_of(name), description: text_of(description), options: Vec::new() }
}

/// A registration with one option.
pub(crate) fn command_with_option(
    name: &str,
    description: &str,
    option_name: &str,
    option_description: &str,
    kind: OptionKind,
    required: bool,
) -> (r: CommandSpec)
    ensures
        r.name@ == name@,
        r.description@ == description@,
        r.options@.len() == 1,
        r.options@[0].name@ == option_name@,
        r.options@[0].description@ == option_description@,
        r.options@[0].kind == kind,
        r.options@[0].required == required,
{
    let mut options: Vec<OptionSpec> = Vec::new();
    options.push(
        OptionSpec {
            name: text_of(option_name),
            description: text_of(option_description),
            kind,
            required,
        },
    );
    CommandSpec { name: text_of(name), description: text_of(description), options }
}

/// The name under which `c` is registered and invoked.
pub open spec fn command_name(c: Command) -> Seq<char> {
    match c {
        Command::TestCommand => "test_command"@,
        Command::Play => "play"@,
        Command::Join => "join"@,
        Command::Skip => "skip"@,
        Command::Resume => "resume"@,
        Command::Pause => "pause"@,
        Command::Queue => "queue"@,
    }
}

/// The command invoked under `name`, if any.
pub open spec fn spec_parse_command(name: Seq<char>) -> Option<Command> {
    if name == "test_command"@ {
        Some(Command::TestCommand)
    } else if name == "play"@ {
        Some(Command::Play)
    } else if name == "join"@ {
        Some(Command::Join)
    } else if name == "skip"@ {
        Some(Command::Skip)
    } else if name == "resume"@ {
        Some(Command::Resume)
    } else if name == "pause"@ {
        Some(Command::Pause)
    } else if name == "queue"@ {
        Some(Command::Queue)
    } else {
        None
    }
}

/// Finds the command invoked under `name`.
pub fn parse_command(name: &str) -> (r: Option<Command>)
    ensures
        r == spec_parse_command(name@),
{
    if same_text(name, "test_command") {
        Some(Command::TestCommand)
    } else if same_text(name, "play") {
        Some(Command::Play)
    } else if same_text(name, "join") {
        Some(Command::Join)
    } else if same_text(name, "skip") {
        Some(Command::Skip)
    } else if same_text(name, "resume") {
        Some(Command::Resume)
    } else if same_text(name, "pause") {
        Some(Command::Pause)
    } else if same_text(name, "queue") {
        Some(Command::Queue)
    } else {
        None
    }
}

/// The error message for a name that no command has.
pub open spec fn unknown_command_message() -> Seq<char> {
    "Такой комманды нет!"@
}

/// The outcome of invoking a name that no command has.
pub fn unknown_command() -> (r: Result<Option<String>, Option<String>>)
    ensures
        r matches Err(Some(m)) && m@ == unknown_command_message(),
{
    Err(Some(text_of("Такой комманды нет!")))
}

/// What the bot writes in reply to a command's outcome: a success message as
/// it is, an error message after the error marker, and nothing where the
/// outcome carries no message.
pub open spec fn reply_for(outcome: Result<Option<Seq<char>>, Option<Seq<char>>>) -> Option<Seq<char>> {
    match outcome {
        Ok(Some(m)) => Some(m),
        Err(Some(m)) => Some("🚀Ошибка: "@ + m),
        _ => None,
    }
}

/// The outcome with its messages taken by their text.
pub open spec fn outcome_view(outcome: Result<Option<String>, Option<String>>) -> Result<Option<Seq<char>>, Option<Seq<char>>> {
    match outcome {
        Ok(Some(m)) => Ok(Some(m@)),
        Ok(None) => Ok(None),
        Err(Some(m)) => Err(Some(m@)),
        Err(None) => Err(None),
    }
}

/// Turns a command's outcome into the text of the reply, if there is one.
pub fn response_text(outcome: Result<Option<String>, Option<String>>) -> (r: Option<String>)
    ensures
        r matches Some(t) ==> reply_for(outcome_view(outcome)) == Some(t@),
        r is None ==> reply_for(outcome_view(outcome)) is None,
{
    match outcome {
        Ok(Some(m)) => Some(m),
        Err(Some(m)) => {
            let mut t = text_of("🚀Ошибка: ");
            push_text(&mut t, m.as_str());
            Some(t)
        },
        _ => None,
    }
}

/// The description under which `c` is registered.
pub open spec fn command_description(c: Command) -> Seq<char> {
    match c {
        Command::TestCommand => "just a test command"@,
        Command::Play => "Play music from youtube"@,
        Command::Join => "Join to your voice channel"@,
        Command::Skip => "Skip current track"@,
        Command::Resume => "Resume bot"@,
        Command::Pause => "Pause bot"@,
        Command::Queue => "Show queue"@,
    }
}

/// `r` has exactly one option, with these fields.
pub open spec fn has_single_option(
    r: CommandSpec,
    name: Seq<char>,
    description: Seq<char>,
    kind: OptionKind,
    required: bool,
) -> bool {
    &&& r.options@.len() == 1
    &&& r.options@[0].name@ == name
    &&& r.options@[0].description@ == description
    &&& r.options@[0].kind == kind
    &&& r.options@[0].required == required
}

/// `r` is the registration of `c`: its name, its description, and its
/// options (a required text query for `/play`, an optional user for
/// `/test_command`, none for the others).
pub open spec fn registers(c: Command, r: CommandSpec) -> bool {
    &&& r.name@ == command_name(c)
    &&& r.description@ == command_description(c)
    &&& match c {
        Command::Play => has_single_option(
            r,
            "url_or_name"@,
            "url to song or song name"@,
            OptionKind::Text,
            true,
        ),
        Command::TestCommand => has_single_option(
            r,
            "test_option"@,
            "just a test option"@,
            OptionKind::User,
            false,
        ),
        _ => r.options@.len() == 0,
    }
}

/// How `c` is registered.
pub fn register(c: Command) -> (r: CommandSpec)
    ensures
        registers(c, r),
{
    match c {
        Command::TestCommand => test_command::register(),
        Command::Play => play::register(),
        Command::Join => join::register(),
        Command::Skip => skip::register(),
        Command::Resume => resume::register(),
        Command::Pause => pause::register(),
        Command::Queue => queue::register(),
    }
}

/// The commands in the order in which they are registered when the bot comes online.
pub open spec fn registration_order() -> Seq<Command> {
    seq![
        Command::TestCommand,
        Command::Play,
        Command::Join,
        Command::Skip,
        Command::Resume,
        Command::Pause,
        Command::Queue,
    ]
}

/// The registrations of all commands, in registration order.
pub fn registered_commands() -> (r: Vec<CommandSpec>)
    ensures
        r@.len() == registration_order().len(),
        forall|i: int| 0 <= i < r@.len() ==> registers(registration_order()[i], #[trigger] r@[i]),
{
    let mut r: Vec<CommandSpec> = Vec::new();
    r.push(register(Command::TestCommand));
    r.push(register(Command::Play));
    r.push(register(Command::Join));
    r.push(register(Command::Skip));
    r.push(register(Command::Resume));
    r.push(register(Command::Pause));
    r.push(register(Command::Queue));
    r
}

/// Every command is invoked under the name it is registered with: parsing
/// that name gives back the command.
pub proof fn lemma_names_dispatch(c: Command)
    ensures
        spec_parse_command(command_name(c)) == Some(c),
{
    reveal_strlit("test_command");
    reveal_strlit("play");
    reveal_strlit("join");
    reveal_strlit("skip");
    reveal_strlit("resume");
    reveal_strlit("pause");
    reveal_strlit("queue");
    let names = seq!["test_command"@, "play"@, "join"@, "skip"@, "resume"@, "pause"@, "queue"@];
    assert forall|i: int, j: int| 0 <= i < j < 7 implies names[i] != names[j] by {
        if names[i].len() == names[j].len() {
            assert(names[i][0] != names[j][0]);
        }
    }
}

/// No two commands share a name.
pub proof fn lemma_names_distinct(a: Command, b: Command)
    ensures
        command_name(a) == command_name(b) ==> a == b,
{
    lemma_names_dispatch(a);
    lemma_names_dispatch(b);
}

} // verus!
