//! The console front end's top-level commands and its main loop's decisions.

use vstd::prelude::*;

verus! {

/// The name under which the action commands are reached.
pub open spec fn action_name() -> Seq<char> {
    "action"@
}

/// The name under which the key commands are reached.
pub open spec fn key_name() -> Seq<char> {
    "key"@
}

/// The top-level choice, each with the arguments of what was chosen under
/// it.
#[derive(Clone, Debug, PartialEq, Eq)]
pub enum Commands {
    /// Action
    Action(Vec<String>),
    /// Add, View or Remove key
    Key(Vec<String>),
}

/// A complete command as the user composed it.
#[derive(Clone, Debug, PartialEq, Eq)]
pub struct TLCommand {
    pub top_level: Commands,
}

/// The mathematical value of a list of words.
pub open spec fn words(list: Seq<String>) -> Seq<Seq<char>> {
    list.map_values(|w: String| w@)
}

/// The arguments that reproduce a command: the name of the top-level
/// choice, then the arguments below it.
pub open spec fn cli_args(command: Commands) -> Seq<Seq<char>> {
    match command {
        Commands::Action(args) => seq![action_name()] + words(args@),
        Commands::Key(args) => seq![key_name()] + words(args@),
    }
}

fn prefixed(name: &str, args: &Vec<String>) -> (all: Vec<String>)
    ensures
        words(all@) == seq![name@] + words(args@),
{
    let mut all: Vec<String> = Vec::new();
    all.push(name.to_owned());
    let mut i: usize = 0;
    while i < args.len()
        invariant
            i <= args@.len(),
            words(all@) == seq![name@] + words(args@.take(i as int)),
        decreases args@.len() - i,
    {
        let ghost before = all@;
        all.push(args[i].clone());
        assert(words(all@) =~= words(before).push(args@[i as int]@));
        assert(words(args@.take(i + 1)) =~= words(args@.take(i as int)).push(args@[i as int]@));
        i += 1;
    }
    assert(args@.take(i as int) =~= args@);
    all
}

impl Commands {
    /// The arguments that reproduce this command on the command line.
    pub fn to_cli_args(&self) -> (args: Vec<String>)
        ensures
            words(args@) == cli_args(*self),
    {
        match self {
            Commands::Action(rest) => prefixed("action", rest),
            Commands::Key(rest) => prefixed("key", rest),
        }
    }
}

impl TLCommand {
    /// The arguments that reproduce this command on the command line.
    pub fn to_cli_args(&self) -> (args: Vec<String>)
        ensures
            words(args@) == cli_args(self.top_level),
    {
        self.top_level.to_cli_args()
    }
}

/// The words joined into one command line, each quoted as a Unix shell
/// needs it.
pub uninterp spec fn shell_joined(words: Seq<Seq<char>>) -> Seq<char>;

/// `shell_words::join`: the result is the command line of the words, as a
/// function of the words alone.
#[verifier::external_body]
pub(crate) fn join_words(list: &Vec<String>) -> (line: String)
    ensures
        line@ == shell_joined(words(list@)),
{
    shell_words::join(list)
}

/// How an interactive composition of a command ended.
#[derive(Clone, Debug, PartialEq, Eq)]
pub enum CliResult {
    /// The command is complete.
    Complete(TLCommand),
    /// The user cancelled, perhaps with a command composed so far.
    Cancel(Option<TLCommand>),
    /// The user went back to the start.
    Back,
    /// The composition failed, perhaps with a command composed so far.
    Failed(Option<TLCommand>, String),
}

/// What the main loop does after a composition.
#[derive(Clone, Debug, PartialEq, Eq)]
pub enum CliStep {
    /// Show the command line and end well.
    Exit { command_line: String },
    /// Say goodbye and end well.
    Goodbye,
    /// Compose again.
    Again,
    /// Show the command line, if there is one, and end with the error.
    Fail { command_line: Option<String>, error: String },
}

/// The mathematical value of a [`CliStep`].
pub enum CliStepView {
    Exit { command_line: Seq<char> },
    Goodbye,
    Again,
    Fail { command_line: Option<Seq<char>>, error: Seq<char> },
}

impl View for CliStep {
    type V = CliStepView;

    open spec fn view(&self) -> CliStepView {
        match *self {
            CliStep::Exit { command_line } => CliStepView::Exit { command_line: command_line@ },
            CliStep::Goodbye => CliStepView::Goodbye,
            CliStep::Again => CliStepView::Again,
            CliStep::Fail { command_line, error } => CliStepView::Fail {
                command_line: match command_line {
                    Some(line) => Some(line@),
                    None => None,
                },
                error: error@,
            },
        }
    }
}

/// The command line that reproduces a command: the program's path, then
/// the command's arguments, joined for a shell.
pub open spec fn command_line_of(exec_path: Seq<char>, command: TLCommand) -> Seq<char> {
    shell_joined(seq![exec_path] + cli_args(command.top_level))
}

/// What the main loop does after a composition ended in the given way.
pub open spec fn step_of(exec_path: Seq<char>, result: CliResult) -> CliStepView {
    match result {
        CliResult::Complete(command) => CliStepView::Exit {
            command_line: command_line_of(exec_path, command),
        },
        CliResult::Cancel(Some(command)) => CliStepView::Exit {
            command_line: command_line_of(exec_path, command),
        },
        CliResult::Cancel(None) => CliStepView::Goodbye,
        CliResult::Back => CliStepView::Again,
        CliResult::Failed(command, error) => CliStepView::Fail {
            command_line: match command {
                Some(c) => Some(command_line_of(exec_path, c)),
                None => None,
            },
            error: error@,
        },
    }
}

/// The command line that reproduces a command.
pub fn console_command(exec_path: &str, command: &TLCommand) -> (line: String)
    ensures
        line@ == command_line_of(exec_path@, *command),
{
    let args = command.to_cli_args();
    let all = prefixed(exec_path, &args);
    join_words(&all)
}

/// Decides what the main loop does after a composition.
pub fn next_step(exec_path: &str, result: CliResult) -> (step: CliStep)
    ensures
        step@ == step_of(exec_path@, result),
{
    match result {
        CliResult::Complete(command) => CliStep::Exit {
            command_line: console_command(exec_path, &command),
        },
        CliResult::Cancel(Some(command)) => CliStep::Exit {
            command_line: console_command(exec_path, &command),
        },
        CliResult::Cancel(None) => CliStep::Goodbye,
        CliResult::Back => CliStep::Again,
        CliResult::Failed(command, error) => {
            let command_line = match command {
                Some(c) => Some(console_command(exec_path, &c)),
                None => None,
            };
            CliStep::Fail { command_line, error }
        },
    }
}

} // verus!
