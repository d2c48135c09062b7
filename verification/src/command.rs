//! Commands and shells that a terminal tab runs.

use crate::error::{outcome, StartupError};
use crate::name_map::EnvVars;
use crate::text::{
    characters, copy_text, copy_texts, is_white_space, join, joined, quote, quoted, trim, trimmed,
    white_space,
};
use vstd::prelude::*;
use vstd::string::*;

verus! {

/// What a terminal tab runs when it runs no command.
#[derive(Clone, Debug, PartialEq, Eq)]
pub enum Shell {
    /// The user's login shell.
    System,
    /// A program without arguments.
    Program(String),
    /// A program with arguments.
    WithArguments { program: String, args: Vec<String>, title_override: Option<String> },
}

/// A [`Shell`] as mathematical values.
#[verifier::ext_equal]
pub enum ShellView {
    System,
    Program(Seq<char>),
    WithArguments {
        program: Seq<char>,
        args: Seq<Seq<char>>,
        title_override: Option<Seq<char>>,
    },
}

impl View for Shell {
    type V = ShellView;

    open spec fn view(&self) -> ShellView {
        match self {
            Shell::System => ShellView::System,
            Shell::Program(program) => ShellView::Program(program@),
            Shell::WithArguments { program, args, title_override } => ShellView::WithArguments {
                program: program@,
                args: args.deep_view(),
                title_override: title_override.deep_view(),
            },
        }
    }
}

impl DeepView for Shell {
    type V = ShellView;

    open spec fn deep_view(&self) -> ShellView {
        self@
    }
}

/// A command of a terminal tab.
#[derive(Clone, Debug, PartialEq, Eq)]
pub struct LaunchCommand {
    pub program: String,
    pub args: Vec<String>,
}

/// A [`LaunchCommand`] as mathematical values.
#[verifier::ext_equal]
pub struct LaunchCommandView {
    pub program: Seq<char>,
    pub args: Seq<Seq<char>>,
}

impl View for LaunchCommand {
    type V = LaunchCommandView;

    open spec fn view(&self) -> LaunchCommandView {
        LaunchCommandView { program: self.program@, args: self.args.deep_view() }
    }
}

impl DeepView for LaunchCommand {
    type V = LaunchCommandView;

    open spec fn deep_view(&self) -> LaunchCommandView {
        self@
    }
}

impl Shell {
    /// A copy of this shell.
    pub fn copy(&self) -> (r: Self)
        ensures
            r@ == self@,
    {
        match self {
            Shell::System => Shell::System,
            Shell::Program(program) => Shell::Program(program.clone()),
            Shell::WithArguments { program, args, title_override } => Shell::WithArguments {
                program: program.clone(),
                args: copy_texts(args),
                title_override: copy_text(title_override),
            },
        }
    }
}

/// The first of `words` as the program, the others as its arguments.
pub open spec fn command_of(words: Seq<Seq<char>>) -> Option<LaunchCommandView> {
    if words.len() == 0 {
        None
    } else {
        Some(LaunchCommandView { program: words[0], args: words.skip(1) })
    }
}

/// The words of a line by the quoting rules of a POSIX shell, or none where
/// the line breaks those rules, as `shlex::split` gives them.
pub uninterp spec fn shell_words(line: Seq<char>) -> Option<Seq<Seq<char>>>;

/// `shlex::split`: the words of a line by the quoting rules of a POSIX shell.
/// The result is a function of the line alone.
#[verifier::external_body]
fn split_words(line: &str) -> (r: Option<Vec<String>>)
    ensures
        r.deep_view() == shell_words(line@),
{
    shlex::split(line)
}

/// The command of a command line whose words are known.
pub open spec fn command_from_words(line: Seq<char>, words: Option<Seq<Seq<char>>>) -> Result<
    LaunchCommandView,
    Seq<Seq<char>>,
> {
    match words {
        Some(words) => match command_of(words) {
            Some(command) => Ok(command),
            None => Err(seq!["command line is empty"@]),
        },
        None => Err(seq!["could not parse command line: "@ + quoted(line)]),
    }
}

/// The command of a command line.
pub open spec fn command_from_line(line: Seq<char>) -> Result<LaunchCommandView, Seq<Seq<char>>> {
    command_from_words(line, shell_words(line))
}

/// `part` with a backslash before each double quote.
pub open spec fn with_escaped_quotes(part: Seq<char>) -> Seq<char>
    decreases part.len(),
{
    if part.len() == 0 {
        Seq::empty()
    } else if part.last() == '"' {
        with_escaped_quotes(part.drop_last()) + seq!['\\', '"']
    } else {
        with_escaped_quotes(part.drop_last()).push(part.last())
    }
}

/// How one word of a command is shown: in quotes where it would not read as
/// one word.
pub open spec fn command_part(part: Seq<char>) -> Seq<char> {
    if part.len() == 0 || exists|i: int| 0 <= i < part.len() && white_space(#[trigger] part[i]) {
        seq!['"'] + with_escaped_quotes(part) + seq!['"']
    } else {
        part
    }
}

/// How a program and its arguments are shown.
pub open spec fn command_label(program: Seq<char>, args: Seq<Seq<char>>) -> Seq<char> {
    joined((seq![program] + args).map_values(|part: Seq<char>| command_part(part)), " "@)
}

/// How one word of a command is shown.
pub fn format_command_part(part: &str) -> (r: String)
    ensures
        r@ == command_part(part@),
{
    let chars = characters(part);
    let mut spaced = chars.len() == 0;
    let mut escaped = String::new();
    escaped.push('"');
    let mut i: usize = 0;
    proof {
        assert(part@.take(0) =~= Seq::<char>::empty());
        assert(escaped@ =~= seq!['"'] + with_escaped_quotes(part@.take(0)));
    }
    while i < chars.len()
        invariant
            chars@ == part@,
            i <= part@.len(),
            spaced == (part@.len() == 0 || exists|j: int|
                0 <= j < i && white_space(#[trigger] part@[j])),
            escaped@ == seq!['"'] + with_escaped_quotes(part@.take(i as int)),
        decreases part@.len() - i,
    {
        let c: char = chars[i];
        let ghost before = escaped@;
        if c == '"' {
            escaped.push('\\');
        }
        escaped.push(c);
        if is_white_space(c) {
            spaced = true;
            proof {
                assert(white_space(part@[i as int]));
            }
        }
        proof {
            assert(part@.take(i + 1).drop_last() =~= part@.take(i as int));
            assert(escaped@ =~= seq!['"'] + with_escaped_quotes(part@.take(i + 1)));
        }
        i = i + 1;
    }
    if spaced {
        escaped.push('"');
        proof {
            assert(part@.take(part@.len() as int) =~= part@);
            assert(escaped@ =~= seq!['"'] + with_escaped_quotes(part@) + seq!['"']);
        }
        escaped
    } else {
        part.to_owned()
    }
}

/// How a program and its arguments are shown.
pub fn format_command(program: &str, args: &Vec<String>) -> (r: String)
    ensures
        r@ == command_label(program@, args.deep_view()),
{
    let ghost shown = (seq![program@] + args.deep_view()).map_values(
        |part: Seq<char>| command_part(part),
    );
    let mut parts: Vec<String> = Vec::new();
    parts.push(format_command_part(program));
    let mut i: usize = 0;
    while i < args.len()
        invariant
            i <= args@.len(),
            shown == (seq![program@] + args.deep_view()).map_values(
                |part: Seq<char>| command_part(part),
            ),
            parts.deep_view() == shown.take(i + 1),
        decreases args@.len() - i,
    {
        let ghost before = parts.deep_view();
        parts.push(format_command_part(args[i].as_str()));
        i = i + 1;
        proof {
            assert(parts.deep_view() =~= before.push(shown[i as int]));
            assert(shown.take(i + 1) =~= shown.take(i as int).push(shown[i as int]));
        }
    }
    proof {
        assert(shown.take(shown.len() as int) =~= shown);
    }
    join(&parts, " ")
}

impl LaunchCommand {
    /// A copy of this command.
    pub fn copy(&self) -> (r: Self)
        ensures
            r@ == self@,
    {
        LaunchCommand { program: self.program.clone(), args: copy_texts(&self.args) }
    }

    /// The first argument as the program, the others as its arguments.
    pub fn from_args(args: Vec<String>) -> (r: Option<Self>)
        ensures
            r.deep_view() == command_of(args.deep_view()),
    {
        if args.len() == 0 {
            None
        } else {
            let ghost words = args.deep_view();
            let mut args = args;
            let program = args.remove(0);
            proof {
                assert(args.deep_view() =~= words.skip(1));
            }
            Some(LaunchCommand { program, args })
        }
    }

    /// The command of a line whose words are known.
    pub fn from_words(command_line: &str, words: Option<Vec<String>>) -> (r: Result<
        Self,
        StartupError,
    >)
        ensures
            outcome(r) == command_from_words(command_line@, words.deep_view()),
    {
        match words {
            Some(words) => match Self::from_args(words) {
                Some(command) => Ok(command),
                None => Err(StartupError::from_text("command line is empty")),
            },
            None => Err(
                StartupError::new(
                    "could not parse command line: ".to_owned().concat(
                        quote(command_line).as_str(),
                    ),
                ),
            ),
        }
    }

    /// The command of a line, split by the quoting rules of a POSIX shell.
    pub fn from_command_line(command_line: &str) -> (r: Result<Self, StartupError>)
        ensures
            outcome(r) == command_from_line(command_line@),
    {
        Self::from_words(command_line, split_words(command_line))
    }

    /// How the command is shown.
    pub fn display_label(&self) -> (r: String)
        ensures
            r@ == command_label(self@.program, self@.args),
    {
        format_command(self.program.as_str(), &self.args)
    }
}

/// When the terminal that runs a task is brought into view.
#[derive(Clone, Copy, Debug, PartialEq, Eq, Structural)]
pub enum RevealStrategy {
    Always,
    NoFocus,
    Never,
}

/// Where the terminal that runs a task is shown.
#[derive(Clone, Copy, Debug, PartialEq, Eq, Structural)]
pub enum RevealTarget {
    Center,
    Dock,
}

/// When the terminal that ran a task is hidden again.
#[derive(Clone, Copy, Debug, PartialEq, Eq, Structural)]
pub enum HideStrategy {
    Never,
    Always,
    OnSuccess,
}

/// Which edited files are saved before a task runs.
#[derive(Clone, Copy, Debug, PartialEq, Eq, Structural)]
pub enum SaveStrategy {
    All,
    Current,
    Nothing,
}

/// A task for a terminal to run.
#[derive(Clone, Debug, PartialEq, Eq)]
pub struct SpawnInTerminal {
    pub id: String,
    pub full_label: String,
    pub label: String,
    pub command: Option<String>,
    pub args: Vec<String>,
    pub command_label: String,
    pub cwd: Option<String>,
    pub env: EnvVars,
    pub use_new_terminal: bool,
    pub allow_concurrent_runs: bool,
    pub reveal: RevealStrategy,
    pub reveal_target: RevealTarget,
    pub hide: HideStrategy,
    pub shell: Shell,
    pub show_summary: bool,
    pub show_command: bool,
    pub show_rerun: bool,
    pub save: SaveStrategy,
}

/// Whether a task runs this command in this directory with these variables:
/// always in a terminal of its own, which stays open once the command is done.
pub open spec fn runs_command(
    task: SpawnInTerminal,
    command: LaunchCommandView,
    cwd: Option<Seq<char>>,
    env: Map<Seq<char>, Seq<char>>,
) -> bool {
    let label = command_label(command.program, command.args);
    &&& task.id@ == "zed-terminal:"@ + label
    &&& task.full_label@ == label
    &&& task.label@ == label
    &&& task.command_label@ == label
    &&& task.command.deep_view() == Some(command.program)
    &&& task.args.deep_view() == command.args
    &&& task.cwd.deep_view() == cwd
    &&& task.env@ == env
    &&& task.use_new_terminal
    &&& task.allow_concurrent_runs
    &&& task.reveal == RevealStrategy::Always
    &&& task.reveal_target == RevealTarget::Center
    &&& task.hide == HideStrategy::Never
    &&& task.shell@ == ShellView::System
    &&& task.show_summary
    &&& task.show_command
    &&& !task.show_rerun
    &&& task.save == SaveStrategy::Nothing
}

impl LaunchCommand {
    /// The task that runs this command in `cwd` with `env`: always in a
    /// terminal of its own, which stays open once the command is done.
    pub fn into_spawn_task(self, cwd: Option<String>, env: EnvVars) -> (r: SpawnInTerminal)
        ensures
            runs_command(r, self@, cwd.deep_view(), env@),
    {
        let label = self.display_label();

        SpawnInTerminal {
            id: "zed-terminal:".to_owned().concat(label.as_str()),
            full_label: label.clone(),
            label: label.clone(),
            command: Some(self.program),
            args: self.args,
            command_label: label,
            cwd,
            env,
            use_new_terminal: true,
            allow_concurrent_runs: true,
            reveal: RevealStrategy::Always,
            reveal_target: RevealTarget::Center,
            hide: HideStrategy::Never,
            shell: Shell::System,
            show_summary: true,
            show_command: true,
            show_rerun: false,
            save: SaveStrategy::Nothing,
        }
    }
}

/// A shell's program without surrounding white space.
pub open spec fn shell_program(program: Seq<char>) -> Result<Seq<char>, Seq<Seq<char>>> {
    if trimmed(program).len() == 0 {
        Err(seq!["shell program is empty"@])
    } else {
        Ok(trimmed(program))
    }
}

/// A shell's program without surrounding white space; it may not be blank.
pub fn normalize_terminal_shell_program(program: &str) -> (r: Result<String, StartupError>)
    ensures
        outcome(r) == shell_program(program@),
{
    let program = trim(program);
    if program.is_empty() {
        Err(StartupError::from_text("shell program is empty"))
    } else {
        Ok(program.to_owned())
    }
}

} // verus!
