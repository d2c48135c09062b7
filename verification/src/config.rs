//! The startup configuration: the layout a window opens with, and the named
//! profiles that offer others.

use crate::command::{normalize_terminal_shell_program, shell_program, Shell, ShellView};
use crate::error::{outcome, StartupError};
use crate::name_map::{EnvVars, NameMap};
use crate::text::copy_texts;
use vstd::prelude::*;
use vstd::string::*;

verus! {

/// Where a split opens its pane.
#[derive(Clone, Copy, Debug, PartialEq, Eq, Structural)]
pub enum TerminalStartupSplitDirection {
    Up,
    Down,
    Left,
    Right,
}

impl DeepView for TerminalStartupSplitDirection {
    type V = TerminalStartupSplitDirection;

    open spec fn deep_view(&self) -> TerminalStartupSplitDirection {
        *self
    }
}

/// The name of a split direction.
pub open spec fn direction_name(direction: TerminalStartupSplitDirection) -> Seq<char> {
    match direction {
        TerminalStartupSplitDirection::Up => "up"@,
        TerminalStartupSplitDirection::Down => "down"@,
        TerminalStartupSplitDirection::Left => "left"@,
        TerminalStartupSplitDirection::Right => "right"@,
    }
}

impl TerminalStartupSplitDirection {
    /// The name of the direction.
    pub fn as_str(self) -> (r: &'static str)
        ensures
            r@ == direction_name(self),
    {
        match self {
            TerminalStartupSplitDirection::Up => "up",
            TerminalStartupSplitDirection::Down => "down",
            TerminalStartupSplitDirection::Left => "left",
            TerminalStartupSplitDirection::Right => "right",
        }
    }
}

/// A shell as the configuration names it.
#[derive(Clone, Debug, PartialEq, Eq)]
pub enum TerminalStartupShellConfig {
    Program(String),
    WithArguments(TerminalStartupShellWithArgumentsConfig),
}

/// A shell's program and its arguments as the configuration names them.
#[derive(Clone, Debug, PartialEq, Eq)]
pub struct TerminalStartupShellWithArgumentsConfig {
    pub program: String,
    pub args: Vec<String>,
}

/// A configured shell as mathematical values. A program alone is a program
/// without arguments.
#[verifier::ext_equal]
pub struct ShellConfigView {
    pub program: Seq<char>,
    pub args: Seq<Seq<char>>,
}

impl DeepView for TerminalStartupShellConfig {
    type V = ShellConfigView;

    open spec fn deep_view(&self) -> ShellConfigView {
        match self {
            TerminalStartupShellConfig::Program(program) => ShellConfigView {
                program: program@,
                args: Seq::empty(),
            },
            TerminalStartupShellConfig::WithArguments(config) => ShellConfigView {
                program: config.program@,
                args: config.args.deep_view(),
            },
        }
    }
}

/// The shell that a configured shell stands for.
pub open spec fn configured_shell(config: ShellConfigView) -> Result<ShellView, Seq<Seq<char>>> {
    match shell_program(config.program) {
        Ok(program) => if config.args.len() == 0 {
            Ok(ShellView::Program(program))
        } else {
            Ok(ShellView::WithArguments { program, args: config.args, title_override: None })
        },
        Err(messages) => Err(messages),
    }
}

/// The shell that an optional configured shell stands for.
pub open spec fn configured_shell_option(config: Option<ShellConfigView>) -> Result<
    Option<ShellView>,
    Seq<Seq<char>>,
> {
    match config {
        Some(config) => match configured_shell(config) {
            Ok(shell) => Ok(Some(shell)),
            Err(messages) => Err(messages),
        },
        None => Ok(None),
    }
}

impl TerminalStartupShellConfig {
    /// The shell that this stands for.
    pub fn to_shell(&self) -> (r: Result<Shell, StartupError>)
        ensures
            outcome(r) == configured_shell(self.deep_view()),
    {
        match self {
            TerminalStartupShellConfig::Program(program) => {
                match normalize_terminal_shell_program(program.as_str()) {
                    Ok(program) => Ok(Shell::Program(program)),
                    Err(error) => Err(error),
                }
            },
            TerminalStartupShellConfig::WithArguments(config) => {
                match normalize_terminal_shell_program(config.program.as_str()) {
                    Ok(program) => if config.args.len() == 0 {
                        Ok(Shell::Program(program))
                    } else {
                        Ok(
                            Shell::WithArguments {
                                program,
                                args: copy_texts(&config.args),
                                title_override: None,
                            },
                        )
                    },
                    Err(error) => Err(error),
                }
            },
        }
    }
}

/// The shell that an optional configured shell stands for.
pub fn optional_shell(config: Option<&TerminalStartupShellConfig>) -> (r: Result<
    Option<Shell>,
    StartupError,
>)
    ensures
        outcome(r) == configured_shell_option(config.deep_view()),
{
    match config {
        Some(config) => match config.to_shell() {
            Ok(shell) => Ok(Some(shell)),
            Err(error) => Err(error),
        },
        None => Ok(None),
    }
}

/// A tab of a startup layout beside its first.
#[derive(Clone, Debug, PartialEq, Eq)]
pub struct TerminalStartupTabConfig {
    pub profile: Option<String>,
    pub working_directory: Option<String>,
    pub command: Option<String>,
    pub title: Option<String>,
    pub shell: Option<TerminalStartupShellConfig>,
    pub env: EnvVars,
    pub split: Option<TerminalStartupSplitDirection>,
}

/// A [`TerminalStartupTabConfig`] as mathematical values.
#[verifier::ext_equal]
pub struct TabConfigView {
    pub profile: Option<Seq<char>>,
    pub working_directory: Option<Seq<char>>,
    pub command: Option<Seq<char>>,
    pub title: Option<Seq<char>>,
    pub shell: Option<ShellConfigView>,
    pub env: Map<Seq<char>, Seq<char>>,
    pub split: Option<TerminalStartupSplitDirection>,
}

impl View for TerminalStartupTabConfig {
    type V = TabConfigView;

    open spec fn view(&self) -> TabConfigView {
        TabConfigView {
            profile: self.profile.deep_view(),
            working_directory: self.working_directory.deep_view(),
            command: self.command.deep_view(),
            title: self.title.deep_view(),
            shell: self.shell.deep_view(),
            env: self.env@,
            split: self.split,
        }
    }
}

impl DeepView for TerminalStartupTabConfig {
    type V = TabConfigView;

    open spec fn deep_view(&self) -> TabConfigView {
        self@
    }
}

/// A named startup layout, with how menus show it.
#[derive(Clone, Debug, PartialEq, Eq)]
pub struct TerminalStartupProfileConfig {
    pub display_name: Option<String>,
    pub description: Option<String>,
    pub icon: Option<String>,
    pub color: Option<String>,
    pub hidden: bool,
    pub working_directory: Option<String>,
    pub command: Option<String>,
    pub title: Option<String>,
    pub shell: Option<TerminalStartupShellConfig>,
    pub env: EnvVars,
    pub tabs: Vec<TerminalStartupTabConfig>,
}

/// A [`TerminalStartupProfileConfig`] as mathematical values.
#[verifier::ext_equal]
pub struct ProfileConfigView {
    pub display_name: Option<Seq<char>>,
    pub description: Option<Seq<char>>,
    pub icon: Option<Seq<char>>,
    pub color: Option<Seq<char>>,
    pub hidden: bool,
    pub working_directory: Option<Seq<char>>,
    pub command: Option<Seq<char>>,
    pub title: Option<Seq<char>>,
    pub shell: Option<ShellConfigView>,
    pub env: Map<Seq<char>, Seq<char>>,
    pub tabs: Seq<TabConfigView>,
}

impl View for TerminalStartupProfileConfig {
    type V = ProfileConfigView;

    open spec fn view(&self) -> ProfileConfigView {
        ProfileConfigView {
            display_name: self.display_name.deep_view(),
            description: self.description.deep_view(),
            icon: self.icon.deep_view(),
            color: self.color.deep_view(),
            hidden: self.hidden,
            working_directory: self.working_directory.deep_view(),
            command: self.command.deep_view(),
            title: self.title.deep_view(),
            shell: self.shell.deep_view(),
            env: self.env@,
            tabs: self.tabs.deep_view(),
        }
    }
}

impl DeepView for TerminalStartupProfileConfig {
    type V = ProfileConfigView;

    open spec fn deep_view(&self) -> ProfileConfigView {
        self@
    }
}

/// The startup configuration: a root layout and named profiles.
#[derive(Clone, Debug, PartialEq, Eq)]
pub struct TerminalStartupConfig {
    pub working_directory: Option<String>,
    pub command: Option<String>,
    pub title: Option<String>,
    pub shell: Option<TerminalStartupShellConfig>,
    pub env: EnvVars,
    pub tabs: Vec<TerminalStartupTabConfig>,
    pub default_profile: Option<String>,
    pub profiles: NameMap<TerminalStartupProfileConfig>,
}

/// A [`TerminalStartupConfig`] as mathematical values.
#[verifier::ext_equal]
pub struct ConfigView {
    pub working_directory: Option<Seq<char>>,
    pub command: Option<Seq<char>>,
    pub title: Option<Seq<char>>,
    pub shell: Option<ShellConfigView>,
    pub env: Map<Seq<char>, Seq<char>>,
    pub tabs: Seq<TabConfigView>,
    pub default_profile: Option<Seq<char>>,
    pub profiles: Seq<(Seq<char>, ProfileConfigView)>,
}

impl View for TerminalStartupConfig {
    type V = ConfigView;

    open spec fn view(&self) -> ConfigView {
        ConfigView {
            working_directory: self.working_directory.deep_view(),
            command: self.command.deep_view(),
            title: self.title.deep_view(),
            shell: self.shell.deep_view(),
            env: self.env@,
            tabs: self.tabs.deep_view(),
            default_profile: self.default_profile.deep_view(),
            profiles: self.profiles.entries(),
        }
    }
}

impl DeepView for TerminalStartupConfig {
    type V = ConfigView;

    open spec fn deep_view(&self) -> ConfigView {
        self@
    }
}

/// The configuration that sets nothing.
pub open spec fn empty_config() -> ConfigView {
    ConfigView {
        working_directory: None,
        command: None,
        title: None,
        shell: None,
        env: Map::empty(),
        tabs: Seq::empty(),
        default_profile: None,
        profiles: Seq::empty(),
    }
}

impl Default for TerminalStartupTabConfig {
    /// A tab with every field at its default.
    fn default() -> (r: Self)
        ensures
            r@ == (TabConfigView {
                profile: None,
                working_directory: None,
                command: None,
                title: None,
                shell: None,
                env: Map::empty(),
                split: None,
            }),
    {
        TerminalStartupTabConfig {
            profile: None,
            working_directory: None,
            command: None,
            title: None,
            shell: None,
            env: NameMap::new(),
            split: None,
        }
    }
}

impl Default for TerminalStartupProfileConfig {
    /// A profile with every field at its default.
    fn default() -> (r: Self)
        ensures
            r@ == (ProfileConfigView {
                display_name: None,
                description: None,
                icon: None,
                color: None,
                hidden: false,
                working_directory: None,
                command: None,
                title: None,
                shell: None,
                env: Map::empty(),
                tabs: Seq::empty(),
            }),
    {
        let r = TerminalStartupProfileConfig {
            display_name: None,
            description: None,
            icon: None,
            color: None,
            hidden: false,
            working_directory: None,
            command: None,
            title: None,
            shell: None,
            env: NameMap::new(),
            tabs: Vec::new(),
        };
        proof {
            assert(r.tabs.deep_view() =~= Seq::empty());
        }
        r
    }
}

impl Default for TerminalStartupConfig {
    /// The configuration that sets nothing.
    fn default() -> (r: Self)
        ensures
            r@ == empty_config(),
    {
        let r = TerminalStartupConfig {
            working_directory: None,
            command: None,
            title: None,
            shell: None,
            env: NameMap::new(),
            tabs: Vec::new(),
            default_profile: None,
            profiles: NameMap::new(),
        };
        proof {
            assert(r.tabs.deep_view() =~= Seq::empty());
        }
        r
    }
}

/// What was found when the startup configuration file was read.
#[derive(Clone, Debug, PartialEq, Eq)]
pub enum ConfigFile {
    /// There is no such file.
    Missing { error: String },
    /// The file could not be read.
    Unreadable { error: String },
    /// What the file holds is no startup configuration.
    Malformed { error: String },
    /// The file holds this configuration.
    Parsed(TerminalStartupConfig),
}

/// A [`ConfigFile`] as mathematical values.
#[verifier::ext_equal]
pub enum ConfigFileView {
    Missing { error: Seq<char> },
    Unreadable { error: Seq<char> },
    Malformed { error: Seq<char> },
    Parsed(ConfigView),
}

impl View for ConfigFile {
    type V = ConfigFileView;

    open spec fn view(&self) -> ConfigFileView {
        match self {
            ConfigFile::Missing { error } => ConfigFileView::Missing { error: error@ },
            ConfigFile::Unreadable { error } => ConfigFileView::Unreadable { error: error@ },
            ConfigFile::Malformed { error } => ConfigFileView::Malformed { error: error@ },
            ConfigFile::Parsed(config) => ConfigFileView::Parsed(config@),
        }
    }
}

/// The configuration that a file stands for. Without the file it sets nothing.
pub open spec fn loaded_config(path: Seq<char>, file: ConfigFileView) -> Result<
    ConfigView,
    Seq<Seq<char>>,
> {
    match file {
        ConfigFileView::Missing { .. } => Ok(empty_config()),
        ConfigFileView::Unreadable { error } => Err(
            seq!["failed to read terminal startup config "@ + path, error],
        ),
        ConfigFileView::Malformed { error } => Err(
            seq!["failed to parse terminal startup config "@ + path, error],
        ),
        ConfigFileView::Parsed(config) => Ok(config),
    }
}

impl TerminalStartupConfig {
    /// The configuration that the file at `path` stands for.
    pub fn load(path: &str, file: ConfigFile) -> (r: Result<Self, StartupError>)
        ensures
            outcome(r) == loaded_config(path@, file@),
    {
        match file {
            ConfigFile::Missing { .. } => Ok(TerminalStartupConfig::default()),
            ConfigFile::Unreadable { error } => {
                let message = "failed to read terminal startup config ".to_owned().concat(path);
                let failure = StartupError::new(error).context(message);
                proof {
                    assert(failure@ =~= seq![message@, error@]);
                }
                Err(failure)
            },
            ConfigFile::Malformed { error } => {
                let message = "failed to parse terminal startup config ".to_owned().concat(path);
                let failure = StartupError::new(error).context(message);
                proof {
                    assert(failure@ =~= seq![message@, error@]);
                }
                Err(failure)
            },
            ConfigFile::Parsed(config) => Ok(config),
        }
    }
}

} // verus!
