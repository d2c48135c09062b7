//! The command line: its arguments and which of them go together.

use crate::config::TerminalStartupSplitDirection;
use vstd::prelude::*;

verus! {

/// What the command line asks for.
#[derive(Clone, Debug, PartialEq, Eq)]
pub struct Cli {
    pub user_data_dir: Option<String>,
    pub config_dir: Option<String>,
    pub print_paths: bool,
    pub list_profiles: bool,
    pub all_profiles: bool,
    pub no_startup_config: bool,
    pub print_startup_layout: bool,
    pub set_default_profile: Option<String>,
    pub clear_default_profile: bool,
    pub validate_startup_config: bool,
    pub print_startup_config_schema: bool,
    pub init_config: bool,
    pub doctor: bool,
    pub validate_keymap: bool,
    pub profile: Option<String>,
    pub working_directory: Option<String>,
    pub directory: Option<String>,
    pub title: Option<String>,
    pub new_tabs: Vec<String>,
    pub new_tab_titles: Vec<String>,
    pub new_tab_profiles: Vec<String>,
    pub new_tab_profile_titles: Vec<String>,
    pub new_tab_profile_splits: Vec<TerminalStartupSplitDirection>,
    pub new_tab_commands: Vec<String>,
    pub new_tab_command_directories: Vec<String>,
    pub new_tab_command_titles: Vec<String>,
    pub command: Vec<String>,
}

/// A [`Cli`] as mathematical values.
#[verifier::ext_equal]
pub struct CliView {
    pub user_data_dir: Option<Seq<char>>,
    pub config_dir: Option<Seq<char>>,
    pub print_paths: bool,
    pub list_profiles: bool,
    pub all_profiles: bool,
    pub no_startup_config: bool,
    pub print_startup_layout: bool,
    pub set_default_profile: Option<Seq<char>>,
    pub clear_default_profile: bool,
    pub validate_startup_config: bool,
    pub print_startup_config_schema: bool,
    pub init_config: bool,
    pub doctor: bool,
    pub validate_keymap: bool,
    pub profile: Option<Seq<char>>,
    pub working_directory: Option<Seq<char>>,
    pub directory: Option<Seq<char>>,
    pub title: Option<Seq<char>>,
    pub new_tabs: Seq<Seq<char>>,
    pub new_tab_titles: Seq<Seq<char>>,
    pub new_tab_profiles: Seq<Seq<char>>,
    pub new_tab_profile_titles: Seq<Seq<char>>,
    pub new_tab_profile_splits: Seq<TerminalStartupSplitDirection>,
    pub new_tab_commands: Seq<Seq<char>>,
    pub new_tab_command_directories: Seq<Seq<char>>,
    pub new_tab_command_titles: Seq<Seq<char>>,
    pub command: Seq<Seq<char>>,
}

impl View for Cli {
    type V = CliView;

    open spec fn view(&self) -> CliView {
        CliView {
            user_data_dir: self.user_data_dir.deep_view(),
            config_dir: self.config_dir.deep_view(),
            print_paths: self.print_paths,
            list_profiles: self.list_profiles,
            all_profiles: self.all_profiles,
            no_startup_config: self.no_startup_config,
            print_startup_layout: self.print_startup_layout,
            set_default_profile: self.set_default_profile.deep_view(),
            clear_default_profile: self.clear_default_profile,
            validate_startup_config: self.validate_startup_config,
            print_startup_config_schema: self.print_startup_config_schema,
            init_config: self.init_config,
            doctor: self.doctor,
            validate_keymap: self.validate_keymap,
            profile: self.profile.deep_view(),
            working_directory: self.working_directory.deep_view(),
            directory: self.directory.deep_view(),
            title: self.title.deep_view(),
            new_tabs: self.new_tabs.deep_view(),
            new_tab_titles: self.new_tab_titles.deep_view(),
            new_tab_profiles: self.new_tab_profiles.deep_view(),
            new_tab_profile_titles: self.new_tab_profile_titles.deep_view(),
            new_tab_profile_splits: self.new_tab_profile_splits.deep_view(),
            new_tab_commands: self.new_tab_commands.deep_view(),
            new_tab_command_directories: self.new_tab_command_directories.deep_view(),
            new_tab_command_titles: self.new_tab_command_titles.deep_view(),
            command: self.command.deep_view(),
        }
    }
}

impl Default for Cli {
    /// A command line without arguments.
    fn default() -> (r: Self)
        ensures
            forall|argument: CliArgument| !#[trigger] given(r@, argument),
    {
        let r = Cli {
            user_data_dir: None,
            config_dir: None,
            print_paths: false,
            list_profiles: false,
            all_profiles: false,
            no_startup_config: false,
            print_startup_layout: false,
            set_default_profile: None,
            clear_default_profile: false,
            validate_startup_config: false,
            print_startup_config_schema: false,
            init_config: false,
            doctor: false,
            validate_keymap: false,
            profile: None,
            working_directory: None,
            directory: None,
            title: None,
            new_tabs: Vec::new(),
            new_tab_titles: Vec::new(),
            new_tab_profiles: Vec::new(),
            new_tab_profile_titles: Vec::new(),
            new_tab_profile_splits: Vec::new(),
            new_tab_commands: Vec::new(),
            new_tab_command_directories: Vec::new(),
            new_tab_command_titles: Vec::new(),
            command: Vec::new(),
        };
        r
    }
}

/// An argument of the command line.
#[derive(Clone, Copy, Debug, PartialEq, Eq, Structural)]
pub enum CliArgument {
    UserDataDir,
    ConfigDir,
    PrintPaths,
    ListProfiles,
    AllProfiles,
    NoStartupConfig,
    PrintStartupLayout,
    SetDefaultProfile,
    ClearDefaultProfile,
    ValidateStartupConfig,
    PrintStartupConfigSchema,
    InitConfig,
    Doctor,
    ValidateKeymap,
    Profile,
    WorkingDirectory,
    Directory,
    Title,
    NewTabs,
    NewTabTitles,
    NewTabProfiles,
    NewTabProfileTitles,
    NewTabProfileSplits,
    NewTabCommands,
    NewTabCommandDirectories,
    NewTabCommandTitles,
    Command,
}

/// Every argument, in the order in which they are declared.
pub open spec fn all_arguments() -> Seq<CliArgument> {
    seq![
        CliArgument::UserDataDir,
        CliArgument::ConfigDir,
        CliArgument::PrintPaths,
        CliArgument::ListProfiles,
        CliArgument::AllProfiles,
        CliArgument::NoStartupConfig,
        CliArgument::PrintStartupLayout,
        CliArgument::SetDefaultProfile,
        CliArgument::ClearDefaultProfile,
        CliArgument::ValidateStartupConfig,
        CliArgument::PrintStartupConfigSchema,
        CliArgument::InitConfig,
        CliArgument::Doctor,
        CliArgument::ValidateKeymap,
        CliArgument::Profile,
        CliArgument::WorkingDirectory,
        CliArgument::Directory,
        CliArgument::Title,
        CliArgument::NewTabs,
        CliArgument::NewTabTitles,
        CliArgument::NewTabProfiles,
        CliArgument::NewTabProfileTitles,
        CliArgument::NewTabProfileSplits,
        CliArgument::NewTabCommands,
        CliArgument::NewTabCommandDirectories,
        CliArgument::NewTabCommandTitles,
        CliArgument::Command,
    ]
}

/// Whether an argument is given on the command line.
pub open spec fn given(cli: CliView, argument: CliArgument) -> bool {
    match argument {
        CliArgument::UserDataDir => cli.user_data_dir is Some,
        CliArgument::ConfigDir => cli.config_dir is Some,
        CliArgument::PrintPaths => cli.print_paths,
        CliArgument::ListProfiles => cli.list_profiles,
        CliArgument::AllProfiles => cli.all_profiles,
        CliArgument::NoStartupConfig => cli.no_startup_config,
        CliArgument::PrintStartupLayout => cli.print_startup_layout,
        CliArgument::SetDefaultProfile => cli.set_default_profile is Some,
        CliArgument::ClearDefaultProfile => cli.clear_default_profile,
        CliArgument::ValidateStartupConfig => cli.validate_startup_config,
        CliArgument::PrintStartupConfigSchema => cli.print_startup_config_schema,
        CliArgument::InitConfig => cli.init_config,
        CliArgument::Doctor => cli.doctor,
        CliArgument::ValidateKeymap => cli.validate_keymap,
        CliArgument::Profile => cli.profile is Some,
        CliArgument::WorkingDirectory => cli.working_directory is Some,
        CliArgument::Directory => cli.directory is Some,
        CliArgument::Title => cli.title is Some,
        CliArgument::NewTabs => cli.new_tabs.len() > 0,
        CliArgument::NewTabTitles => cli.new_tab_titles.len() > 0,
        CliArgument::NewTabProfiles => cli.new_tab_profiles.len() > 0,
        CliArgument::NewTabProfileTitles => cli.new_tab_profile_titles.len() > 0,
        CliArgument::NewTabProfileSplits => cli.new_tab_profile_splits.len() > 0,
        CliArgument::NewTabCommands => cli.new_tab_commands.len() > 0,
        CliArgument::NewTabCommandDirectories => cli.new_tab_command_directories.len() > 0,
        CliArgument::NewTabCommandTitles => cli.new_tab_command_titles.len() > 0,
        CliArgument::Command => cli.command.len() > 0,
    }
}

/// The name by which an argument is found.
pub open spec fn argument_id(argument: CliArgument) -> Seq<char> {
    match argument {
        CliArgument::UserDataDir => "user_data_dir"@,
        CliArgument::ConfigDir => "config_dir"@,
        CliArgument::PrintPaths => "print_paths"@,
        CliArgument::ListProfiles => "list_profiles"@,
        CliArgument::AllProfiles => "all_profiles"@,
        CliArgument::NoStartupConfig => "no_startup_config"@,
        CliArgument::PrintStartupLayout => "print_startup_layout"@,
        CliArgument::SetDefaultProfile => "set_default_profile"@,
        CliArgument::ClearDefaultProfile => "clear_default_profile"@,
        CliArgument::ValidateStartupConfig => "validate_startup_config"@,
        CliArgument::PrintStartupConfigSchema => "print_startup_config_schema"@,
        CliArgument::InitConfig => "init_config"@,
        CliArgument::Doctor => "doctor"@,
        CliArgument::ValidateKeymap => "validate_keymap"@,
        CliArgument::Profile => "profile"@,
        CliArgument::WorkingDirectory => "working_directory"@,
        CliArgument::Directory => "directory"@,
        CliArgument::Title => "title"@,
        CliArgument::NewTabs => "new_tabs"@,
        CliArgument::NewTabTitles => "new_tab_titles"@,
        CliArgument::NewTabProfiles => "new_tab_profiles"@,
        CliArgument::NewTabProfileTitles => "new_tab_profile_titles"@,
        CliArgument::NewTabProfileSplits => "new_tab_profile_splits"@,
        CliArgument::NewTabCommands => "new_tab_commands"@,
        CliArgument::NewTabCommandDirectories => "new_tab_command_directories"@,
        CliArgument::NewTabCommandTitles => "new_tab_command_titles"@,
        CliArgument::Command => "command"@,
    }
}

/// Arguments that ask for something other than a terminal window.
pub open spec fn is_mode(argument: CliArgument) -> bool {
    ||| argument is PrintPaths
    ||| argument is PrintStartupLayout
    ||| is_file_mode(argument)
}

/// Modes that no argument about the startup layout goes with.
pub open spec fn is_file_mode(argument: CliArgument) -> bool {
    ||| argument is ListProfiles
    ||| argument is SetDefaultProfile
    ||| argument is ClearDefaultProfile
    ||| argument is ValidateStartupConfig
    ||| argument is PrintStartupConfigSchema
    ||| argument is InitConfig
    ||| argument is Doctor
    ||| argument is ValidateKeymap
}

/// Arguments for tabs that are opened from a profile.
pub open spec fn is_profile_tab_argument(argument: CliArgument) -> bool {
    ||| argument is NewTabProfiles
    ||| argument is NewTabProfileTitles
    ||| argument is NewTabProfileSplits
}

/// Arguments about the startup layout.
pub open spec fn is_layout_argument(argument: CliArgument) -> bool {
    ||| argument is NoStartupConfig
    ||| argument is Profile
    ||| argument is WorkingDirectory
    ||| argument is Directory
    ||| argument is Title
    ||| argument is NewTabs
    ||| argument is NewTabTitles
    ||| argument is NewTabCommands
    ||| argument is NewTabCommandDirectories
    ||| argument is NewTabCommandTitles
    ||| argument is Command
    ||| is_profile_tab_argument(argument)
}

/// Whether `a` rules out `b`, with `a` named first.
pub open spec fn rules_out(a: CliArgument, b: CliArgument) -> bool {
    ||| is_mode(a) && is_mode(b) && a != b
    ||| is_file_mode(a) && is_layout_argument(b)
    ||| a is AllProfiles && is_mode(b) && !(b is PrintPaths) && !(b is ListProfiles)
    ||| a is NoStartupConfig && (b is Profile || is_profile_tab_argument(b))
    ||| a is WorkingDirectory && b is Directory
}

/// Whether two arguments cannot be used together.
pub open spec fn conflicting(a: CliArgument, b: CliArgument) -> bool {
    rules_out(a, b) || rules_out(b, a)
}

/// Whether some argument that is given cannot be used with `argument`.
pub open spec fn ruled_out(cli: CliView, argument: CliArgument) -> bool {
    exists|other: CliArgument| #[trigger] given(cli, other) && conflicting(argument, other)
}

/// The argument that another one needs.
pub open spec fn needed_argument(argument: CliArgument) -> Option<CliArgument> {
    if argument is AllProfiles {
        Some(CliArgument::ListProfiles)
    } else {
        None
    }
}

/// Whether the argument that `argument` needs is given. Where some other
/// argument rules that one out, it is not needed.
pub open spec fn has_needed_argument(cli: CliView, argument: CliArgument) -> bool {
    match needed_argument(argument) {
        Some(needed) => given(cli, needed) || ruled_out(cli, needed),
        None => true,
    }
}

/// Whether no two arguments of a command line conflict.
pub open spec fn free_of_conflicts(cli: CliView) -> bool {
    forall|a: CliArgument, b: CliArgument| #[trigger]
        given(cli, a) && #[trigger] given(cli, b) ==> !conflicting(a, b)
}

/// Whether the arguments of a command line go together: no two of them
/// conflict, and each has the argument that it needs.
pub open spec fn go_together(cli: CliView) -> bool {
    &&& free_of_conflicts(cli)
    &&& forall|a: CliArgument| #[trigger] given(cli, a) ==> has_needed_argument(cli, a)
}

/// The place of an argument in the order of declaration.
pub open spec fn argument_place(argument: CliArgument) -> int {
    choose|i: int| 0 <= i < all_arguments().len() && all_arguments()[i] == argument
}

/// Every argument has its place in the order of declaration.
pub proof fn lemma_argument_place(argument: CliArgument)
    ensures
        0 <= argument_place(argument) < all_arguments().len(),
        all_arguments()[argument_place(argument)] == argument,
{
    let all = all_arguments();
    let i: int = match argument {
        CliArgument::UserDataDir => 0,
        CliArgument::ConfigDir => 1,
        CliArgument::PrintPaths => 2,
        CliArgument::ListProfiles => 3,
        CliArgument::AllProfiles => 4,
        CliArgument::NoStartupConfig => 5,
        CliArgument::PrintStartupLayout => 6,
        CliArgument::SetDefaultProfile => 7,
        CliArgument::ClearDefaultProfile => 8,
        CliArgument::ValidateStartupConfig => 9,
        CliArgument::PrintStartupConfigSchema => 10,
        CliArgument::InitConfig => 11,
        CliArgument::Doctor => 12,
        CliArgument::ValidateKeymap => 13,
        CliArgument::Profile => 14,
        CliArgument::WorkingDirectory => 15,
        CliArgument::Directory => 16,
        CliArgument::Title => 17,
        CliArgument::NewTabs => 18,
        CliArgument::NewTabTitles => 19,
        CliArgument::NewTabProfiles => 20,
        CliArgument::NewTabProfileTitles => 21,
        CliArgument::NewTabProfileSplits => 22,
        CliArgument::NewTabCommands => 23,
        CliArgument::NewTabCommandDirectories => 24,
        CliArgument::NewTabCommandTitles => 25,
        CliArgument::Command => 26,
    };
    assert(0 <= i < all.len() && all[i] == argument);
}

impl CliArgument {
    /// Every argument, in the order in which they are declared.
    pub fn all() -> (r: Vec<CliArgument>)
        ensures
            r@ == all_arguments(),
    {
        vec![
            CliArgument::UserDataDir,
            CliArgument::ConfigDir,
            CliArgument::PrintPaths,
            CliArgument::ListProfiles,
            CliArgument::AllProfiles,
            CliArgument::NoStartupConfig,
            CliArgument::PrintStartupLayout,
            CliArgument::SetDefaultProfile,
            CliArgument::ClearDefaultProfile,
            CliArgument::ValidateStartupConfig,
            CliArgument::PrintStartupConfigSchema,
            CliArgument::InitConfig,
            CliArgument::Doctor,
            CliArgument::ValidateKeymap,
            CliArgument::Profile,
            CliArgument::WorkingDirectory,
            CliArgument::Directory,
            CliArgument::Title,
            CliArgument::NewTabs,
            CliArgument::NewTabTitles,
            CliArgument::NewTabProfiles,
            CliArgument::NewTabProfileTitles,
            CliArgument::NewTabProfileSplits,
            CliArgument::NewTabCommands,
            CliArgument::NewTabCommandDirectories,
            CliArgument::NewTabCommandTitles,
            CliArgument::Command,
        ]
    }

    /// The name by which the argument is found.
    pub fn id(self) -> (r: &'static str)
        ensures
            r@ == argument_id(self),
    {
        match self {
            CliArgument::UserDataDir => "user_data_dir",
            CliArgument::ConfigDir => "config_dir",
            CliArgument::PrintPaths => "print_paths",
            CliArgument::ListProfiles => "list_profiles",
            CliArgument::AllProfiles => "all_profiles",
            CliArgument::NoStartupConfig => "no_startup_config",
            CliArgument::PrintStartupLayout => "print_startup_layout",
            CliArgument::SetDefaultProfile => "set_default_profile",
            CliArgument::ClearDefaultProfile => "clear_default_profile",
            CliArgument::ValidateStartupConfig => "validate_startup_config",
            CliArgument::PrintStartupConfigSchema => "print_startup_config_schema",
            CliArgument::InitConfig => "init_config",
            CliArgument::Doctor => "doctor",
            CliArgument::ValidateKeymap => "validate_keymap",
            CliArgument::Profile => "profile",
            CliArgument::WorkingDirectory => "working_directory",
            CliArgument::Directory => "directory",
            CliArgument::Title => "title",
            CliArgument::NewTabs => "new_tabs",
            CliArgument::NewTabTitles => "new_tab_titles",
            CliArgument::NewTabProfiles => "new_tab_profiles",
            CliArgument::NewTabProfileTitles => "new_tab_profile_titles",
            CliArgument::NewTabProfileSplits => "new_tab_profile_splits",
            CliArgument::NewTabCommands => "new_tab_commands",
            CliArgument::NewTabCommandDirectories => "new_tab_command_directories",
            CliArgument::NewTabCommandTitles => "new_tab_command_titles",
            CliArgument::Command => "command",
        }
    }

    /// The argument that this one needs.
    pub fn needs(self) -> (r: Option<CliArgument>)
        ensures
            r == needed_argument(self),
    {
        if self == CliArgument::AllProfiles {
            Some(CliArgument::ListProfiles)
        } else {
            None
        }
    }

    fn mode(self) -> (r: bool)
        ensures
            r == is_mode(self),
    {
        self == CliArgument::PrintPaths || self == CliArgument::PrintStartupLayout
            || self.file_mode()
    }

    fn file_mode(self) -> (r: bool)
        ensures
            r == is_file_mode(self),
    {
        match self {
            CliArgument::ListProfiles
            | CliArgument::SetDefaultProfile
            | CliArgument::ClearDefaultProfile
            | CliArgument::ValidateStartupConfig
            | CliArgument::PrintStartupConfigSchema
            | CliArgument::InitConfig
            | CliArgument::Doctor
            | CliArgument::ValidateKeymap => true,
            _ => false,
        }
    }

    fn profile_tab_argument(self) -> (r: bool)
        ensures
            r == is_profile_tab_argument(self),
    {
        match self {
            CliArgument::NewTabProfiles
            | CliArgument::NewTabProfileTitles
            | CliArgument::NewTabProfileSplits => true,
            _ => false,
        }
    }

    fn layout_argument(self) -> (r: bool)
        ensures
            r == is_layout_argument(self),
    {
        match self {
            CliArgument::NoStartupConfig
            | CliArgument::Profile
            | CliArgument::WorkingDirectory
            | CliArgument::Directory
            | CliArgument::Title
            | CliArgument::NewTabs
            | CliArgument::NewTabTitles
            | CliArgument::NewTabCommands
            | CliArgument::NewTabCommandDirectories
            | CliArgument::NewTabCommandTitles
            | CliArgument::Command => true,
            _ => self.profile_tab_argument(),
        }
    }

    fn excludes(self, other: CliArgument) -> (r: bool)
        ensures
            r == rules_out(self, other),
    {
        (self.mode() && other.mode() && self != other) || (self.file_mode()
            && other.layout_argument()) || (self == CliArgument::AllProfiles && other.mode()
            && other != CliArgument::PrintPaths && other != CliArgument::ListProfiles) || (self
            == CliArgument::NoStartupConfig && (other == CliArgument::Profile
            || other.profile_tab_argument())) || (self == CliArgument::WorkingDirectory && other
            == CliArgument::Directory)
    }

    /// Whether this argument cannot be used together with `other`.
    pub fn conflicts_with(self, other: CliArgument) -> (r: bool)
        ensures
            r == conflicting(self, other),
    {
        self.excludes(other) || other.excludes(self)
    }
}

impl Cli {
    /// Whether `argument` is given.
    pub fn is_given(&self, argument: CliArgument) -> (r: bool)
        ensures
            r == given(self@, argument),
    {
        match argument {
            CliArgument::UserDataDir => self.user_data_dir.is_some(),
            CliArgument::ConfigDir => self.config_dir.is_some(),
            CliArgument::PrintPaths => self.print_paths,
            CliArgument::ListProfiles => self.list_profiles,
            CliArgument::AllProfiles => self.all_profiles,
            CliArgument::NoStartupConfig => self.no_startup_config,
            CliArgument::PrintStartupLayout => self.print_startup_layout,
            CliArgument::SetDefaultProfile => self.set_default_profile.is_some(),
            CliArgument::ClearDefaultProfile => self.clear_default_profile,
            CliArgument::ValidateStartupConfig => self.validate_startup_config,
            CliArgument::PrintStartupConfigSchema => self.print_startup_config_schema,
            CliArgument::InitConfig => self.init_config,
            CliArgument::Doctor => self.doctor,
            CliArgument::ValidateKeymap => self.validate_keymap,
            CliArgument::Profile => self.profile.is_some(),
            CliArgument::WorkingDirectory => self.working_directory.is_some(),
            CliArgument::Directory => self.directory.is_some(),
            CliArgument::Title => self.title.is_some(),
            CliArgument::NewTabs => self.new_tabs.len() > 0,
            CliArgument::NewTabTitles => self.new_tab_titles.len() > 0,
            CliArgument::NewTabProfiles => self.new_tab_profiles.len() > 0,
            CliArgument::NewTabProfileTitles => self.new_tab_profile_titles.len() > 0,
            CliArgument::NewTabProfileSplits => self.new_tab_profile_splits.len() > 0,
            CliArgument::NewTabCommands => self.new_tab_commands.len() > 0,
            CliArgument::NewTabCommandDirectories => self.new_tab_command_directories.len() > 0,
            CliArgument::NewTabCommandTitles => self.new_tab_command_titles.len() > 0,
            CliArgument::Command => self.command.len() > 0,
        }
    }

    /// Whether some argument that is given cannot be used with `argument`.
    fn rules_out_argument(&self, argument: CliArgument) -> (r: bool)
        ensures
            r == ruled_out(self@, argument),
    {
        let arguments = CliArgument::all();
        let mut i: usize = 0;
        while i < arguments.len()
            invariant
                arguments@ == all_arguments(),
                i <= arguments@.len(),
                forall|k: int|
                    0 <= k < i ==> !(given(self@, #[trigger] all_arguments()[k]) && conflicting(
                        argument,
                        all_arguments()[k],
                    )),
            decreases arguments@.len() - i,
        {
            let other: CliArgument = arguments[i];
            if self.is_given(other) && argument.conflicts_with(other) {
                return true;
            }
            i = i + 1;
        }
        proof {
            assert forall|other: CliArgument| #[trigger] given(self@, other) implies !conflicting(
                argument,
                other,
            ) by {
                lemma_argument_place(other);
                assert(all_arguments()[argument_place(other)] == other);
            }
        }
        false
    }

    /// Whether the arguments go together: no two of them conflict, and each has
    /// the argument that it needs.
    pub fn arguments_go_together(&self) -> (r: bool)
        ensures
            r == go_together(self@),
    {
        let arguments = CliArgument::all();
        let mut i: usize = 0;
        while i < arguments.len()
            invariant
                arguments@ == all_arguments(),
                i <= arguments@.len(),
                forall|k: int|
                    0 <= k < i && given(self@, #[trigger] all_arguments()[k]) ==> !ruled_out(
                        self@,
                        all_arguments()[k],
                    ) && has_needed_argument(self@, all_arguments()[k]),
            decreases arguments@.len() - i,
        {
            let argument: CliArgument = arguments[i];
            if self.is_given(argument) {
                if self.rules_out_argument(argument) {
                    return false;
                }
                if let Some(needed) = argument.needs() {
                    if !self.is_given(needed) && !self.rules_out_argument(needed) {
                        return false;
                    }
                }
            }
            i = i + 1;
        }
        proof {
            assert forall|a: CliArgument| #[trigger] given(self@, a) implies !ruled_out(self@, a)
                && has_needed_argument(self@, a) by {
                lemma_argument_place(a);
                assert(all_arguments()[argument_place(a)] == a);
            }
        }
        true
    }
}

} // verus!
