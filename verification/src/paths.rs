//! Where the application keeps its files.

use crate::directory::{expand_tilde, tilde_expanded};
use crate::error::{outcome, StartupError};
use crate::path_parts::{join_path, joined_path};
use crate::text::option_str;
use vstd::prelude::*;
use vstd::string::*;

verus! {

/// The systems that write paths or keep application files in their own way.
#[derive(Clone, Copy, Debug, PartialEq, Eq, Structural)]
pub enum Platform {
    Windows,
    /// Linux and FreeBSD.
    Linux,
    MacOs,
    Other,
}

/// The name of the application as users see it.
pub const TERMINAL_APP_NAME: &'static str = "Zed Terminal";

/// The name of the application in directory names.
pub const TERMINAL_APP_NAME_LOWERCASE: &'static str = "zed-terminal";

/// The name of the startup configuration file.
pub const TERMINAL_STARTUP_CONFIG_FILE: &'static str = "terminal.json";

/// The name of the file with the startup configuration's schema.
pub const TERMINAL_STARTUP_CONFIG_SCHEMA_FILE: &'static str = "terminal.schema.json";

/// What the system says of where applications keep their files.
#[derive(Clone, Debug, PartialEq, Eq)]
pub struct SystemDirectories {
    pub platform: Platform,
    pub home_dir: String,
    /// The home directory that `~` stands for, where it is known.
    pub tilde_home: Option<String>,
    pub config_dir: Option<String>,
    pub data_local_dir: Option<String>,
    pub flatpak_config_home: Option<String>,
    pub flatpak_data_home: Option<String>,
}

/// A [`SystemDirectories`] as mathematical values.
#[verifier::ext_equal]
pub struct SystemDirectoriesView {
    pub platform: Platform,
    pub home_dir: Seq<char>,
    pub tilde_home: Option<Seq<char>>,
    pub config_dir: Option<Seq<char>>,
    pub data_local_dir: Option<Seq<char>>,
    pub flatpak_config_home: Option<Seq<char>>,
    pub flatpak_data_home: Option<Seq<char>>,
}

impl View for SystemDirectories {
    type V = SystemDirectoriesView;

    open spec fn view(&self) -> SystemDirectoriesView {
        SystemDirectoriesView {
            platform: self.platform,
            home_dir: self.home_dir@,
            tilde_home: self.tilde_home.deep_view(),
            config_dir: self.config_dir.deep_view(),
            data_local_dir: self.data_local_dir.deep_view(),
            flatpak_config_home: self.flatpak_config_home.deep_view(),
            flatpak_data_home: self.flatpak_data_home.deep_view(),
        }
    }
}

/// `name` below `directory`, or the problem that there is no such directory.
pub open spec fn below(
    platform: Platform,
    directory: Option<Seq<char>>,
    problem: Seq<char>,
    name: Seq<char>,
) -> Result<Seq<char>, Seq<Seq<char>>> {
    match directory {
        Some(directory) => Ok(joined_path(platform, directory, name)),
        None => Err(seq![problem]),
    }
}

/// The first directory if there is one, else the second.
pub open spec fn either(first: Option<Seq<char>>, second: Option<Seq<char>>) -> Option<Seq<char>> {
    if first is Some {
        first
    } else {
        second
    }
}

/// Where the application keeps its configuration unless told otherwise.
pub open spec fn default_config_dir(system: SystemDirectoriesView) -> Result<
    Seq<char>,
    Seq<Seq<char>>,
> {
    match system.platform {
        Platform::Windows => below(
            system.platform,
            system.config_dir,
            "failed to determine RoamingAppData directory"@,
            TERMINAL_APP_NAME@,
        ),
        Platform::Linux => below(
            system.platform,
            either(system.flatpak_config_home, system.config_dir),
            "failed to determine XDG_CONFIG_HOME directory"@,
            TERMINAL_APP_NAME_LOWERCASE@,
        ),
        _ => Ok(
            joined_path(
                system.platform,
                joined_path(system.platform, system.home_dir, ".config"@),
                TERMINAL_APP_NAME_LOWERCASE@,
            ),
        ),
    }
}

/// Where the application keeps its data unless told otherwise.
pub open spec fn default_data_dir(system: SystemDirectoriesView) -> Result<
    Seq<char>,
    Seq<Seq<char>>,
> {
    match system.platform {
        Platform::MacOs => Ok(
            joined_path(
                system.platform,
                joined_path(system.platform, system.home_dir, "Library/Application Support"@),
                TERMINAL_APP_NAME@,
            ),
        ),
        Platform::Linux => below(
            system.platform,
            either(system.flatpak_data_home, system.data_local_dir),
            "failed to determine XDG_DATA_HOME directory"@,
            TERMINAL_APP_NAME_LOWERCASE@,
        ),
        Platform::Windows => below(
            system.platform,
            system.data_local_dir,
            "failed to determine LocalAppData directory"@,
            TERMINAL_APP_NAME@,
        ),
        Platform::Other => default_config_dir(system),
    }
}

fn path_below(
    platform: Platform,
    directory: Option<&String>,
    problem: &str,
    name: &str,
) -> (r: Result<String, StartupError>)
    ensures
        outcome(r) == below(platform, directory.deep_view(), problem@, name@),
{
    match directory {
        Some(directory) => Ok(join_path(platform, directory.as_str(), name)),
        None => Err(StartupError::from_text(problem)),
    }
}

fn either_directory<'a>(first: &'a Option<String>, second: &'a Option<String>) -> (r: Option<
    &'a String,
>)
    ensures
        r.deep_view() == either(first.deep_view(), second.deep_view()),
{
    match first {
        Some(directory) => Some(directory),
        None => second.as_ref(),
    }
}

/// Where the application keeps its configuration unless told otherwise.
pub fn default_terminal_config_dir(system: &SystemDirectories) -> (r: Result<String, StartupError>)
    ensures
        outcome(r) == default_config_dir(system@),
{
    match system.platform {
        Platform::Windows => path_below(
            system.platform,
            system.config_dir.as_ref(),
            "failed to determine RoamingAppData directory",
            TERMINAL_APP_NAME,
        ),
        Platform::Linux => path_below(
            system.platform,
            either_directory(&system.flatpak_config_home, &system.config_dir),
            "failed to determine XDG_CONFIG_HOME directory",
            TERMINAL_APP_NAME_LOWERCASE,
        ),
        _ => Ok(
            join_path(
                system.platform,
                join_path(system.platform, system.home_dir.as_str(), ".config").as_str(),
                TERMINAL_APP_NAME_LOWERCASE,
            ),
        ),
    }
}

/// Where the application keeps its data unless told otherwise.
pub fn default_terminal_data_dir(system: &SystemDirectories) -> (r: Result<String, StartupError>)
    ensures
        outcome(r) == default_data_dir(system@),
{
    match system.platform {
        Platform::MacOs => Ok(
            join_path(
                system.platform,
                join_path(
                    system.platform,
                    system.home_dir.as_str(),
                    "Library/Application Support",
                ).as_str(),
                TERMINAL_APP_NAME,
            ),
        ),
        Platform::Linux => path_below(
            system.platform,
            either_directory(&system.flatpak_data_home, &system.data_local_dir),
            "failed to determine XDG_DATA_HOME directory",
            TERMINAL_APP_NAME_LOWERCASE,
        ),
        Platform::Windows => path_below(
            system.platform,
            system.data_local_dir.as_ref(),
            "failed to determine LocalAppData directory",
            TERMINAL_APP_NAME,
        ),
        Platform::Other => default_terminal_config_dir(system),
    }
}

/// The directories that the application keeps its files in.
#[derive(Clone, Debug, PartialEq, Eq)]
pub struct TerminalPathOptions {
    /// The system whose paths these are.
    pub platform: Platform,
    pub data_dir: String,
    pub config_dir: String,
}

/// A [`TerminalPathOptions`] as mathematical values.
#[verifier::ext_equal]
pub struct PathOptionsView {
    pub platform: Platform,
    pub data_dir: Seq<char>,
    pub config_dir: Seq<char>,
}

impl View for TerminalPathOptions {
    type V = PathOptionsView;

    open spec fn view(&self) -> PathOptionsView {
        PathOptionsView {
            platform: self.platform,
            data_dir: self.data_dir@,
            config_dir: self.config_dir@,
        }
    }
}

impl DeepView for TerminalPathOptions {
    type V = PathOptionsView;

    open spec fn deep_view(&self) -> PathOptionsView {
        self@
    }
}

/// The directories to use, given those that the command line names with `~`
/// already expanded. A data directory that is named brings its own
/// configuration directory.
pub open spec fn chosen_directories(
    data_dir: Option<Seq<char>>,
    config_dir: Option<Seq<char>>,
    system: SystemDirectoriesView,
) -> Result<PathOptionsView, Seq<Seq<char>>> {
    let platform = system.platform;
    match default_data_dir(system) {
        Ok(default_data) => {
            let data = match data_dir {
                Some(data_dir) => data_dir,
                None => default_data,
            };
            match config_dir {
                Some(config_dir) => Ok(PathOptionsView { platform, data_dir: data, config_dir }),
                None => if data_dir is Some {
                    Ok(
                        PathOptionsView {
                            platform,
                            data_dir: data,
                            config_dir: joined_path(platform, data, "config"@),
                        },
                    )
                } else {
                    match default_config_dir(system) {
                        Ok(config_dir) => Ok(
                            PathOptionsView { platform, data_dir: data, config_dir },
                        ),
                        Err(messages) => Err(messages),
                    }
                },
            }
        },
        Err(messages) => Err(messages),
    }
}

/// An optional path with the home directory in place of a leading `~`.
pub open spec fn expanded_option(
    path: Option<Seq<char>>,
    system: SystemDirectoriesView,
) -> Option<Seq<char>> {
    match path {
        Some(path) => Some(tilde_expanded(path, system.tilde_home, system.platform)),
        None => None,
    }
}

/// The directories to use, given those that the command line names.
pub open spec fn asked_directories(
    data_dir: Option<Seq<char>>,
    config_dir: Option<Seq<char>>,
    system: SystemDirectoriesView,
) -> Result<PathOptionsView, Seq<Seq<char>>> {
    chosen_directories(
        expanded_option(data_dir, system),
        expanded_option(config_dir, system),
        system,
    )
}

fn expand_option(path: Option<&str>, system: &SystemDirectories) -> (r: Option<String>)
    ensures
        r.deep_view() == expanded_option(path.deep_view(), system@),
{
    match path {
        Some(path) => Some(expand_tilde(path, option_str(&system.tilde_home), system.platform)),
        None => None,
    }
}

impl TerminalPathOptions {
    /// A copy of these directories.
    pub fn copy(&self) -> (r: Self)
        ensures
            r@ == self@,
    {
        TerminalPathOptions {
            platform: self.platform,
            data_dir: self.data_dir.clone(),
            config_dir: self.config_dir.clone(),
        }
    }

    /// The directories to use, given those that the command line names.
    pub fn from_cli(
        user_data_dir: Option<&str>,
        config_dir: Option<&str>,
        system: &SystemDirectories,
    ) -> (r: Result<Self, StartupError>)
        ensures
            outcome(r) == asked_directories(
                user_data_dir.deep_view(),
                config_dir.deep_view(),
                system@,
            ),
    {
        let data = expand_option(user_data_dir, system);
        let config = expand_option(config_dir, system);
        Self::from_expanded(data, config, system)
    }

    /// The directories to use, given those that the command line names with
    /// `~` already expanded.
    pub fn from_expanded(
        user_data_dir: Option<String>,
        config_dir: Option<String>,
        system: &SystemDirectories,
    ) -> (r: Result<Self, StartupError>)
        ensures
            outcome(r) == chosen_directories(
                user_data_dir.deep_view(),
                config_dir.deep_view(),
                system@,
            ),
    {
        let default_data = match default_terminal_data_dir(system) {
            Ok(directory) => directory,
            Err(error) => {
                return Err(error);
            },
        };
        let named = user_data_dir.is_some();
        let data_dir = match user_data_dir {
            Some(directory) => directory,
            None => default_data,
        };
        let config_dir = match config_dir {
            Some(directory) => directory,
            None => if named {
                join_path(system.platform, data_dir.as_str(), "config")
            } else {
                match default_terminal_config_dir(system) {
                    Ok(directory) => directory,
                    Err(error) => {
                        return Err(error);
                    },
                }
            },
        };
        Ok(TerminalPathOptions { platform: system.platform, data_dir, config_dir })
    }
}

/// The startup configuration file below a configuration directory.
pub open spec fn startup_config_path(platform: Platform, config_dir: Seq<char>) -> Seq<char> {
    joined_path(platform, config_dir, TERMINAL_STARTUP_CONFIG_FILE@)
}

/// The schema file below a configuration directory.
pub open spec fn startup_config_schema_path(
    platform: Platform,
    config_dir: Seq<char>,
) -> Seq<char> {
    joined_path(platform, config_dir, TERMINAL_STARTUP_CONFIG_SCHEMA_FILE@)
}

/// The startup configuration file below `config_dir`.
pub fn terminal_startup_config_file(platform: Platform, config_dir: &str) -> (r: String)
    ensures
        r@ == startup_config_path(platform, config_dir@),
{
    join_path(platform, config_dir, TERMINAL_STARTUP_CONFIG_FILE)
}

/// The file with the startup configuration's schema below `config_dir`.
pub fn terminal_startup_config_schema_file(platform: Platform, config_dir: &str) -> (r:
    String)
    ensures
        r@ == startup_config_schema_path(platform, config_dir@),
{
    join_path(platform, config_dir, TERMINAL_STARTUP_CONFIG_SCHEMA_FILE)
}

/// The log file below `logs_dir`.
pub fn terminal_log_file(platform: Platform, logs_dir: &str) -> (r: String)
    ensures
        r@ == joined_path(platform, logs_dir@, TERMINAL_APP_NAME@ + ".log"@),
{
    join_path(platform, logs_dir, TERMINAL_APP_NAME.to_owned().concat(".log").as_str())
}

/// The log file of the run before, below `logs_dir`.
pub fn terminal_old_log_file(platform: Platform, logs_dir: &str) -> (r: String)
    ensures
        r@ == joined_path(platform, logs_dir@, TERMINAL_APP_NAME@ + ".log.old"@),
{
    join_path(platform, logs_dir, TERMINAL_APP_NAME.to_owned().concat(".log.old").as_str())
}

/// The configuration files of the application.
#[derive(Clone, Debug, PartialEq, Eq)]
pub struct TerminalConfigFilePaths {
    pub settings_file: String,
    pub global_settings_file: String,
    pub keymap_file: String,
    pub startup_config_file: String,
    pub startup_config_schema_file: String,
}

impl TerminalConfigFilePaths {
    /// The configuration files below the configuration directory.
    pub fn from_path_options(path_options: &TerminalPathOptions) -> (r: Self)
        ensures
            ({
                let platform = path_options@.platform;
                let config_dir = path_options@.config_dir;
                &&& r.settings_file@ == joined_path(platform, config_dir, "settings.json"@)
                &&& r.global_settings_file@ == joined_path(
                    platform,
                    config_dir,
                    "global_settings.json"@,
                )
                &&& r.keymap_file@ == joined_path(platform, config_dir, "keymap.json"@)
                &&& r.startup_config_file@ == startup_config_path(platform, config_dir)
                &&& r.startup_config_schema_file@ == startup_config_schema_path(
                    platform,
                    config_dir,
                )
            }),
    {
        let platform = path_options.platform;
        let config_dir = path_options.config_dir.as_str();
        TerminalConfigFilePaths {
            settings_file: join_path(platform, config_dir, "settings.json"),
            global_settings_file: join_path(platform, config_dir, "global_settings.json"),
            keymap_file: join_path(platform, config_dir, "keymap.json"),
            startup_config_file: terminal_startup_config_file(platform, config_dir),
            startup_config_schema_file: terminal_startup_config_schema_file(platform, config_dir),
        }
    }
}

} // verus!
