//! Startup layouts: choosing one from the configuration, and resolving and
//! validating its tabs.

use crate::command::{Shell, ShellView};
use crate::config::{
    configured_shell_option, optional_shell, ConfigView, ProfileConfigView, ShellConfigView,
    TabConfigView, TerminalStartupConfig, TerminalStartupProfileConfig, TerminalStartupShellConfig,
    TerminalStartupSplitDirection, TerminalStartupTabConfig,
};
use crate::directory::{Inspections, WorkingDirectories};
use crate::error::{in_context, outcome, StartupError};
use crate::launch_tab::{tab_from_fields, LaunchTab, LaunchTabView};
use crate::name_map::{copy_env, lookup, EnvVars, NameMap};
use crate::text::{
    decimal, decimal_text, join, joined, normalize_terminal_title, normalized, option_str, quote,
    quoted, trim, trimmed,
};
use vstd::prelude::*;
use vstd::string::*;

verus! {

/// The layout that a window opens with, borrowed from the configuration.
pub struct TerminalStartupLayout<'a> {
    pub working_directory: Option<&'a str>,
    pub command: Option<&'a str>,
    pub title: Option<&'a str>,
    pub shell: Option<&'a TerminalStartupShellConfig>,
    pub env: &'a EnvVars,
    pub tabs: &'a Vec<TerminalStartupTabConfig>,
    pub label: String,
}

/// A [`TerminalStartupLayout`] as mathematical values.
#[verifier::ext_equal]
pub struct LayoutView {
    pub working_directory: Option<Seq<char>>,
    pub command: Option<Seq<char>>,
    pub title: Option<Seq<char>>,
    pub shell: Option<ShellConfigView>,
    pub env: Map<Seq<char>, Seq<char>>,
    pub tabs: Seq<TabConfigView>,
    pub label: Seq<char>,
}

impl<'a> View for TerminalStartupLayout<'a> {
    type V = LayoutView;

    open spec fn view(&self) -> LayoutView {
        LayoutView {
            working_directory: self.working_directory.deep_view(),
            command: self.command.deep_view(),
            title: self.title.deep_view(),
            shell: self.shell.deep_view(),
            env: self.env@,
            tabs: self.tabs.deep_view(),
            label: self.label@,
        }
    }
}

impl<'a> DeepView for TerminalStartupLayout<'a> {
    type V = LayoutView;

    open spec fn deep_view(&self) -> LayoutView {
        self@
    }
}

/// The layout outside all profiles.
pub open spec fn root_layout(config: ConfigView) -> LayoutView {
    LayoutView {
        working_directory: config.working_directory,
        command: config.command,
        title: config.title,
        shell: config.shell,
        env: config.env,
        tabs: config.tabs,
        label: "root startup layout"@,
    }
}

/// The layout of the profile with this name.
pub open spec fn profile_layout(name: Seq<char>, profile: ProfileConfigView) -> LayoutView {
    LayoutView {
        working_directory: profile.working_directory,
        command: profile.command,
        title: profile.title,
        shell: profile.shell,
        env: profile.env,
        tabs: profile.tabs,
        label: "startup profile "@ + quoted(name),
    }
}

/// The names of the configured profiles, in order.
pub open spec fn profile_name_list(config: ConfigView) -> Seq<Seq<char>> {
    config.profiles.map_values(|entry: (Seq<char>, ProfileConfigView)| entry.0)
}

/// `message` with the name that is missing and, where there are profiles,
/// the names there are.
pub open spec fn missing_profile(
    message: Seq<char>,
    name: Seq<char>,
    config: ConfigView,
) -> Seq<char> {
    if config.profiles.len() == 0 {
        message + name
    } else {
        message + name + ". Available profiles: "@ + joined(profile_name_list(config), ", "@)
    }
}

/// The layout to open: that of the requested profile, else that of the default
/// profile, else the one outside all profiles.
pub open spec fn chosen_layout(config: ConfigView, requested: Option<Seq<char>>) -> Result<
    LayoutView,
    Seq<Seq<char>>,
> {
    let name = match requested {
        Some(name) => Some(name),
        None => config.default_profile,
    };
    match name {
        None => Ok(root_layout(config)),
        Some(name) => if name.len() == 0 {
            Err(seq!["startup profile name is empty"@])
        } else {
            match lookup(config.profiles, name) {
                Some(profile) => Ok(profile_layout(name, profile)),
                None => Err(seq![missing_profile("startup profile not found: "@, name, config)]),
            }
        },
    }
}

/// The first tab of a layout whose shell is known.
pub open spec fn first_tab(
    layout: LayoutView,
    shell: Option<ShellView>,
    directories: Inspections,
) -> Result<LaunchTabView, Seq<Seq<char>>> {
    tab_from_fields(
        layout.working_directory,
        layout.command,
        layout.env,
        Map::empty(),
        layout.title,
        shell,
        None,
        None,
        "initial tab for "@ + layout.label,
        directories,
    )
}

/// The first tab of the layout that `requested` chooses.
pub open spec fn chosen_first_tab(
    config: ConfigView,
    requested: Option<Seq<char>>,
    directories: Inspections,
) -> Result<LaunchTabView, Seq<Seq<char>>> {
    match chosen_layout(config, requested) {
        Ok(layout) => match configured_shell_option(layout.shell) {
            Ok(shell) => first_tab(layout, shell, directories),
            Err(messages) => Err(messages),
        },
        Err(messages) => Err(messages),
    }
}

/// The tab that opens a profile on its own: the first tab of its layout.
pub open spec fn profile_tab(
    config: ConfigView,
    profile: Seq<char>,
    split: Option<TerminalStartupSplitDirection>,
    directories: Inspections,
) -> Result<LaunchTabView, Seq<Seq<char>>> {
    if trimmed(profile).len() == 0 {
        Err(seq!["startup profile name is empty"@])
    } else {
        match chosen_first_tab(config, Some(trimmed(profile)), directories) {
            Ok(tab) => Ok(LaunchTabView { split, ..tab }),
            Err(messages) => Err(messages),
        }
    }
}

/// Why a tab that names a profile may not have the fields it has, if so.
pub open spec fn profile_tab_problem(tab: TabConfigView, label: Seq<char>) -> Option<Seq<char>> {
    if tab.working_directory is Some {
        Some("profile startup tab cannot include working_directory for "@ + label)
    } else if tab.command is Some {
        Some("profile startup tab cannot include command for "@ + label)
    } else if tab.shell is Some {
        Some("profile startup tab cannot include shell for "@ + label)
    } else if tab.env != Map::<Seq<char>, Seq<char>>::empty() {
        Some("profile startup tab cannot include env for "@ + label)
    } else {
        None
    }
}

/// The tab that a configured tab of a layout stands for.
pub open spec fn configured_tab(
    config: ConfigView,
    tab: TabConfigView,
    env: Map<Seq<char>, Seq<char>>,
    shell: Option<ShellView>,
    label: Seq<char>,
    directories: Inspections,
) -> Result<LaunchTabView, Seq<Seq<char>>> {
    match tab.profile {
        Some(profile) => match profile_tab_problem(tab, label) {
            Some(problem) => Err(seq![problem]),
            None => match in_context(
                profile_tab(config, profile, tab.split, directories),
                "failed to resolve profile for "@ + label,
            ) {
                Ok(launch_tab) => if tab.title is Some {
                    Ok(LaunchTabView { title: normalized(tab.title), ..launch_tab })
                } else {
                    Ok(launch_tab)
                },
                Err(messages) => Err(messages),
            },
        },
        None => tab_from_fields(
            tab.working_directory,
            tab.command,
            env,
            tab.env,
            tab.title,
            shell,
            tab.shell,
            tab.split,
            label,
            directories,
        ),
    }
}

/// The tabs that the configured tabs of a layout stand for; the first that
/// fails decides the error. The first of them is the layout's second tab.
pub open spec fn configured_tabs(
    config: ConfigView,
    tabs: Seq<TabConfigView>,
    env: Map<Seq<char>, Seq<char>>,
    shell: Option<ShellView>,
    label: Seq<char>,
    directories: Inspections,
) -> Result<Seq<LaunchTabView>, Seq<Seq<char>>>
    decreases tabs.len(),
{
    if tabs.len() == 0 {
        Ok(Seq::empty())
    } else {
        match configured_tabs(config, tabs.drop_last(), env, shell, label, directories) {
            Ok(front) => match configured_tab(
                config,
                tabs.last(),
                env,
                shell,
                tab_label(tabs.len() + 1, label),
                directories,
            ) {
                Ok(last) => Ok(front.push(last)),
                Err(messages) => Err(messages),
            },
            Err(messages) => Err(messages),
        }
    }
}

/// How errors name the tab with this number, counted from one.
pub open spec fn tab_label(number: nat, label: Seq<char>) -> Seq<char> {
    "tab "@ + decimal(number) + " for "@ + label
}

/// The tabs after the first of the layout that `requested` chooses.
pub open spec fn chosen_further_tabs(
    config: ConfigView,
    requested: Option<Seq<char>>,
    directories: Inspections,
) -> Result<Seq<LaunchTabView>, Seq<Seq<char>>> {
    match chosen_layout(config, requested) {
        Ok(layout) => match configured_shell_option(layout.shell) {
            Ok(shell) => configured_tabs(
                config,
                layout.tabs,
                layout.env,
                shell,
                layout.label,
                directories,
            ),
            Err(messages) => Err(messages),
        },
        Err(messages) => Err(messages),
    }
}

fn format_tab_label(number: u128, label: &str) -> (r: String)
    ensures
        r@ == tab_label(number as nat, label@),
{
    let mut text = "tab ".to_owned();
    text.append(decimal_text(number).as_str());
    text.append(" for ");
    text.append(label);
    text
}

impl TerminalStartupProfileConfig {
    /// The layout of this profile, which goes by `name`.
    pub(crate) fn layout(&self, name: &str) -> (r: TerminalStartupLayout<'_>)
        ensures
            r@ == profile_layout(name@, self@),
    {
        TerminalStartupLayout {
            working_directory: option_str(&self.working_directory),
            command: option_str(&self.command),
            title: option_str(&self.title),
            shell: self.shell.as_ref(),
            env: &self.env,
            tabs: &self.tabs,
            label: "startup profile ".to_owned().concat(quote(name).as_str()),
        }
    }
}

impl TerminalStartupConfig {
    /// The names of the profiles, in order.
    pub fn profile_names(&self) -> (r: Vec<String>)
        ensures
            r.deep_view() == profile_name_list(self@),
    {
        let mut names: Vec<String> = Vec::new();
        let mut i: usize = 0;
        while i < self.profiles.len()
            invariant
                i <= self.profiles.entries().len(),
                names.deep_view() == profile_name_list(self@).take(i as int),
            decreases self.profiles.entries().len() - i,
        {
            let ghost before = names.deep_view();
            names.push(self.profiles.name_at(i).clone());
            i = i + 1;
            proof {
                let all = profile_name_list(self@);
                assert(names.deep_view() =~= before.push(all[i - 1]));
                assert(all.take(i as int) =~= all.take(i - 1).push(all[i - 1]));
            }
        }
        proof {
            let all = profile_name_list(self@);
            assert(all.take(all.len() as int) =~= all);
        }
        names
    }

    pub(crate) fn missing_profile_message(&self, message: &str, name: &str) -> (r: String)
        ensures
            r@ == missing_profile(message@, name@, self@),
    {
        let mut text = message.to_owned();
        text.append(name);
        if !self.profiles.is_empty() {
            text.append(". Available profiles: ");
            text.append(join(&self.profile_names(), ", ").as_str());
        }
        text
    }

    /// The layout outside all profiles.
    pub(crate) fn layout_of_root(&self) -> (r: TerminalStartupLayout<'_>)
        ensures
            r@ == root_layout(self@),
    {
        TerminalStartupLayout {
            working_directory: option_str(&self.working_directory),
            command: option_str(&self.command),
            title: option_str(&self.title),
            shell: self.shell.as_ref(),
            env: &self.env,
            tabs: &self.tabs,
            label: "root startup layout".to_owned(),
        }
    }

    /// The layout to open: that of the requested profile, else that of the
    /// default profile, else the one outside all profiles.
    pub fn selected_layout(&self, requested_profile: Option<&str>) -> (r: Result<
        TerminalStartupLayout<'_>,
        StartupError,
    >)
        ensures
            outcome(r) == chosen_layout(self@, requested_profile.deep_view()),
    {
        let profile_name = match requested_profile {
            Some(name) => Some(name),
            None => option_str(&self.default_profile),
        };
        let profile_name = match profile_name {
            Some(name) => name,
            None => {
                return Ok(self.layout_of_root());
            },
        };
        if profile_name.is_empty() {
            return Err(StartupError::from_text("startup profile name is empty"));
        }
        match self.profiles.get(profile_name) {
            Some(profile) => Ok(profile.layout(profile_name)),
            None => Err(
                StartupError::new(
                    self.missing_profile_message("startup profile not found: ", profile_name),
                ),
            ),
        }
    }

    /// The first tab of the layout that `requested_profile` chooses.
    pub fn initial_tab(
        &self,
        requested_profile: Option<&str>,
        directories: &WorkingDirectories,
    ) -> (r: Result<LaunchTab, StartupError>)
        ensures
            outcome(r) == chosen_first_tab(
                self@,
                requested_profile.deep_view(),
                directories.entries(),
            ),
    {
        let layout = match self.selected_layout(requested_profile) {
            Ok(layout) => layout,
            Err(error) => {
                return Err(error);
            },
        };
        let shell = match optional_shell(layout.shell) {
            Ok(shell) => shell,
            Err(error) => {
                return Err(error);
            },
        };
        LaunchTab::from_config(
            layout.working_directory,
            layout.command,
            layout.env,
            &NameMap::new(),
            layout.title,
            shell.as_ref(),
            None,
            None,
            "initial tab for ".to_owned().concat(layout.label.as_str()).as_str(),
            directories,
        )
    }

    /// The variables that command tabs of the chosen layout run with.
    pub fn inherited_env(&self, requested_profile: Option<&str>) -> (r: Result<
        EnvVars,
        StartupError,
    >)
        ensures
            outcome(r) == chosen_env(self@, requested_profile.deep_view()),
    {
        match self.selected_layout(requested_profile) {
            Ok(layout) => Ok(copy_env(layout.env)),
            Err(error) => Err(error),
        }
    }

    /// The shell that shell tabs of the chosen layout run.
    pub fn inherited_shell(&self, requested_profile: Option<&str>) -> (r: Result<
        Option<Shell>,
        StartupError,
    >)
        ensures
            outcome(r) == chosen_shell(self@, requested_profile.deep_view()),
    {
        match self.selected_layout(requested_profile) {
            Ok(layout) => optional_shell(layout.shell),
            Err(error) => Err(error),
        }
    }

    /// The tabs after the first of the layout that `requested_profile`
    /// chooses.
    pub fn additional_tabs(
        &self,
        requested_profile: Option<&str>,
        directories: &WorkingDirectories,
    ) -> (r: Result<Vec<LaunchTab>, StartupError>)
        ensures
            outcome(r) == chosen_further_tabs(
                self@,
                requested_profile.deep_view(),
                directories.entries(),
            ),
    {
        let layout = match self.selected_layout(requested_profile) {
            Ok(layout) => layout,
            Err(error) => {
                return Err(error);
            },
        };
        let shell = match optional_shell(layout.shell) {
            Ok(shell) => shell,
            Err(error) => {
                return Err(error);
            },
        };
        self.tabs_from_config(
            layout.tabs,
            layout.env,
            shell.as_ref(),
            layout.label.as_str(),
            directories,
        )
    }

    pub(crate) fn tabs_from_config(
        &self,
        tabs: &Vec<TerminalStartupTabConfig>,
        env: &EnvVars,
        shell: Option<&Shell>,
        label: &str,
        directories: &WorkingDirectories,
    ) -> (r: Result<Vec<LaunchTab>, StartupError>)
        ensures
            outcome(r) == configured_tabs(
                self@,
                tabs.deep_view(),
                env@,
                shell.deep_view(),
                label@,
                directories.entries(),
            ),
    {
        let ghost all = tabs.deep_view();
        let mut launch_tabs: Vec<LaunchTab> = Vec::new();
        let mut i: usize = 0;
        proof {
            assert(all.take(0) =~= Seq::empty());
            assert(launch_tabs.deep_view() =~= Seq::empty());
        }
        while i < tabs.len()
            invariant
                i <= tabs@.len(),
                all == tabs.deep_view(),
                configured_tabs(
                    self@,
                    all.take(i as int),
                    env@,
                    shell.deep_view(),
                    label@,
                    directories.entries(),
                ) == Ok::<Seq<LaunchTabView>, Seq<Seq<char>>>(launch_tabs.deep_view()),
            decreases tabs@.len() - i,
        {
            let ghost before = launch_tabs.deep_view();
            let number: u128 = i as u128 + 2;
            let tab = self.tab_from_config(
                &tabs[i],
                env,
                shell,
                format_tab_label(number, label).as_str(),
                directories,
            );
            proof {
                assert(all.take(i + 1).drop_last() =~= all.take(i as int));
                assert(all.take(i + 1).last() == tabs@[i as int]@);
            }
            match tab {
                Ok(tab) => {
                    launch_tabs.push(tab);
                    proof {
                        assert(launch_tabs.deep_view() =~= before.push(tab@));
                    }
                },
                Err(error) => {
                    proof {
                        lemma_first_failure(
                            self@,
                            all,
                            i + 1,
                            env@,
                            shell.deep_view(),
                            label@,
                            directories.entries(),
                        );
                    }
                    return Err(error);
                },
            }
            i = i + 1;
        }
        proof {
            assert(all.take(all.len() as int) =~= all);
        }
        Ok(launch_tabs)
    }

    /// The tab that a configured tab of a layout stands for.
    pub fn tab_from_config(
        &self,
        tab: &TerminalStartupTabConfig,
        inherited_env: &EnvVars,
        inherited_shell: Option<&Shell>,
        label: &str,
        directories: &WorkingDirectories,
    ) -> (r: Result<LaunchTab, StartupError>)
        ensures
            outcome(r) == configured_tab(
                self@,
                tab@,
                inherited_env@,
                inherited_shell.deep_view(),
                label@,
                directories.entries(),
            ),
    {
        match &tab.profile {
            Some(profile) => {
                match Self::validate_profile_tab_fields(tab, label) {
                    Ok(_) => {},
                    Err(error) => {
                        return Err(error);
                    },
                }
                match self.profile_launch_tab(profile.as_str(), tab.split, directories) {
                    Ok(launch_tab) => {
                        let mut launch_tab = launch_tab;
                        if tab.title.is_some() {
                            launch_tab.title = normalize_terminal_title(option_str(&tab.title));
                        }
                        Ok(launch_tab)
                    },
                    Err(error) => Err(
                        error.context("failed to resolve profile for ".to_owned().concat(label)),
                    ),
                }
            },
            None => LaunchTab::from_config(
                option_str(&tab.working_directory),
                option_str(&tab.command),
                inherited_env,
                &tab.env,
                option_str(&tab.title),
                inherited_shell,
                tab.shell.as_ref(),
                tab.split,
                label,
                directories,
            ),
        }
    }

    /// A tab that names a profile may set a title and a split only.
    pub fn validate_profile_tab_fields(tab: &TerminalStartupTabConfig, label: &str) -> (r: Result<
        (),
        StartupError,
    >)
        ensures
            match profile_tab_problem(tab@, label@) {
                Some(problem) => r matches Err(error) && error@ == seq![problem],
                None => r is Ok,
            },
    {
        if tab.working_directory.is_some() {
            return Err(
                StartupError::new(
                    "profile startup tab cannot include working_directory for ".to_owned().concat(
                        label,
                    ),
                ),
            );
        }
        if tab.command.is_some() {
            return Err(
                StartupError::new(
                    "profile startup tab cannot include command for ".to_owned().concat(label),
                ),
            );
        }
        if tab.shell.is_some() {
            return Err(
                StartupError::new(
                    "profile startup tab cannot include shell for ".to_owned().concat(label),
                ),
            );
        }
        if !tab.env.is_empty() {
            return Err(
                StartupError::new(
                    "profile startup tab cannot include env for ".to_owned().concat(label),
                ),
            );
        }
        Ok(())
    }

    /// The tab that opens a profile on its own.
    pub fn profile_initial_tab(&self, profile: &str, directories: &WorkingDirectories) -> (r:
        Result<LaunchTab, StartupError>)
        ensures
            outcome(r) == profile_tab(self@, profile@, None, directories.entries()),
    {
        self.profile_launch_tab(profile, None, directories)
    }

    /// The tab that opens a profile on its own, in a split if one is given.
    pub fn profile_launch_tab(
        &self,
        profile: &str,
        split: Option<TerminalStartupSplitDirection>,
        directories: &WorkingDirectories,
    ) -> (r: Result<LaunchTab, StartupError>)
        ensures
            outcome(r) == profile_tab(self@, profile@, split, directories.entries()),
    {
        let profile = trim(profile);
        if profile.is_empty() {
            return Err(StartupError::from_text("startup profile name is empty"));
        }
        match self.initial_tab(Some(profile), directories) {
            Ok(tab) => {
                let mut tab = tab;
                tab.split = split;
                Ok(tab)
            },
            Err(error) => Err(error),
        }
    }
}

/// The variables that command tabs of the chosen layout run with.
pub open spec fn chosen_env(config: ConfigView, requested: Option<Seq<char>>) -> Result<
    Map<Seq<char>, Seq<char>>,
    Seq<Seq<char>>,
> {
    match chosen_layout(config, requested) {
        Ok(layout) => Ok(layout.env),
        Err(messages) => Err(messages),
    }
}

/// The shell that shell tabs of the chosen layout run.
pub open spec fn chosen_shell(config: ConfigView, requested: Option<Seq<char>>) -> Result<
    Option<ShellView>,
    Seq<Seq<char>>,
> {
    match chosen_layout(config, requested) {
        Ok(layout) => configured_shell_option(layout.shell),
        Err(messages) => Err(messages),
    }
}

/// Once some tab of a layout has failed, its error stands for the layout.
proof fn lemma_first_failure(
    config: ConfigView,
    tabs: Seq<TabConfigView>,
    n: int,
    env: Map<Seq<char>, Seq<char>>,
    shell: Option<ShellView>,
    label: Seq<char>,
    directories: Inspections,
)
    requires
        0 <= n <= tabs.len(),
        configured_tabs(config, tabs.take(n), env, shell, label, directories) is Err,
    ensures
        configured_tabs(config, tabs, env, shell, label, directories) == configured_tabs(
            config,
            tabs.take(n),
            env,
            shell,
            label,
            directories,
        ),
    decreases tabs.len() - n,
{
    if n == tabs.len() {
        assert(tabs.take(n) =~= tabs);
    } else {
        assert(tabs.take(n + 1).drop_last() =~= tabs.take(n));
        lemma_first_failure(config, tabs, n + 1, env, shell, label, directories);
    }
}

} // verus!
