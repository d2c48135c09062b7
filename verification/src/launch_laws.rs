//! What holds of the windows and tabs that a command line and a startup
//! configuration open.

use crate::cli::{free_of_conflicts, given, CliArgument, CliView};
use crate::command::{
    command_label, runs_command, shell_words, HideStrategy, LaunchCommandView, RevealStrategy,
    RevealTarget, SaveStrategy, ShellView, SpawnInTerminal,
};
use crate::config::{
    configured_shell_option, empty_config, ConfigFileView, ConfigView, ProfileConfigView,
    ShellConfigView, TabConfigView,
};
use crate::directory::{resolved, resolved_option, DirectoryInspectionView, Inspections};
use crate::error::{collected, lemma_collected_values};
use crate::launch::{
    asked_command, asked_tabs, asked_with_file, command_paths, distinct_directories,
    effective_config, effective_profile, reads_startup_config, runtime_window, startup_tabs,
    window, CliCommandView, LaunchOptionsView,
};
use crate::launch_tab::{command_tab, directory_tab, named_profile_tab, LaunchTabView};
use crate::layout::{
    chosen_first_tab, chosen_further_tabs, chosen_layout, configured_tab, configured_tabs,
    profile_tab, LayoutView,
};
use crate::name_map::{has_name, in_name_order, lemma_lookup_at, names_at};
use crate::path_parts::same_path;
use crate::paths::{PathOptionsView, Platform};
use crate::text::trimmed;
use crate::window::tab_or_in;
use vstd::prelude::*;

verus! {

/// Whether a tab starts in the directory that was named, as it was found on
/// disk: in none where none was named.
pub open spec fn starts_in(
    directory: Option<Seq<char>>,
    named: Option<Seq<char>>,
    directories: Inspections,
) -> bool {
    match named {
        None => directory is None,
        Some(named) => directory is Some && exists|i: int|
            0 <= i < directories.len() && (#[trigger] directories[i]).0 == named && directories[i].1
                == (DirectoryInspectionView::Directory { canonical: directory->0 }),
    }
}

/// Whether a tab has the title that was given, without the white space around
/// it: none where none was given or where it is blank.
pub open spec fn is_titled(title: Option<Seq<char>>, given: Option<Seq<char>>) -> bool {
    match given {
        None => title is None,
        Some(given) => if trimmed(given).len() == 0 {
            title is None
        } else {
            title == Some(trimmed(given))
        },
    }
}

/// Whether a tab runs the program that these words name, with the rest of them
/// as its arguments.
pub open spec fn runs_words(tab: LaunchTabView, words: Seq<Seq<char>>) -> bool {
    &&& words.len() > 0
    &&& tab.command == Some(LaunchCommandView { program: words[0], args: words.skip(1) })
    &&& tab.shell is None
}

/// Whether a tab runs the shell that was configured, or that of the settings
/// where none was.
pub open spec fn runs_shell(shell: Option<ShellView>, configured: Option<ShellConfigView>) -> bool {
    match configured {
        None => shell is None,
        Some(configured) => {
            let program = trimmed(configured.program);
            &&& program.len() > 0
            &&& configured.args.len() == 0 ==> shell == Some(ShellView::Program(program))
            &&& configured.args.len() > 0 ==> shell == Some(
                ShellView::WithArguments { program, args: configured.args, title_override: None },
            )
        },
    }
}

/// Whether a tab runs a command line with these variables or, where there is
/// no command line, a shell without any.
pub open spec fn runs(
    tab: LaunchTabView,
    line: Option<Seq<char>>,
    env: Map<Seq<char>, Seq<char>>,
    shell: Option<ShellConfigView>,
) -> bool {
    match line {
        Some(line) => {
            &&& shell_words(line) matches Some(words) && runs_words(tab, words)
            &&& tab.env == env
        },
        None => tab.command is None && tab.env == Map::<Seq<char>, Seq<char>>::empty()
            && runs_shell(tab.shell, shell),
    }
}

/// The text at a place, if there are so many.
pub open spec fn text_at(texts: Seq<Seq<char>>, k: int) -> Option<Seq<char>> {
    if 0 <= k < texts.len() {
        Some(texts[k])
    } else {
        None
    }
}

/// Whether these are the fields of a layout as the configuration has them.
pub open spec fn is_profile_layout(layout: LayoutView, profile: ProfileConfigView) -> bool {
    &&& layout.working_directory == profile.working_directory
    &&& layout.command == profile.command
    &&& layout.title == profile.title
    &&& layout.shell == profile.shell
    &&& layout.env == profile.env
    &&& layout.tabs == profile.tabs
}

proof fn lemma_resolved_option(
    named: Option<Seq<char>>,
    directories: Inspections,
)
    requires
        resolved_option(named, directories) is Ok,
    ensures
        starts_in(resolved_option(named, directories)->Ok_0, named, directories),
{
    if named is Some {
        let input = named->0;
        assert(has_name(directories, input));
        let i = choose|i: int| names_at(directories, input, i);
        assert(directories[i].0 == input);
    }
}

/// A directory that was looked up resolves to what was found: to its canonical
/// path where it is a directory, else to an error.
pub proof fn law_directories_resolve_to_what_was_found(directories: Inspections, i: int)
    requires
        in_name_order(directories),
        0 <= i < directories.len(),
    ensures
        resolved(directories[i].0, directories) == (match directories[i].1 {
            DirectoryInspectionView::Directory { canonical } => Ok::<Seq<char>, Seq<Seq<char>>>(
                canonical,
            ),
            _ => Err(resolved(directories[i].0, directories)->Err_0),
        }),
{
    lemma_lookup_at(directories, i);
}

/// A profile that is asked for by its name is found, and so is the default
/// profile where none is asked for. The layout is that of the profile.
pub proof fn law_named_profile_is_chosen(
    config: ConfigView,
    requested: Option<Seq<char>>,
    k: int,
)
    requires
        in_name_order(config.profiles),
        0 <= k < config.profiles.len(),
        config.profiles[k].0.len() > 0,
        requested == Some(config.profiles[k].0) || requested is None && config.default_profile
            == Some(config.profiles[k].0),
    ensures
        chosen_layout(config, requested) matches Ok(layout) && is_profile_layout(
            layout,
            config.profiles[k].1,
        ),
{
    lemma_lookup_at(config.profiles, k);
}

/// Without a profile the layout is the one outside all profiles, and a profile
/// that does not exist is none: neither that nor another one is opened.
pub proof fn law_missing_profiles_are_not_chosen(
    config: ConfigView,
    requested: Option<Seq<char>>,
)
    ensures
        requested is None && config.default_profile is None ==> (chosen_layout(config, requested)
            matches Ok(layout) && layout.working_directory == config.working_directory
            && layout.command == config.command && layout.title == config.title && layout.shell
            == config.shell && layout.env == config.env && layout.tabs == config.tabs),
        requested matches Some(name) ==> (forall|k: int|
            0 <= k < config.profiles.len() ==> (#[trigger] config.profiles[k]).0 != name)
            ==> chosen_layout(config, requested) is Err,
        requested is None ==> (config.default_profile matches Some(name) ==> (forall|k: int|
            0 <= k < config.profiles.len() ==> (#[trigger] config.profiles[k]).0 != name)
            ==> chosen_layout(config, requested) is Err),
{
    let name = if requested is Some {
        requested
    } else {
        config.default_profile
    };
    if name is Some && has_name(config.profiles, name->0) {
        let k = choose|k: int| names_at(config.profiles, name->0, k);
        assert(config.profiles[k].0 == name->0);
    }
}

/// The first tab of a layout starts in the layout's directory, runs its command
/// or its shell and has its title.
pub proof fn law_first_tab_is_what_the_layout_says(
    config: ConfigView,
    requested: Option<Seq<char>>,
    directories: Inspections,
)
    requires
        chosen_first_tab(config, requested, directories) is Ok,
    ensures
        chosen_layout(config, requested) matches Ok(layout) && ({
            let tab = chosen_first_tab(config, requested, directories)->Ok_0;
            &&& starts_in(tab.working_directory, layout.working_directory, directories)
            &&& runs(tab, layout.command, layout.env, layout.shell)
            &&& is_titled(tab.title, layout.title)
            &&& tab.split is None
        }),
{
    let layout = chosen_layout(config, requested)->Ok_0;
    lemma_resolved_option(layout.working_directory, directories);
    let tab = chosen_first_tab(config, requested, directories)->Ok_0;
    assert(layout.env.union_prefer_right(Map::empty()) =~= layout.env);
}

/// A profile that is opened on its own opens as its configuration says, in the
/// split that was asked for.
pub proof fn law_profile_opens_as_configured(
    config: ConfigView,
    profile: Seq<char>,
    split: Option<crate::config::TerminalStartupSplitDirection>,
    directories: Inspections,
    k: int,
)
    requires
        in_name_order(config.profiles),
        0 <= k < config.profiles.len(),
        config.profiles[k].0 == trimmed(profile),
        profile_tab(config, profile, split, directories) is Ok,
    ensures
        ({
            let tab = profile_tab(config, profile, split, directories)->Ok_0;
            let configured = config.profiles[k].1;
            &&& starts_in(tab.working_directory, configured.working_directory, directories)
            &&& runs(tab, configured.command, configured.env, configured.shell)
            &&& is_titled(tab.title, configured.title)
            &&& tab.split == split
        }),
{
    law_named_profile_is_chosen(config, Some(trimmed(profile)), k);
    law_first_tab_is_what_the_layout_says(config, Some(trimmed(profile)), directories);
}

/// A command on the command line changes nothing of the first tab but its
/// command, its variables and its shell, and a title nothing but the title. The
/// tab is otherwise what new tabs start from: it starts in the directory that
/// the command line asks for, or else in that of the layout, and is otherwise
/// as the layout says.
pub proof fn law_first_tab_of_a_window(
    cli: CliView,
    config: ConfigView,
    path_options: PathOptionsView,
    directories: Inspections,
)
    requires
        window(cli, config, path_options, directories) is Ok,
    ensures
        ({
            let options = window(cli, config, path_options, directories)->Ok_0;
            let first = options.initial_tab;
            let later = options.new_terminal_tab;
            let layout = (if cli.no_startup_config {
                chosen_layout(empty_config(), None)
            } else {
                chosen_layout(config, cli.profile)
            })->Ok_0;
            let named = if cli.working_directory is Some {
                cli.working_directory
            } else if cli.directory is Some {
                cli.directory
            } else {
                layout.working_directory
            };
            &&& options.path_options == path_options
            &&& first.working_directory == later.working_directory
            &&& starts_in(later.working_directory, named, directories)
            &&& runs(later, layout.command, layout.env, layout.shell)
            &&& is_titled(later.title, layout.title)
            &&& later.split is None
            &&& first.split is None
            &&& cli.command.len() == 0 ==> first.command == later.command && first.env == later.env
                && first.shell == later.shell
            &&& cli.command.len() > 0 ==> runs_words(first, cli.command) && first.env == layout.env
            &&& cli.title is None ==> first.title == later.title
            &&& cli.title is Some ==> is_titled(first.title, cli.title)
        }),
{
    let used = effective_config(cli, config);
    let profile = effective_profile(cli);
    law_first_tab_is_what_the_layout_says(used, profile, directories);
    let named = if cli.working_directory is Some {
        cli.working_directory
    } else {
        cli.directory
    };
    lemma_resolved_option(named, directories);
}

proof fn lemma_configured_tab(
    config: ConfigView,
    tab: TabConfigView,
    env: Map<Seq<char>, Seq<char>>,
    shell: Option<ShellView>,
    label: Seq<char>,
    directories: Inspections,
)
    requires
        configured_tab(config, tab, env, shell, label, directories) is Ok,
    ensures
        opens_configured_tab(
            configured_tab(config, tab, env, shell, label, directories)->Ok_0,
            config,
            tab,
            env,
            shell,
            directories,
        ),
{
    let opened = configured_tab(config, tab, env, shell, label, directories)->Ok_0;
    if tab.profile is None {
        lemma_resolved_option(tab.working_directory, directories);
    }
}

/// Whether a configured tab has none of the fields that a profile has for it.
pub open spec fn has_profile_fields_alone(tab: TabConfigView) -> bool {
    &&& tab.working_directory is None
    &&& tab.command is None
    &&& tab.shell is None
    &&& tab.env == Map::<Seq<char>, Seq<char>>::empty()
}

/// Whether a tab is what a configured tab of a layout stands for. One that names
/// a profile opens as that profile does, but for the title and the split that
/// it has itself. Any other runs its own command, with the variables of the
/// layout and its own, or its own shell or else that of the layout.
pub open spec fn opens_configured_tab(
    opened: LaunchTabView,
    config: ConfigView,
    tab: TabConfigView,
    env: Map<Seq<char>, Seq<char>>,
    shell: Option<ShellView>,
    directories: Inspections,
) -> bool {
    match tab.profile {
        Some(profile) => {
            &&& chosen_first_tab(config, Some(trimmed(profile)), directories) matches Ok(alone)
                && opens_alike(opened, alone, tab.title)
            &&& opened.split == tab.split
            &&& trimmed(profile).len() > 0
            &&& has_profile_fields_alone(tab)
        },
        None => {
            &&& starts_in(opened.working_directory, tab.working_directory, directories)
            &&& is_titled(opened.title, tab.title)
            &&& opened.split == tab.split
            &&& match tab.command {
                Some(line) => {
                    &&& shell_words(line) matches Some(words) && runs_words(opened, words)
                    &&& tab.shell is None
                    &&& forall|name: Seq<char>|
                        {
                            &&& #[trigger] opened.env.contains_key(name)
                                <==> tab.env.contains_key(name) || env.contains_key(name)
                            &&& tab.env.contains_key(name) ==> opened.env[name] == tab.env[name]
                            &&& !tab.env.contains_key(name) && env.contains_key(name)
                                ==> opened.env[name] == env[name]
                        }
                },
                None => {
                    &&& opened.command is None
                    &&& opened.env == Map::<Seq<char>, Seq<char>>::empty()
                    &&& tab.env == Map::<Seq<char>, Seq<char>>::empty()
                    &&& if tab.shell is Some {
                        runs_shell(opened.shell, tab.shell)
                    } else {
                        opened.shell == shell
                    }
                },
            }
        },
    }
}

/// Whether a tab is the same as another but for its split and, where one is
/// given, its title.
pub open spec fn opens_alike(
    tab: LaunchTabView,
    alone: LaunchTabView,
    title: Option<Seq<char>>,
) -> bool {
    &&& tab.working_directory == alone.working_directory
    &&& tab.command == alone.command
    &&& tab.env == alone.env
    &&& tab.shell == alone.shell
    &&& title is None ==> tab.title == alone.title
    &&& title is Some ==> is_titled(tab.title, title)
}

proof fn lemma_configured_tabs(
    config: ConfigView,
    tabs: Seq<TabConfigView>,
    env: Map<Seq<char>, Seq<char>>,
    shell: Option<ShellView>,
    label: Seq<char>,
    directories: Inspections,
)
    requires
        configured_tabs(config, tabs, env, shell, label, directories) is Ok,
    ensures
        ({
            let opened = configured_tabs(config, tabs, env, shell, label, directories)->Ok_0;
            &&& opened.len() == tabs.len()
            &&& forall|k: int|
                0 <= k < tabs.len() ==> opens_configured_tab(
                    #[trigger] opened[k],
                    config,
                    tabs[k],
                    env,
                    shell,
                    directories,
                )
        }),
    decreases tabs.len(),
{
    if tabs.len() > 0 {
        lemma_configured_tabs(config, tabs.drop_last(), env, shell, label, directories);
        lemma_configured_tab(
            config,
            tabs.last(),
            env,
            shell,
            crate::layout::tab_label(tabs.len() + 1, label),
            directories,
        );
        let front = configured_tabs(
            config,
            tabs.drop_last(),
            env,
            shell,
            label,
            directories,
        )->Ok_0;
        let opened = configured_tabs(config, tabs, env, shell, label, directories)->Ok_0;
        assert forall|k: int| 0 <= k < tabs.len() implies opens_configured_tab(
            #[trigger] opened[k],
            config,
            tabs[k],
            env,
            shell,
            directories,
        ) by {
            if k < front.len() {
                assert(opened[k] == front[k]);
                assert(tabs.drop_last()[k] == tabs[k]);
            }
        }
    }
}

/// A layout opens one further tab for each that it configures, in their order.
pub proof fn law_configured_tabs_open_in_order(
    config: ConfigView,
    requested: Option<Seq<char>>,
    directories: Inspections,
)
    requires
        chosen_further_tabs(config, requested, directories) is Ok,
    ensures
        chosen_layout(config, requested) matches Ok(layout) && ({
            let opened = chosen_further_tabs(config, requested, directories)->Ok_0;
            &&& opened.len() == layout.tabs.len()
            &&& exists|shell: Option<ShellView>| #[trigger]
                runs_shell(shell, layout.shell) && forall|k: int|
                    0 <= k < layout.tabs.len() ==> opens_configured_tab(
                        #[trigger] opened[k],
                        config,
                        layout.tabs[k],
                        layout.env,
                        shell,
                        directories,
                    )
        }),
{
    let layout = chosen_layout(config, requested)->Ok_0;
    let shell = configured_shell_option(layout.shell)->Ok_0;
    lemma_configured_tabs(config, layout.tabs, layout.env, shell, layout.label, directories);
    assert(runs_shell(shell, layout.shell));
}

/// The tabs that the command line asks for open after all that are configured:
/// first one for each directory, then one for each profile, then one for each
/// command. The k-th of each kind is what its k-th argument asks for, with the
/// k-th title, split or directory of that kind where there are so many.
pub proof fn law_asked_tabs_open_in_order(
    cli: CliView,
    config: ConfigView,
    path_options: PathOptionsView,
    directories: Inspections,
    k: int,
)
    requires
        window(cli, config, path_options, directories) is Ok,
    ensures
        ({
            let options = window(cli, config, path_options, directories)->Ok_0;
            let used = if cli.no_startup_config {
                empty_config()
            } else {
                config
            };
            let layout = chosen_layout(
                used,
                if cli.no_startup_config {
                    None
                } else {
                    cli.profile
                },
            )->Ok_0;
            let configured = layout.tabs.len();
            let tabs = options.additional_tabs;
            &&& tabs.len() == configured + cli.new_tabs.len() + cli.new_tab_profiles.len()
                + cli.new_tab_commands.len()
            &&& 0 <= k < cli.new_tabs.len() ==> {
                let tab = tabs[configured + k];
                &&& starts_in(tab.working_directory, Some(cli.new_tabs[k]), directories)
                &&& tab.command is None
                &&& tab.env == Map::<Seq<char>, Seq<char>>::empty()
                &&& runs_shell(tab.shell, layout.shell)
                &&& is_titled(tab.title, text_at(cli.new_tab_titles, k))
                &&& tab.split is None
            }
            &&& 0 <= k < cli.new_tab_profiles.len() ==> {
                let tab = tabs[configured + cli.new_tabs.len() + k];
                &&& chosen_first_tab(
                    used,
                    Some(trimmed(cli.new_tab_profiles[k])),
                    directories,
                ) matches Ok(alone) && opens_alike(
                    tab,
                    alone,
                    text_at(cli.new_tab_profile_titles, k),
                )
                &&& k < cli.new_tab_profile_splits.len() ==> tab.split == Some(
                    cli.new_tab_profile_splits[k],
                )
                &&& k >= cli.new_tab_profile_splits.len() ==> tab.split is None
            }
            &&& 0 <= k < cli.new_tab_commands.len() ==> {
                let tab = tabs[configured + cli.new_tabs.len() + cli.new_tab_profiles.len() + k];
                &&& starts_in(
                    tab.working_directory,
                    text_at(cli.new_tab_command_directories, k),
                    directories,
                )
                &&& shell_words(cli.new_tab_commands[k]) matches Some(words) && runs_words(
                    tab,
                    words,
                )
                &&& tab.env == layout.env
                &&& is_titled(tab.title, text_at(cli.new_tab_command_titles, k))
                &&& tab.split is None
            }
        }),
{
    let options = window(cli, config, path_options, directories)->Ok_0;
    let used = effective_config(cli, config);
    let profile = effective_profile(cli);
    let layout = chosen_layout(used, profile)->Ok_0;
    let shell = configured_shell_option(layout.shell)->Ok_0;
    lemma_configured_tabs(used, layout.tabs, layout.env, shell, layout.label, directories);
    let asked = asked_tabs(cli);
    let first = directory_tab(asked.directories, asked.directory_titles, shell, directories);
    let second = named_profile_tab(
        asked.profiles,
        asked.profile_titles,
        asked.profile_splits,
        asked.directories.len(),
        used,
        directories,
    );
    let third = command_tab(
        asked.commands,
        asked.command_directories,
        asked.command_titles,
        asked.directories.len() + asked.profiles.len(),
        layout.env,
        directories,
    );
    lemma_collected_values(asked.directories.len(), first);
    lemma_collected_values(asked.profiles.len(), second);
    lemma_collected_values(asked.commands.len(), third);
    let a = collected(asked.directories.len(), first)->Ok_0;
    let b = collected(asked.profiles.len(), second)->Ok_0;
    let c = collected(asked.commands.len(), third)->Ok_0;
    let configured = chosen_further_tabs(used, profile, directories)->Ok_0;
    assert(options.additional_tabs == configured + (a + b + c));
    if 0 <= k < cli.new_tabs.len() {
        assert(first(k) == Ok::<LaunchTabView, Seq<Seq<char>>>(a[k]));
        assert(options.additional_tabs[configured.len() + k] == a[k]);
        lemma_resolved_option(Some(cli.new_tabs[k]), directories);
    }
    if 0 <= k < cli.new_tab_profiles.len() {
        assert(second(k) == Ok::<LaunchTabView, Seq<Seq<char>>>(b[k]));
        assert(options.additional_tabs[configured.len() + a.len() + k] == b[k]);
    }
    if 0 <= k < cli.new_tab_commands.len() {
        assert(third(k) == Ok::<LaunchTabView, Seq<Seq<char>>>(c[k]));
        assert(options.additional_tabs[configured.len() + a.len() + b.len() + k] == c[k]);
        lemma_resolved_option(text_at(cli.new_tab_command_directories, k), directories);
    }
}

/// Whether a directory that may have been named was found to be one.
pub open spec fn is_found(named: Option<Seq<char>>, directories: Inspections) -> bool {
    named matches Some(named) ==> exists|i: int|
        0 <= i < directories.len() && (#[trigger] directories[i]).0 == named
            && directories[i].1 is Directory
}

/// Whether a command line that may be there names a program.
pub open spec fn names_program(line: Option<Seq<char>>) -> bool {
    line matches Some(line) ==> (shell_words(line) matches Some(words) && words.len() > 0)
}

/// Whether a shell that may be configured names a program.
pub open spec fn names_shell(shell: Option<ShellConfigView>) -> bool {
    shell matches Some(shell) ==> trimmed(shell.program).len() > 0
}

proof fn lemma_found_directory_resolves(named: Option<Seq<char>>, directories: Inspections)
    requires
        in_name_order(directories),
        is_found(named, directories),
    ensures
        resolved_option(named, directories) is Ok,
        named matches Some(named) ==> resolved(named, directories) is Ok,
{
    if named is Some {
        let i = choose|i: int|
            0 <= i < directories.len() && (#[trigger] directories[i]).0 == named->0
                && directories[i].1 is Directory;
        lemma_lookup_at(directories, i);
    }
}

/// The first tab of a layout opens whenever its directory is found and its
/// command or its shell names a program.
pub proof fn law_first_tab_opens(
    config: ConfigView,
    requested: Option<Seq<char>>,
    directories: Inspections,
)
    requires
        in_name_order(directories),
        chosen_layout(config, requested) matches Ok(layout) && is_found(
            layout.working_directory,
            directories,
        ) && names_program(layout.command) && names_shell(layout.shell),
    ensures
        chosen_first_tab(config, requested, directories) is Ok,
{
    let layout = chosen_layout(config, requested)->Ok_0;
    lemma_found_directory_resolves(layout.working_directory, directories);
}

/// A configured tab opens whenever it names a profile whose first tab opens and
/// has no field of a profile itself, or else whenever its directory is found,
/// its command or its shell names a program, and it has not both nor variables
/// without a command.
pub proof fn law_configured_tab_opens(
    config: ConfigView,
    tab: TabConfigView,
    env: Map<Seq<char>, Seq<char>>,
    shell: Option<ShellView>,
    label: Seq<char>,
    directories: Inspections,
)
    requires
        in_name_order(directories),
        match tab.profile {
            Some(profile) => has_profile_fields_alone(tab) && trimmed(profile).len() > 0
                && chosen_first_tab(config, Some(trimmed(profile)), directories) is Ok,
            None => is_found(tab.working_directory, directories) && names_program(tab.command)
                && names_shell(tab.shell) && (tab.command is Some ==> tab.shell is None) && (
            tab.command is None ==> tab.env == Map::<Seq<char>, Seq<char>>::empty()),
        },
    ensures
        configured_tab(config, tab, env, shell, label, directories) is Ok,
{
    if tab.profile is None {
        lemma_found_directory_resolves(tab.working_directory, directories);
    }
}

proof fn lemma_collected_ok<T>(n: nat, step: spec_fn(int) -> Result<T, Seq<Seq<char>>>)
    requires
        forall|i: int| 0 <= i < n ==> (#[trigger] step(i)) is Ok,
    ensures
        collected(n, step) is Ok,
    decreases n,
{
    if n > 0 {
        lemma_collected_ok((n - 1) as nat, step);
    }
}

/// Whether there are no more titles, splits and directories on a command line
/// than tabs of their kind.
pub open spec fn all_matched(cli: CliView) -> bool {
    &&& cli.new_tab_titles.len() <= cli.new_tabs.len()
    &&& cli.new_tab_profile_titles.len() <= cli.new_tab_profiles.len()
    &&& cli.new_tab_profile_splits.len() <= cli.new_tab_profiles.len()
    &&& cli.new_tab_command_directories.len() <= cli.new_tab_commands.len()
    &&& cli.new_tab_command_titles.len() <= cli.new_tab_commands.len()
}

/// Whether all tabs that a command line asks for can be opened: the directories
/// are found, the profiles open and the commands name programs.
pub open spec fn asked_tabs_can_open(
    cli: CliView,
    config: ConfigView,
    directories: Inspections,
) -> bool {
    &&& forall|k: int|
        0 <= k < cli.new_tabs.len() ==> is_found(Some(#[trigger] cli.new_tabs[k]), directories)
    &&& forall|k: int|
        0 <= k < cli.new_tab_profiles.len() ==> trimmed(#[trigger] cli.new_tab_profiles[k]).len()
            > 0 && chosen_first_tab(config, Some(trimmed(cli.new_tab_profiles[k])), directories)
            is Ok
    &&& forall|k: int|
        0 <= k < cli.new_tab_commands.len() ==> names_program(
            Some(#[trigger] cli.new_tab_commands[k]),
        )
    &&& forall|k: int|
        0 <= k < cli.new_tab_command_directories.len() ==> is_found(
            Some(#[trigger] cli.new_tab_command_directories[k]),
            directories,
        )
}

/// A window opens exactly when the layout that is asked for opens with all its
/// tabs, the working directory that is asked for is found, there are no titles,
/// splits and directories without a tab, and all tabs that the command line
/// asks for can be opened.
pub proof fn law_window_opens_when_all_tabs_do(
    cli: CliView,
    config: ConfigView,
    path_options: PathOptionsView,
    directories: Inspections,
)
    requires
        in_name_order(directories),
    ensures
        ({
            let used = if cli.no_startup_config {
                empty_config()
            } else {
                config
            };
            let profile = if cli.no_startup_config {
                None
            } else {
                cli.profile
            };
            let named = if cli.working_directory is Some {
                cli.working_directory
            } else {
                cli.directory
            };
            window(cli, config, path_options, directories) is Ok <==> {
                &&& chosen_first_tab(used, profile, directories) is Ok
                &&& chosen_further_tabs(used, profile, directories) is Ok
                &&& is_found(named, directories)
                &&& all_matched(cli)
                &&& asked_tabs_can_open(cli, used, directories)
            }
        }),
{
    let used = effective_config(cli, config);
    let profile = effective_profile(cli);
    let named = crate::launch::asked_directory(cli);
    let opens = {
        &&& chosen_first_tab(used, profile, directories) is Ok
        &&& chosen_further_tabs(used, profile, directories) is Ok
        &&& is_found(named, directories)
        &&& all_matched(cli)
        &&& asked_tabs_can_open(cli, used, directories)
    };
    if opens {
        lemma_found_directory_resolves(named, directories);
        let layout = chosen_layout(used, profile)->Ok_0;
        let shell = configured_shell_option(layout.shell)->Ok_0;
        let asked = asked_tabs(cli);
        let first = directory_tab(asked.directories, asked.directory_titles, shell, directories);
        let second = named_profile_tab(
            asked.profiles,
            asked.profile_titles,
            asked.profile_splits,
            asked.directories.len(),
            used,
            directories,
        );
        let third = command_tab(
            asked.commands,
            asked.command_directories,
            asked.command_titles,
            asked.directories.len() + asked.profiles.len(),
            layout.env,
            directories,
        );
        assert forall|i: int| 0 <= i < asked.directories.len() implies (
        #[trigger] first(i)) is Ok by {
            lemma_found_directory_resolves(Some(cli.new_tabs[i]), directories);
        }
        assert forall|i: int| 0 <= i < asked.profiles.len() implies (
        #[trigger] second(i)) is Ok by {
            assert(trimmed(cli.new_tab_profiles[i]).len() > 0);
        }
        assert forall|i: int| 0 <= i < asked.commands.len() implies (#[trigger] third(i)) is Ok by {
            assert(names_program(Some(cli.new_tab_commands[i])));
            if i < cli.new_tab_command_directories.len() {
                lemma_found_directory_resolves(
                    Some(cli.new_tab_command_directories[i]),
                    directories,
                );
            }
        }
        lemma_collected_ok(asked.directories.len(), first);
        lemma_collected_ok(asked.profiles.len(), second);
        lemma_collected_ok(asked.commands.len(), third);
        assert(window(cli, config, path_options, directories) is Ok);
    }
    if window(cli, config, path_options, directories) is Ok {
        lemma_resolved_option(named, directories);
        assert forall|k: int| 0 <= k < cli.new_tabs.len() implies is_found(
            Some(#[trigger] cli.new_tabs[k]),
            directories,
        ) by {
            law_asked_tabs_open_in_order(cli, config, path_options, directories, k);
        }
        assert forall|k: int| 0 <= k < cli.new_tab_profiles.len() implies trimmed(
            #[trigger] cli.new_tab_profiles[k],
        ).len() > 0 && chosen_first_tab(
            used,
            Some(trimmed(cli.new_tab_profiles[k])),
            directories,
        ) is Ok by {
            law_asked_tabs_open_in_order(cli, config, path_options, directories, k);
            lemma_asked_profile_is_named(cli, config, path_options, directories, k);
        }
        assert forall|k: int| 0 <= k < cli.new_tab_commands.len() implies names_program(
            Some(#[trigger] cli.new_tab_commands[k]),
        ) by {
            law_asked_tabs_open_in_order(cli, config, path_options, directories, k);
        }
        assert forall|k: int| 0 <= k < cli.new_tab_command_directories.len() implies is_found(
            Some(#[trigger] cli.new_tab_command_directories[k]),
            directories,
        ) by {
            law_asked_tabs_open_in_order(cli, config, path_options, directories, k);
        }
    }
}

proof fn lemma_asked_profile_is_named(
    cli: CliView,
    config: ConfigView,
    path_options: PathOptionsView,
    directories: Inspections,
    k: int,
)
    requires
        window(cli, config, path_options, directories) is Ok,
        0 <= k < cli.new_tab_profiles.len(),
    ensures
        trimmed(cli.new_tab_profiles[k]).len() > 0,
{
    let asked = asked_tabs(cli);
    let second = named_profile_tab(
        asked.profiles,
        asked.profile_titles,
        asked.profile_splits,
        asked.directories.len(),
        effective_config(cli, config),
        directories,
    );
    lemma_collected_values(asked.profiles.len(), second);
    let tabs = collected(asked.profiles.len(), second)->Ok_0;
    assert(second(k) == Ok::<LaunchTabView, Seq<Seq<char>>>(tabs[k]));
}

/// On a command line without conflicts each mode does what it says, with the
/// arguments and the configuration that it was given; without any mode a window
/// opens.
pub proof fn law_modes_do_what_they_say(
    cli: CliView,
    config: ConfigView,
    path_options: PathOptionsView,
    directories: Inspections,
)
    requires
        free_of_conflicts(cli),
    ensures
        ({
            let asked = asked_command(cli, config, path_options, directories);
            let opened = window(cli, config, path_options, directories);
            &&& cli.print_paths ==> asked == Ok::<CliCommandView, Seq<Seq<char>>>(
                CliCommandView::PrintPaths(path_options),
            )
            &&& cli.list_profiles ==> asked == Ok::<CliCommandView, Seq<Seq<char>>>(
                CliCommandView::ListProfiles {
                    path_options,
                    startup_config: config,
                    include_hidden: cli.all_profiles,
                },
            )
            &&& cli.set_default_profile matches Some(profile) ==> asked == Ok::<
                CliCommandView,
                Seq<Seq<char>>,
            >(CliCommandView::SetDefaultProfile { path_options, profile })
            &&& cli.clear_default_profile ==> asked == Ok::<CliCommandView, Seq<Seq<char>>>(
                CliCommandView::ClearDefaultProfile { path_options },
            )
            &&& cli.validate_startup_config ==> asked == Ok::<CliCommandView, Seq<Seq<char>>>(
                CliCommandView::ValidateStartupConfig { path_options, startup_config: config },
            )
            &&& cli.print_startup_config_schema ==> asked == Ok::<CliCommandView, Seq<Seq<char>>>(
                CliCommandView::PrintStartupConfigSchema { path_options },
            )
            &&& cli.init_config ==> asked == Ok::<CliCommandView, Seq<Seq<char>>>(
                CliCommandView::InitConfig { path_options },
            )
            &&& cli.doctor ==> asked == Ok::<CliCommandView, Seq<Seq<char>>>(
                CliCommandView::Doctor { path_options },
            )
            &&& cli.validate_keymap ==> asked == Ok::<CliCommandView, Seq<Seq<char>>>(
                CliCommandView::ValidateKeymap { path_options },
            )
            &&& cli.print_startup_layout ==> match opened {
                Ok(options) => asked == Ok::<CliCommandView, Seq<Seq<char>>>(
                    CliCommandView::PrintStartupLayout(options),
                ),
                Err(messages) => asked == Err::<CliCommandView, Seq<Seq<char>>>(messages),
            }
            &&& !asks_for_a_mode(cli) ==> match opened {
                Ok(options) => asked == Ok::<CliCommandView, Seq<Seq<char>>>(
                    CliCommandView::Launch(options),
                ),
                Err(messages) => asked == Err::<CliCommandView, Seq<Seq<char>>>(messages),
            }
        }),
{
    let modes = seq![
        CliArgument::PrintPaths,
        CliArgument::ListProfiles,
        CliArgument::PrintStartupLayout,
        CliArgument::SetDefaultProfile,
        CliArgument::ClearDefaultProfile,
        CliArgument::ValidateStartupConfig,
        CliArgument::PrintStartupConfigSchema,
        CliArgument::InitConfig,
        CliArgument::Doctor,
        CliArgument::ValidateKeymap,
    ];
    assert(given(cli, modes[0]) == cli.print_paths);
    assert(given(cli, modes[1]) == cli.list_profiles);
    assert(given(cli, modes[2]) == cli.print_startup_layout);
    assert(given(cli, modes[3]) == (cli.set_default_profile is Some));
    assert(given(cli, modes[4]) == cli.clear_default_profile);
    assert(given(cli, modes[5]) == cli.validate_startup_config);
    assert(given(cli, modes[6]) == cli.print_startup_config_schema);
    assert(given(cli, modes[7]) == cli.init_config);
    assert(given(cli, modes[8]) == cli.doctor);
    assert(given(cli, modes[9]) == cli.validate_keymap);
    assert forall|i: int, j: int|
        0 <= i < modes.len() && 0 <= j < modes.len() && given(cli, #[trigger] modes[i]) && given(
            cli,
            #[trigger] modes[j],
        ) implies i == j by {
        crate::laws::law_modes_exclude_each_other(cli, modes[i], modes[j]);
    }
}

/// Whether a command line asks for something other than a window.
pub open spec fn asks_for_a_mode(cli: CliView) -> bool {
    ||| cli.print_paths
    ||| cli.list_profiles
    ||| cli.print_startup_layout
    ||| cli.set_default_profile is Some
    ||| cli.clear_default_profile
    ||| cli.validate_startup_config
    ||| cli.print_startup_config_schema
    ||| cli.init_config
    ||| cli.doctor
    ||| cli.validate_keymap
}

/// The startup configuration is read for a window, for its printed layout, for
/// a list of profiles and for its own validation, unless the command line says
/// not to; and for nothing else.
pub proof fn law_startup_config_is_read_where_it_is_used(cli: CliView)
    requires
        free_of_conflicts(cli),
    ensures
        reads_startup_config(cli) <==> !cli.no_startup_config && (cli.list_profiles
            || cli.validate_startup_config || cli.print_startup_layout || !asks_for_a_mode(cli)),
{
    assert(given(cli, CliArgument::PrintPaths) == cli.print_paths);
    assert(given(cli, CliArgument::ListProfiles) == cli.list_profiles);
    assert(given(cli, CliArgument::PrintStartupLayout) == cli.print_startup_layout);
    assert(given(cli, CliArgument::SetDefaultProfile) == (cli.set_default_profile is Some));
    assert(given(cli, CliArgument::ClearDefaultProfile) == cli.clear_default_profile);
    assert(given(cli, CliArgument::ValidateStartupConfig) == cli.validate_startup_config);
    assert(given(cli, CliArgument::PrintStartupConfigSchema) == cli.print_startup_config_schema);
    assert(given(cli, CliArgument::InitConfig) == cli.init_config);
    assert(given(cli, CliArgument::Doctor) == cli.doctor);
    assert(given(cli, CliArgument::ValidateKeymap) == cli.validate_keymap);
    let modes = seq![
        CliArgument::ListProfiles,
        CliArgument::ValidateStartupConfig,
        CliArgument::PrintStartupLayout,
    ];
    let others = seq![
        CliArgument::PrintPaths,
        CliArgument::SetDefaultProfile,
        CliArgument::ClearDefaultProfile,
        CliArgument::ValidateKeymap,
        CliArgument::PrintStartupConfigSchema,
        CliArgument::InitConfig,
        CliArgument::Doctor,
    ];
    assert forall|i: int, j: int| 0 <= i < 3 && 0 <= j < 7 implies !(given(
        cli,
        #[trigger] modes[i],
    ) && given(cli, #[trigger] others[j])) by {
        if given(cli, modes[i]) && given(cli, others[j]) {
            crate::laws::law_modes_exclude_each_other(cli, modes[i], others[j]);
        }
    }
    assert(modes[0] == CliArgument::ListProfiles);
    assert(modes[1] == CliArgument::ValidateStartupConfig);
    assert(modes[2] == CliArgument::PrintStartupLayout);
    assert(others[0] == CliArgument::PrintPaths);
    assert(others[1] == CliArgument::SetDefaultProfile);
    assert(others[2] == CliArgument::ClearDefaultProfile);
    assert(others[3] == CliArgument::ValidateKeymap);
    assert(others[4] == CliArgument::PrintStartupConfigSchema);
    assert(others[5] == CliArgument::InitConfig);
    assert(others[6] == CliArgument::Doctor);
}

/// What a command line asks for is found out with the configuration that the
/// file holds, or with none where there is no file; a file that cannot be read
/// or parsed is an error wherever it is read, and plays no part elsewhere.
pub proof fn law_commands_use_the_file(
    cli: CliView,
    path_options: PathOptionsView,
    file: ConfigFileView,
    directories: Inspections,
)
    requires
        free_of_conflicts(cli),
    ensures
        ({
            let asked = asked_with_file(cli, path_options, file, directories);
            &&& file matches ConfigFileView::Parsed(config) ==> asked == asked_command(
                cli,
                config,
                path_options,
                directories,
            )
            &&& file is Missing ==> asked == asked_command(
                cli,
                empty_config(),
                path_options,
                directories,
            )
            &&& (file is Unreadable || file is Malformed) && reads_startup_config(cli)
                ==> asked is Err
            &&& !reads_startup_config(cli) ==> asked == asked_command(
                cli,
                empty_config(),
                path_options,
                directories,
            )
        }),
{
    if !reads_startup_config(cli) && file is Parsed {
        crate::laws::law_unread_config_plays_no_part(
            cli,
            empty_config(),
            file->Parsed_0,
            path_options,
            directories,
        );
    }
}

/// A window that is opened later keeps its files where they were, and its tab is
/// what new tabs start from, but in no split.
pub proof fn law_later_windows_start_like_new_tabs(options: LaunchOptionsView)
    ensures
        ({
            let later = runtime_window(options);
            let tab = options.new_terminal_tab;
            &&& later.path_options == options.path_options
            &&& later.initial_tab.working_directory == tab.working_directory
            &&& later.initial_tab.command == tab.command
            &&& later.initial_tab.env == tab.env
            &&& later.initial_tab.title == tab.title
            &&& later.initial_tab.shell == tab.shell
            &&& later.initial_tab.split is None
            &&& later.new_terminal_tab == later.initial_tab
            &&& later.additional_tabs.len() == 0
        }),
{
}

/// A task runs the program and the arguments of its command, in its directory
/// and with its variables, in a new terminal that stays open.
pub proof fn law_tasks_run_the_command(
    task: SpawnInTerminal,
    command: LaunchCommandView,
    cwd: Option<Seq<char>>,
    env: Map<Seq<char>, Seq<char>>,
)
    requires
        runs_command(task, command, cwd, env),
    ensures
        task.command.deep_view() == Some(command.program),
        task.args.deep_view() == command.args,
        task.cwd.deep_view() == cwd,
        task.env@ == env,
        task.use_new_terminal && task.allow_concurrent_runs,
        task.hide == HideStrategy::Never,
        task.reveal == RevealStrategy::Always,
        task.label@ == task.full_label@ && task.command_label@ == task.full_label@,
{
}

/// A new tab starts in its own directory or else in that of the window, and is
/// otherwise unchanged.
pub proof fn law_new_tabs_keep_their_directory(tab: LaunchTabView, directory: Option<Seq<char>>)
    ensures
        ({
            let opened = tab_or_in(tab, directory);
            &&& tab.working_directory is Some ==> opened.working_directory == tab.working_directory
            &&& tab.working_directory is None ==> opened.working_directory == directory
            &&& opened.command == tab.command && opened.env == tab.env && opened.title == tab.title
                && opened.shell == tab.shell && opened.split == tab.split
        }),
{
}

/// Whatever a command line asks for, its files are in the directories that it
/// names.
pub proof fn law_commands_keep_their_directories(
    cli: CliView,
    config: ConfigView,
    path_options: PathOptionsView,
    directories: Inspections,
)
    ensures
        asked_command(cli, config, path_options, directories) matches Ok(command) ==> command_paths(
            command,
        ) == path_options,
{
}

/// The tabs of a window are its first tab, what new tabs start from and all
/// further ones, in this order.
pub proof fn law_tabs_of_a_window(options: LaunchOptionsView, i: int)
    ensures
        startup_tabs(options).len() == options.additional_tabs.len() + 2,
        startup_tabs(options)[0] == options.initial_tab,
        startup_tabs(options)[1] == options.new_terminal_tab,
        0 <= i < options.additional_tabs.len() ==> startup_tabs(options)[i + 2]
            == options.additional_tabs[i],
{
}

/// Directories are listed in the order in which tabs name them: a further tab
/// adds its own at the end, if it names one that is not listed yet, and changes
/// nothing else.
pub proof fn law_directories_are_listed_in_order(
    platform: Platform,
    tabs: Seq<LaunchTabView>,
    more: LaunchTabView,
)
    ensures
        ({
            let before = distinct_directories(platform, tabs);
            let after = distinct_directories(platform, tabs.push(more));
            &&& more.working_directory is None ==> after == before
            &&& more.working_directory matches Some(directory) ==> {
                &&& (exists|i: int|
                    0 <= i < before.len() && same_path(platform, #[trigger] before[i], directory))
                    ==> after == before
                &&& (forall|i: int|
                    0 <= i < before.len() ==> !same_path(
                        platform,
                        #[trigger] before[i],
                        directory,
                    )) ==> after == before.push(directory)
            }
            &&& tabs.len() == 0 ==> before.len() == 0
        }),
{
    assert(tabs.push(more).drop_last() =~= tabs);
}

/// A task is known by its command, as it is shown.
pub proof fn law_tasks_are_known_by_their_command(
    task: SpawnInTerminal,
    command: LaunchCommandView,
    cwd: Option<Seq<char>>,
    env: Map<Seq<char>, Seq<char>>,
)
    requires
        runs_command(task, command, cwd, env),
    ensures
        task.label@ == command_label(command.program, command.args),
        task.full_label@ == command_label(command.program, command.args),
        task.command_label@ == command_label(command.program, command.args),
        task.id@ == "zed-terminal:"@ + command_label(command.program, command.args),
        task.shell@ is System,
        task.reveal_target == RevealTarget::Center,
        task.show_summary && task.show_command && !task.show_rerun,
        task.save == SaveStrategy::Nothing,
{
}

} // verus!
