//! What holds of the library as a whole: laws that relate several functions.

use crate::actions::ActionKind;
use crate::cli::{
    conflicting, free_of_conflicts, given, go_together, is_file_mode, is_layout_argument, is_mode,
    CliArgument, CliView,
};
use crate::command::{command_of, ShellView};
use crate::config::{
    configured_shell_option, ConfigView, ProfileConfigView, ShellConfigView, TabConfigView,
    TerminalStartupSplitDirection,
};
use crate::config_files::{
    next_step, planned_files, InitialContents, InitializationEvent, StepView,
    TerminalConfigFileInitializationStatus,
};
use crate::default_profile::{config_update, with_default_profile, ProfileStepView};
use crate::directory::{resolved_option, Inspections};
use crate::doctor::{
    config_file_checks, law_empty_config_is_valid, report_failed, DoctorReportView, FoundConfigFiles,
    TerminalDoctorCheckStatus,
};
use crate::error::{collected, lemma_collected_values};
use crate::launch::{
    asked_command, asked_directory, asked_tabs, distinct_directories, effective_config,
    effective_profile, lists_directory, reads_startup_config, runtime_window, startup_tabs, window,
    CliCommandView, LaunchOptionsView,
};
use crate::launch_tab::{
    cli_tabs, command_tab, directory_tab, named_profile_tab, tab_from_fields, LaunchTabView,
};
use crate::layout::{
    chosen_first_tab, chosen_further_tabs, chosen_layout, configured_tabs, profile_layout,
    profile_name_list, profile_tab, root_layout, LayoutView,
};
use crate::name_map::{has_name, in_name_order, lookup, names_at};
use crate::palette::{
    all_candidates, first_match, joined_forms, lemma_byte_index_increases, lowercase_forms,
    match_positions, matched_places, matching_items, profile_items, visible_actions, CandidateView,
    TERMINAL_PROFILE_COMMAND_PALETTE_MAX_RESULTS,
};
use crate::path_parts::{path_pieces, same_path};
use crate::paths::{PathOptionsView, Platform};
use crate::profiles::{listed, summaries_of, summary_of, SummaryView};
use crate::report::{layout_report, numbered_tab_lines, tab_lines};
use crate::text::{normalized, text_before, trimmed, trimmed_back, trimmed_front, white_space};
use crate::validation::{
    reference_problem, validated, validated_layout, validated_profile, validated_profiles,
};
use vstd::prelude::*;

verus! {

proof fn lemma_trimmed_front(s: Seq<char>)
    ensures
        trimmed_front(s).len() > 0 ==> !white_space(trimmed_front(s)[0]),
        trimmed_front(trimmed_front(s)) == trimmed_front(s),
    decreases s.len(),
{
    if s.len() > 0 && white_space(s[0]) {
        lemma_trimmed_front(s.drop_first());
    }
}

proof fn lemma_trimmed_back(s: Seq<char>)
    ensures
        trimmed_back(s).len() > 0 ==> !white_space(trimmed_back(s).last()),
        trimmed_back(s).len() > 0 ==> trimmed_back(s)[0] == s[0],
        trimmed_back(s).len() <= s.len(),
        trimmed_back(trimmed_back(s)) == trimmed_back(s),
    decreases s.len(),
{
    if s.len() > 0 && white_space(s.last()) {
        lemma_trimmed_back(s.drop_last());
    }
}

/// A trimmed text neither begins nor ends with white space, and trimming it
/// again changes nothing.
pub proof fn law_trimming_is_final(s: Seq<char>)
    ensures
        trimmed(s).len() > 0 ==> !white_space(trimmed(s)[0]) && !white_space(trimmed(s).last()),
        trimmed(trimmed(s)) == trimmed(s),
{
    let front = trimmed_front(s);
    lemma_trimmed_front(s);
    lemma_trimmed_back(front);
    let both = trimmed_back(front);
    if both.len() > 0 {
        assert(trimmed_front(both) == both);
    }
}

/// A normalized text is never blank, and normalizing it again changes
/// nothing.
pub proof fn law_normalizing_is_final(text: Option<Seq<char>>)
    ensures
        normalized(text) matches Some(t) ==> t.len() > 0,
        normalized(normalized(text)) == normalized(text),
{
    if text is Some {
        law_trimming_is_final(text->0);
    }
}

/// Whether a tab is of one of the two kinds there are: one that runs a command
/// and has no shell, or one that runs a shell and has no variables.
pub open spec fn of_one_kind(tab: LaunchTabView) -> bool {
    match tab.command {
        Some(_) => tab.shell is None,
        None => tab.env == Map::<Seq<char>, Seq<char>>::empty(),
    }
}

proof fn lemma_chosen_first_tab_kind(
    config: ConfigView,
    requested: Option<Seq<char>>,
    directories: Inspections,
)
    requires
        chosen_first_tab(config, requested, directories) is Ok,
    ensures
        of_one_kind(chosen_first_tab(config, requested, directories)->Ok_0),
{
}

proof fn lemma_configured_tabs_kind(
    config: ConfigView,
    tabs: Seq<TabConfigView>,
    env: Map<Seq<char>, Seq<char>>,
    shell: Option<ShellView>,
    label: Seq<char>,
    directories: Inspections,
)
    requires
        configured_tabs(config, tabs, env, shell, label, directories) is Ok,
    ensures
        configured_tabs(config, tabs, env, shell, label, directories)->Ok_0.len() == tabs.len(),
        forall|i: int|
            0 <= i < tabs.len() ==> of_one_kind(
                #[trigger] configured_tabs(config, tabs, env, shell, label, directories)->Ok_0[i],
            ),
    decreases tabs.len(),
{
    if tabs.len() > 0 {
        lemma_configured_tabs_kind(config, tabs.drop_last(), env, shell, label, directories);
        let tab = tabs.last();
        if tab.profile is Some {
            lemma_chosen_first_tab_kind(config, Some(trimmed(tab.profile->0)), directories);
        }
    }
}

proof fn lemma_cli_tabs_kind(
    cli: CliView,
    env: Map<Seq<char>, Seq<char>>,
    shell: Option<ShellView>,
    config: ConfigView,
    directories: Inspections,
)
    requires
        cli_tabs(asked_tabs(cli), env, shell, config, directories) is Ok,
    ensures
        ({
            let tabs = cli_tabs(asked_tabs(cli), env, shell, config, directories)->Ok_0;
            &&& tabs.len() == cli.new_tabs.len() + cli.new_tab_profiles.len()
                + cli.new_tab_commands.len()
            &&& forall|i: int| 0 <= i < tabs.len() ==> of_one_kind(#[trigger] tabs[i])
        }),
{
    let asked = asked_tabs(cli);
    let first = directory_tab(asked.directories, asked.directory_titles, shell, directories);
    let second = named_profile_tab(
        asked.profiles,
        asked.profile_titles,
        asked.profile_splits,
        asked.directories.len(),
        config,
        directories,
    );
    let third = command_tab(
        asked.commands,
        asked.command_directories,
        asked.command_titles,
        asked.directories.len() + asked.profiles.len(),
        env,
        directories,
    );
    lemma_collected_values(asked.directories.len(), first);
    lemma_collected_values(asked.profiles.len(), second);
    lemma_collected_values(asked.commands.len(), third);
    let a = collected(asked.directories.len(), first)->Ok_0;
    let b = collected(asked.profiles.len(), second)->Ok_0;
    let c = collected(asked.commands.len(), third)->Ok_0;
    let tabs = a + b + c;
    assert forall|i: int| 0 <= i < tabs.len() implies of_one_kind(#[trigger] tabs[i]) by {
        if i < a.len() {
            assert(first(i) == Ok::<LaunchTabView, Seq<Seq<char>>>(a[i]));
        } else if i < a.len() + b.len() {
            let j = i - a.len();
            assert(second(j) == Ok::<LaunchTabView, Seq<Seq<char>>>(b[j]));
            lemma_chosen_first_tab_kind(config, Some(trimmed(asked.profiles[j])), directories);
        } else {
            let j = i - a.len() - b.len();
            assert(third(j) == Ok::<LaunchTabView, Seq<Seq<char>>>(c[j]));
        }
    }
}

/// Every tab of a window either runs a command and has no shell, or runs a
/// shell and has no variables.
pub proof fn law_tabs_are_of_one_kind(
    cli: CliView,
    config: ConfigView,
    path_options: PathOptionsView,
    directories: Inspections,
)
    requires
        window(cli, config, path_options, directories) is Ok,
    ensures
        ({
            let tabs = startup_tabs(window(cli, config, path_options, directories)->Ok_0);
            forall|i: int| 0 <= i < tabs.len() ==> of_one_kind(#[trigger] tabs[i])
        }),
{
    let used = effective_config(cli, config);
    let profile = effective_profile(cli);
    let options = window(cli, config, path_options, directories)->Ok_0;
    lemma_chosen_first_tab_kind(used, profile, directories);
    let layout = chosen_layout(used, profile)->Ok_0;
    let shell = configured_shell_option(layout.shell)->Ok_0;
    lemma_configured_tabs_kind(used, layout.tabs, layout.env, shell, layout.label, directories);
    lemma_cli_tabs_kind(cli, layout.env, shell, used, directories);
    let tabs = startup_tabs(options);
    assert forall|i: int| 0 <= i < tabs.len() implies of_one_kind(#[trigger] tabs[i]) by {
        if i >= 2 {
            assert(tabs[i] == options.additional_tabs[i - 2]);
        }
    }
}

/// The tabs that the command line asks for come after all that are configured,
/// and none is lost: one for each configured tab, each directory, each profile
/// and each command.
pub proof fn law_asked_tabs_follow_configured_tabs(
    cli: CliView,
    config: ConfigView,
    path_options: PathOptionsView,
    directories: Inspections,
)
    requires
        window(cli, config, path_options, directories) is Ok,
    ensures
        ({
            let options = window(cli, config, path_options, directories)->Ok_0;
            let used = effective_config(cli, config);
            let layout = chosen_layout(used, effective_profile(cli))->Ok_0;
            let configured = layout.tabs.len();
            &&& options.additional_tabs.len() == configured + cli.new_tabs.len()
                + cli.new_tab_profiles.len() + cli.new_tab_commands.len()
            &&& chosen_further_tabs(used, effective_profile(cli), directories) == Ok::<
                Seq<LaunchTabView>,
                Seq<Seq<char>>,
            >(options.additional_tabs.take(configured as int))
        }),
{
    let used = effective_config(cli, config);
    let profile = effective_profile(cli);
    let options = window(cli, config, path_options, directories)->Ok_0;
    let layout = chosen_layout(used, profile)->Ok_0;
    let shell = configured_shell_option(layout.shell)->Ok_0;
    lemma_configured_tabs_kind(used, layout.tabs, layout.env, shell, layout.label, directories);
    lemma_cli_tabs_kind(cli, layout.env, shell, used, directories);
    let configured = chosen_further_tabs(used, profile, directories)->Ok_0;
    assert(options.additional_tabs.take(layout.tabs.len() as int) =~= configured);
}

/// A command and a title on the command line are for the first tab alone: tabs
/// that are opened later start as they would without them, and where neither
/// is given the first tab is such a tab.
pub proof fn law_command_and_title_are_for_the_first_tab(
    cli: CliView,
    config: ConfigView,
    path_options: PathOptionsView,
    directories: Inspections,
)
    requires
        window(cli, config, path_options, directories) is Ok,
    ensures
        ({
            let options = window(cli, config, path_options, directories)->Ok_0;
            let bare = CliView { command: Seq::empty(), title: None, ..cli };
            &&& window(bare, config, path_options, directories) == Ok::<
                LaunchOptionsView,
                Seq<Seq<char>>,
            >(LaunchOptionsView { initial_tab: options.new_terminal_tab, ..options })
        }),
{
    let bare = CliView { command: Seq::empty(), title: None, ..cli };
    assert(asked_tabs(bare) == asked_tabs(cli));
    assert(command_of(bare.command) is None);
}

/// The layout that is printed is that of the window which the same command
/// line opens.
pub proof fn law_printed_layout_is_what_opens(
    cli: CliView,
    config: ConfigView,
    path_options: PathOptionsView,
    directories: Inspections,
)
    requires
        asked_command(cli, config, path_options, directories) matches Ok(command)
            && command is Launch,
    ensures
        ({
            let options = asked_command(cli, config, path_options, directories)->Ok_0->Launch_0;
            let printing = CliView { print_startup_layout: true, ..cli };
            &&& window(cli, config, path_options, directories) == Ok::<
                LaunchOptionsView,
                Seq<Seq<char>>,
            >(options)
            &&& asked_command(printing, config, path_options, directories) == Ok::<
                CliCommandView,
                Seq<Seq<char>>,
            >(CliCommandView::PrintStartupLayout(options))
        }),
{
    let printing = CliView { print_startup_layout: true, ..cli };
    assert(asked_tabs(printing) == asked_tabs(cli));
}

/// Without the startup configuration it does not matter what it holds.
pub proof fn law_no_startup_config_ignores_it(
    cli: CliView,
    a: ConfigView,
    b: ConfigView,
    path_options: PathOptionsView,
    directories: Inspections,
)
    requires
        cli.no_startup_config,
    ensures
        window(cli, a, path_options, directories) == window(cli, b, path_options, directories),
{
}

/// Of two arguments that cannot be used together each rules out the other, and
/// no argument rules out itself.
pub proof fn law_conflicts_are_mutual(a: CliArgument, b: CliArgument)
    ensures
        conflicting(a, b) == conflicting(b, a),
        !conflicting(a, a),
{
}

/// A command line without conflicts asks for one thing at most in place of a
/// window, and no mode that works on files goes with an argument about the
/// startup layout.
pub proof fn law_modes_exclude_each_other(cli: CliView, a: CliArgument, b: CliArgument)
    requires
        free_of_conflicts(cli),
        given(cli, a),
        given(cli, b),
    ensures
        is_mode(a) && is_mode(b) ==> a == b,
        is_file_mode(a) ==> !is_layout_argument(b),
{
    assert(!conflicting(a, b));
}

/// Where the startup configuration file is not read, its content plays no
/// part.
pub proof fn law_unread_config_plays_no_part(
    cli: CliView,
    a: ConfigView,
    b: ConfigView,
    path_options: PathOptionsView,
    directories: Inspections,
)
    requires
        free_of_conflicts(cli),
        !reads_startup_config(cli),
    ensures
        asked_command(cli, a, path_options, directories) == asked_command(
            cli,
            b,
            path_options,
            directories,
        ),
{
    let modes = seq![
        CliArgument::NoStartupConfig,
        CliArgument::SetDefaultProfile,
        CliArgument::ClearDefaultProfile,
        CliArgument::ValidateKeymap,
        CliArgument::PrintStartupConfigSchema,
        CliArgument::InitConfig,
        CliArgument::Doctor,
        CliArgument::ListProfiles,
        CliArgument::ValidateStartupConfig,
        CliArgument::PrintStartupLayout,
    ];
    assert forall|i: int, j: int|
        0 <= i < modes.len() && 0 <= j < modes.len() && given(cli, #[trigger] modes[i]) && given(
            cli,
            #[trigger] modes[j],
        ) implies !conflicting(modes[i], modes[j]) by {
    }
    assert(modes[0] == CliArgument::NoStartupConfig);
    assert(modes[1] == CliArgument::SetDefaultProfile);
    assert(modes[2] == CliArgument::ClearDefaultProfile);
    assert(modes[3] == CliArgument::ValidateKeymap);
    assert(modes[4] == CliArgument::PrintStartupConfigSchema);
    assert(modes[5] == CliArgument::InitConfig);
    assert(modes[6] == CliArgument::Doctor);
    assert(modes[7] == CliArgument::ListProfiles);
    assert(modes[8] == CliArgument::ValidateStartupConfig);
    assert(modes[9] == CliArgument::PrintStartupLayout);
    if cli.no_startup_config {
        law_no_startup_config_ignores_it(cli, a, b, path_options, directories);
    }
}

/// To be the same path is an equivalence.
pub proof fn law_same_path_is_an_equivalence(
    platform: Platform,
    a: Seq<char>,
    b: Seq<char>,
    c: Seq<char>,
)
    ensures
        same_path(platform, a, a),
        same_path(platform, a, b) ==> same_path(platform, b, a),
        same_path(platform, a, b) && same_path(platform, b, c) ==> same_path(platform, a, c),
{
}

/// A slash at the end of a path makes no difference where a slash alone
/// divides the parts of a path.
pub proof fn law_final_slash_makes_no_difference(platform: Platform, path: Seq<char>)
    requires
        !(platform is Windows),
        path.len() > 0,
    ensures
        same_path(platform, path, path.push('/')),
{
    let from: int = if path[0] == '/' {
        1
    } else {
        0
    };
    let rest = path.skip(from);
    let pieces = path_pieces(platform, false, rest);
    let with_slash = path_pieces(platform, false, rest.push('/'));
    assert(path.push('/').skip(from) =~= rest.push('/'));
    assert(rest.push('/').drop_last() =~= rest);
    assert(with_slash.drop_last() =~= pieces);
}

/// The working directories that a window starts in are listed once each, and
/// all of them are. Paths that are the same part by part are one directory.
pub proof fn law_startup_directories_are_distinct_and_complete(
    platform: Platform,
    tabs: Seq<LaunchTabView>,
)
    ensures
        ({
            let listed = distinct_directories(platform, tabs);
            &&& forall|k: int, l: int|
                0 <= k < l < listed.len() ==> !same_path(
                    platform,
                    #[trigger] listed[k],
                    #[trigger] listed[l],
                )
            &&& forall|i: int|
                0 <= i < tabs.len() && (#[trigger] tabs[i]).working_directory is Some
                    ==> lists_directory(platform, listed, tabs[i].working_directory->0)
            &&& forall|k: int|
                0 <= k < listed.len() ==> exists|i: int|
                    0 <= i < tabs.len() && (#[trigger] tabs[i]).working_directory == Some(
                        #[trigger] listed[k],
                    )
        }),
    decreases tabs.len(),
{
    if tabs.len() > 0 {
        let rest = tabs.drop_last();
        let before = distinct_directories(platform, rest);
        let after = distinct_directories(platform, tabs);
        law_startup_directories_are_distinct_and_complete(platform, rest);
        assert forall|i: int|
            0 <= i < tabs.len() && (
            #[trigger] tabs[i]).working_directory is Some implies lists_directory(
            platform,
            after,
            tabs[i].working_directory->0,
        ) by {
            let directory = tabs[i].working_directory->0;
            if i < rest.len() {
                assert(rest[i] == tabs[i]);
                assert(lists_directory(platform, before, directory));
                let k = choose|k: int|
                    0 <= k < before.len() && same_path(platform, #[trigger] before[k], directory);
                assert(same_path(platform, after[k], directory));
            } else if !lists_directory(platform, before, directory) {
                law_same_path_is_an_equivalence(platform, directory, directory, directory);
                assert(same_path(platform, after[before.len() as int], directory));
            }
        }
        assert forall|k: int| 0 <= k < after.len() implies exists|i: int|
            0 <= i < tabs.len() && (#[trigger] tabs[i]).working_directory == Some(
                #[trigger] after[k],
            ) by {
            if k < before.len() {
                assert(after[k] == before[k]);
                let i = choose|i: int|
                    0 <= i < rest.len() && (#[trigger] rest[i]).working_directory == Some(
                        before[k],
                    );
                assert(tabs[i].working_directory == Some(after[k]));
            } else {
                assert(tabs[tabs.len() - 1].working_directory == Some(after[k]));
            }
        }
        assert forall|k: int, l: int| 0 <= k < l < after.len() implies !same_path(
            platform,
            #[trigger] after[k],
            #[trigger] after[l],
        ) by {
            assert(after[k] == before[k]);
            if l < before.len() {
                assert(after[l] == before[l]);
            }
        }
    }
}

/// A window that is opened later has one tab, in no split, and opens windows
/// like itself.
pub proof fn law_later_windows_have_one_tab(options: LaunchOptionsView)
    ensures
        runtime_window(options).additional_tabs.len() == 0,
        runtime_window(options).initial_tab.split is None,
        runtime_window(options).initial_tab == runtime_window(options).new_terminal_tab,
        runtime_window(runtime_window(options)) == runtime_window(options),
{
    assert(runtime_window(runtime_window(options)) =~= runtime_window(options));
}

/// A configuration whose layouts have their first tab alone.
pub open spec fn without_further_tabs(config: ConfigView) -> ConfigView {
    ConfigView {
        tabs: Seq::empty(),
        profiles: config.profiles.map_values(
            |entry: (Seq<char>, ProfileConfigView)|
                (entry.0, ProfileConfigView { tabs: Seq::empty(), ..entry.1 }),
        ),
        ..config
    }
}

proof fn lemma_stripped_lookup(config: ConfigView, name: Seq<char>)
    requires
        in_name_order(config.profiles),
    ensures
        lookup(without_further_tabs(config).profiles, name) == (match lookup(
            config.profiles,
            name,
        ) {
            Some(profile) => Some(ProfileConfigView { tabs: Seq::empty(), ..profile }),
            None => None,
        }),
        profile_name_list(without_further_tabs(config)) == profile_name_list(config),
{
    let stripped = without_further_tabs(config).profiles;
    assert forall|i: int| names_at(config.profiles, name, i) == #[trigger] names_at(
        stripped,
        name,
        i,
    ) by {}
    assert(in_name_order(stripped)) by {
        assert forall|i: int, j: int| 0 <= i < j < stripped.len() implies text_before(
            #[trigger] stripped[i].0,
            #[trigger] stripped[j].0,
        ) by {
            assert(text_before(config.profiles[i].0, config.profiles[j].0));
        }
    }
    if has_name(config.profiles, name) {
        let i = choose|i: int| names_at(config.profiles, name, i);
        assert(names_at(stripped, name, i));
        crate::name_map::lemma_lookup_at(config.profiles, i);
        crate::name_map::lemma_lookup_at(stripped, i);
    } else if has_name(stripped, name) {
        let i = choose|i: int| names_at(stripped, name, i);
        assert(names_at(config.profiles, name, i));
    }
    assert(profile_name_list(without_further_tabs(config)) =~= profile_name_list(config));
}

/// A profile that is opened on its own opens its first tab alone: what further
/// tabs it and the other layouts have plays no part.
pub proof fn law_profile_tab_ignores_further_tabs(
    config: ConfigView,
    profile: Seq<char>,
    split: Option<TerminalStartupSplitDirection>,
    directories: Inspections,
)
    requires
        in_name_order(config.profiles),
    ensures
        profile_tab(config, profile, split, directories) == profile_tab(
            without_further_tabs(config),
            profile,
            split,
            directories,
        ),
{
    lemma_stripped_lookup(config, trimmed(profile));
}

/// The variables of a command tab are its own and, for every other name, the
/// inherited ones.
pub proof fn law_tab_env_overrides_inherited_env(
    working_directory: Option<Seq<char>>,
    command: Option<Seq<char>>,
    inherited_env: Map<Seq<char>, Seq<char>>,
    tab_env: Map<Seq<char>, Seq<char>>,
    title: Option<Seq<char>>,
    inherited_shell: Option<ShellView>,
    tab_shell: Option<ShellConfigView>,
    split: Option<TerminalStartupSplitDirection>,
    label: Seq<char>,
    directories: Inspections,
)
    requires
        command is Some,
        tab_from_fields(
            working_directory,
            command,
            inherited_env,
            tab_env,
            title,
            inherited_shell,
            tab_shell,
            split,
            label,
            directories,
        ) is Ok,
    ensures
        ({
            let env = tab_from_fields(
                working_directory,
                command,
                inherited_env,
                tab_env,
                title,
                inherited_shell,
                tab_shell,
                split,
                label,
                directories,
            )->Ok_0.env;
            forall|name: Seq<char>|
                {
                    &&& tab_env.contains_key(name) ==> env.contains_key(name) && env[name]
                        == tab_env[name]
                    &&& !tab_env.contains_key(name) && inherited_env.contains_key(name)
                        ==> env.contains_key(name) && env[name] == inherited_env[name]
                    &&& #[trigger] env.contains_key(name) ==> tab_env.contains_key(name)
                        || inherited_env.contains_key(name)
                }
        }),
{
}

proof fn lemma_validated_profiles_each(
    config: ConfigView,
    profiles: Seq<(Seq<char>, ProfileConfigView)>,
    i: int,
    directories: Inspections,
)
    requires
        validated_profiles(config, profiles, directories) is Ok,
        0 <= i < profiles.len(),
    ensures
        validated_profile(config, profiles[i].0, profiles[i].1, directories) is Ok,
    decreases profiles.len(),
{
    if i < profiles.len() - 1 {
        lemma_validated_profiles_each(config, profiles.drop_last(), i, directories);
    }
}

/// Every layout of a valid configuration opens: without a request, and for
/// every profile by its name.
pub proof fn law_valid_layouts_open(
    config: ConfigView,
    requested: Option<Seq<char>>,
    directories: Inspections,
)
    requires
        validated(config, directories) is Ok,
        requested matches Some(name) ==> has_name(config.profiles, name),
    ensures
        chosen_layout(config, requested) is Ok,
        chosen_first_tab(config, requested, directories) is Ok,
        chosen_further_tabs(config, requested, directories) is Ok,
{
    let name = match requested {
        Some(name) => Some(name),
        None => config.default_profile,
    };
    match name {
        None => {
            assert(validated_layout(config, root_layout(config), directories) is Ok);
        },
        Some(name) => {
            if requested is None {
                assert(reference_problem(config, "default_profile"@, name) is None);
            }
            assert(has_name(config.profiles, name));
            let i = choose|i: int| names_at(config.profiles, name, i);
            lemma_validated_profiles_each(config, config.profiles, i, directories);
            let profile = config.profiles[i].1;
            assert(validated_layout(config, profile_layout(name, profile), directories) is Ok);
            if name.len() == 0 {
                assert(trimmed(name) =~= name);
            }
        },
    }
}

/// Whether a command line asks for no startup tab, nor for anything of one.
pub open spec fn asks_for_no_tabs(cli: CliView) -> bool {
    &&& cli.new_tabs.len() == 0
    &&& cli.new_tab_titles.len() == 0
    &&& cli.new_tab_profiles.len() == 0
    &&& cli.new_tab_profile_titles.len() == 0
    &&& cli.new_tab_profile_splits.len() == 0
    &&& cli.new_tab_commands.len() == 0
    &&& cli.new_tab_command_directories.len() == 0
    &&& cli.new_tab_command_titles.len() == 0
}

/// A window opens with a valid configuration whenever the command line asks
/// for a working directory that resolves, a profile that exists and no further
/// tabs.
pub proof fn law_valid_config_opens_a_window(
    cli: CliView,
    config: ConfigView,
    path_options: PathOptionsView,
    directories: Inspections,
)
    requires
        validated(config, directories) is Ok,
        effective_profile(cli) matches Some(name) ==> has_name(config.profiles, name),
        resolved_option(asked_directory(cli), directories) is Ok,
        asks_for_no_tabs(cli),
    ensures
        window(cli, config, path_options, directories) is Ok,
{
    let used = effective_config(cli, config);
    if cli.no_startup_config {
        law_empty_config_is_valid(directories);
    }
    law_valid_layouts_open(used, effective_profile(cli), directories);
}

/// Once a profile is the default one, a window that no profile is asked for
/// opens with it.
pub proof fn law_default_profile_opens(
    path: Seq<char>,
    name: Seq<char>,
    config: ConfigView,
    directories: Inspections,
)
    requires
        config_update(path, Some(name), config, directories) is Rewrite,
    ensures
        ({
            let updated = with_default_profile(config, Some(name));
            &&& validated(updated, directories) is Ok
            &&& lookup(config.profiles, name) matches Some(profile) && chosen_layout(updated, None)
                == Ok::<LayoutView, Seq<Seq<char>>>(profile_layout(name, profile))
        }),
{
    if name.len() == 0 {
        assert(trimmed(name) =~= name);
    }
}

/// The default profile can be cleared whenever the configuration is valid
/// without one, whatever it was before: so a default profile that does not
/// exist can be repaired. A window that no profile is asked for then opens
/// outside all profiles.
pub proof fn law_clearing_repairs_the_default_profile(
    path: Seq<char>,
    broken: Option<Seq<char>>,
    config: ConfigView,
    directories: Inspections,
)
    ensures
        ({
            let before = with_default_profile(config, broken);
            let cleared = with_default_profile(config, None);
            &&& config_update(path, None, before, directories) is Rewrite <==> validated(
                cleared,
                directories,
            ) is Ok
            &&& chosen_layout(cleared, None) == Ok::<LayoutView, Seq<Seq<char>>>(
                root_layout(cleared),
            )
        }),
{
    assert(with_default_profile(with_default_profile(config, broken), None)
        =~= with_default_profile(config, None));
}

/// An update says that something changed exactly when the default profile is
/// another one than before.
pub proof fn law_changed_means_another_profile(
    path: Seq<char>,
    name: Option<Seq<char>>,
    config: ConfigView,
    directories: Inspections,
)
    ensures
        config_update(path, name, config, directories) matches ProfileStepView::Rewrite(update)
            ==> (update.changed <==> update.previous_profile != update.default_profile)
            && update.previous_profile == config.default_profile && update.default_profile == name,
{
}

/// Hidden profiles are listed only on request, and what is listed stands in
/// the order of names.
pub proof fn law_summaries_are_ordered_and_hide_hidden_profiles(
    config: ConfigView,
    profiles: Seq<(Seq<char>, ProfileConfigView)>,
    include_hidden: bool,
)
    requires
        in_name_order(profiles),
    ensures
        ({
            let summaries = summaries_of(config, profiles, include_hidden);
            &&& forall|i: int|
                0 <= i < summaries.len() ==> include_hidden || !(#[trigger] summaries[i]).hidden
            &&& forall|i: int, j: int|
                0 <= i < j < summaries.len() ==> text_before(
                    (#[trigger] summaries[i]).name,
                    (#[trigger] summaries[j]).name,
                )
            &&& forall|k: int|
                0 <= k < profiles.len() && (include_hidden || !profiles[k].1.hidden)
                    ==> summaries.contains(
                    #[trigger] summary_of(config, profiles[k].0, profiles[k].1),
                )
            &&& forall|i: int|
                0 <= i < summaries.len() ==> exists|k: int|
                    0 <= k < profiles.len() && #[trigger] summaries[i] == summary_of(
                        config,
                        (#[trigger] profiles[k]).0,
                        profiles[k].1,
                    )
        }),
    decreases profiles.len(),
{
    reveal(Seq::filter);
    let summaries = summaries_of(config, profiles, include_hidden);
    if profiles.len() > 0 {
        let rest = profiles.drop_last();
        let last = profiles.last();
        assert(in_name_order(rest)) by {
            assert forall|i: int, j: int| 0 <= i < j < rest.len() implies text_before(
                #[trigger] rest[i].0,
                #[trigger] rest[j].0,
            ) by {
                assert(text_before(profiles[i].0, profiles[j].0));
            }
        }
        law_summaries_are_ordered_and_hide_hidden_profiles(config, rest, include_hidden);
        let before = summaries_of(config, rest, include_hidden);
        let shown = listed(include_hidden)(last);
        let summary = summary_of(config, last.0, last.1);
        if shown {
            assert(summaries =~= before.push(summary));
        } else {
            assert(summaries =~= before);
        }
        assert forall|i: int| 0 <= i < summaries.len() implies exists|k: int|
            0 <= k < profiles.len() && #[trigger] summaries[i] == summary_of(
                config,
                (#[trigger] profiles[k]).0,
                profiles[k].1,
            ) by {
            if i < before.len() {
                assert(summaries[i] == before[i]);
                let k = choose|k: int|
                    0 <= k < rest.len() && before[i] == summary_of(
                        config,
                        (#[trigger] rest[k]).0,
                        rest[k].1,
                    );
                assert(profiles[k] == rest[k]);
            } else {
                assert(profiles[profiles.len() - 1] == last);
            }
        }
        assert forall|i: int, j: int| 0 <= i < j < summaries.len() implies text_before(
            (#[trigger] summaries[i]).name,
            (#[trigger] summaries[j]).name,
        ) by {
            if j == before.len() {
                assert(summaries[i] == before[i]);
                let k = choose|k: int|
                    0 <= k < rest.len() && before[i] == summary_of(
                        config,
                        (#[trigger] rest[k]).0,
                        rest[k].1,
                    );
                assert(text_before(profiles[k].0, profiles[profiles.len() - 1].0));
            } else {
                assert(summaries[i] == before[i] && summaries[j] == before[j]);
            }
        }
        assert forall|k: int|
            0 <= k < profiles.len() && (include_hidden || !profiles[k].1.hidden) implies summaries.contains(
            #[trigger] summary_of(config, profiles[k].0, profiles[k].1),
        ) by {
            let wanted = summary_of(config, profiles[k].0, profiles[k].1);
            if k < rest.len() {
                assert(rest[k] == profiles[k]);
                assert(before.contains(summary_of(config, rest[k].0, rest[k].1)));
                let i = choose|i: int| 0 <= i < before.len() && before[i] == wanted;
                assert(summaries[i] == wanted);
            } else {
                assert(summaries[before.len() as int] == wanted);
            }
        }
    }
}

/// Whether two tabs are the same but for the names and values of as many
/// variables.
pub open spec fn same_but_for_env(a: LaunchTabView, b: LaunchTabView) -> bool {
    &&& a.env.len() == b.env.len()
    &&& b == LaunchTabView { env: b.env, ..a }
}

/// The report of a window says of variables no more than how many there are:
/// neither a name nor a value gets into it.
pub proof fn law_layout_report_keeps_variables_private(
    a: LaunchOptionsView,
    b: LaunchOptionsView,
    path: Seq<char>,
)
    requires
        same_but_for_env(a.initial_tab, b.initial_tab),
        same_but_for_env(a.new_terminal_tab, b.new_terminal_tab),
        a.additional_tabs.len() == b.additional_tabs.len(),
        forall|i: int|
            0 <= i < a.additional_tabs.len() ==> same_but_for_env(
                #[trigger] a.additional_tabs[i],
                b.additional_tabs[i],
            ),
    ensures
        layout_report(a, path) == layout_report(b, path),
{
    let tabs_a = seq![a.initial_tab] + a.additional_tabs;
    let tabs_b = seq![b.initial_tab] + b.additional_tabs;
    let lines_a = Seq::new(tabs_a.len(), |i: int| numbered_tab_lines((i + 1) as nat, tabs_a[i]));
    let lines_b = Seq::new(tabs_b.len(), |i: int| numbered_tab_lines((i + 1) as nat, tabs_b[i]));
    assert forall|i: int| 0 <= i < tabs_a.len() implies lines_a[i] == lines_b[i] by {
        if i > 0 {
            assert(same_but_for_env(a.additional_tabs[i - 1], b.additional_tabs[i - 1]));
        }
        assert(tab_lines("  "@, tabs_a[i]) == tab_lines("  "@, tabs_b[i]));
    }
    assert(lines_a =~= lines_b);
    assert(tab_lines("  "@, a.new_terminal_tab) == tab_lines("  "@, b.new_terminal_tab));
}

/// What is missing is no failure: a report fails only where some check does.
pub proof fn law_missing_files_are_no_failure(report: DoctorReportView)
    requires
        forall|i: int|
            0 <= i < report.directories.len() ==> (#[trigger] report.directories[i]).status
                != TerminalDoctorCheckStatus::Error,
        forall|i: int|
            0 <= i < report.config_files.len() ==> (#[trigger] report.config_files[i]).status
                != TerminalDoctorCheckStatus::Error,
        report.startup_config.status != TerminalDoctorCheckStatus::Error,
        report.keymap.status != TerminalDoctorCheckStatus::Error,
    ensures
        !report_failed(report),
{
}

/// Every configuration file that is created is diagnosed, at the same path and
/// under the same label; and one that is in place passes.
pub proof fn law_created_files_are_diagnosed(
    settings_file: Seq<char>,
    global_settings_file: Seq<char>,
    keymap_file: Seq<char>,
    startup_config_file: Seq<char>,
    startup_config_schema_file: Seq<char>,
    contents: InitialContents,
    found: FoundConfigFiles,
)
    ensures
        ({
            let planned = planned_files(
                settings_file,
                global_settings_file,
                keymap_file,
                startup_config_file,
                startup_config_schema_file,
                contents,
            );
            let checks = config_file_checks(
                settings_file,
                global_settings_file,
                keymap_file,
                startup_config_file,
                startup_config_schema_file,
                found,
            );
            &&& planned.len() == checks.len()
            &&& forall|i: int|
                0 <= i < planned.len() ==> (#[trigger] checks[i]).label == planned[i].label
                    && checks[i].path == planned[i].path
            &&& (found.settings_file is File && found.global_settings_file is File
                && found.keymap_file is File && found.startup_config_file is File
                && found.startup_config_schema_file is File) ==> forall|i: int|
                0 <= i < checks.len() ==> (#[trigger] checks[i]).status
                    == TerminalDoctorCheckStatus::Passed
        }),
{
}

/// A file that exists is never written: content goes to a file only where the
/// file was just created, and a file that is found is left as it is.
pub proof fn law_existing_files_are_never_written(
    label: Seq<char>,
    path: Seq<char>,
    event: InitializationEvent,
)
    ensures
        next_step(label, path, event) is WriteContent <==> event is FileCreated,
        next_step(label, path, event) matches StepView::Done(file) ==> (file.status
            == TerminalConfigFileInitializationStatus::Created <==> event is Written),
        event matches InitializationEvent::Inspected(found) ==> (found is File ==> next_step(
            label,
            path,
            event,
        ) is Done),
        event matches InitializationEvent::Reinspected(found) ==> (found is File ==> next_step(
            label,
            path,
            event,
        ) is Done),
{
}

/// The place of an action among those that the palette offers.
spec fn action_place(kind: ActionKind) -> int {
    match kind {
        ActionKind::ClearDefaultStartupProfile => 0,
        ActionKind::CloseTerminalWindow => 1,
        ActionKind::DuplicateTerminalTab => 2,
        ActionKind::MinimizeTerminalWindow => 3,
        ActionKind::NewTerminalWindow => 4,
        ActionKind::NewTerminalTab => 5,
        ActionKind::NewTerminalSplitWithProfile => 6,
        ActionKind::NewTerminalTabWithProfile => 7,
        ActionKind::OpenConfigDirectory => 8,
        ActionKind::OpenLogsDirectory => 9,
        ActionKind::OpenStartupConfigFile => 10,
        ActionKind::OpenStartupConfigSchemaFile => 11,
        ActionKind::ResetPaneSizes => 12,
        ActionKind::ResizePaneDown => 13,
        ActionKind::ResizePaneLeft => 14,
        ActionKind::ResizePaneRight => 15,
        ActionKind::ResizePaneUp => 16,
        ActionKind::SetDefaultStartupProfile => 17,
        ActionKind::ToggleFullScreen => 18,
        ActionKind::ZoomTerminalWindow => 19,
        ActionKind::SelectAll => 20,
        ActionKind::ClearTerminal => 21,
        ActionKind::CopySelection => 22,
        ActionKind::Paste => 23,
        ActionKind::PasteText => 24,
        ActionKind::ScrollLineDown => 25,
        ActionKind::ScrollLineUp => 26,
        ActionKind::ScrollPageDown => 27,
        ActionKind::ScrollPageUp => 28,
        ActionKind::ScrollToBottom => 29,
        ActionKind::ScrollToTop => 30,
        ActionKind::ShowCharacterPalette => 31,
        ActionKind::ToggleViMode => 32,
        ActionKind::RenameTerminal => 33,
        ActionKind::RerunTask => 34,
        ActionKind::ActivateNextPane => 35,
        ActionKind::ActivatePaneDown => 36,
        ActionKind::ActivatePaneLeft => 37,
        ActionKind::ActivatePaneRight => 38,
        ActionKind::ActivatePaneUp => 39,
        ActionKind::ActivatePreviousPane => 40,
        ActionKind::FocusCenterPane => 41,
        ActionKind::ToggleZoom => 42,
        ActionKind::ActivateItem => 43,
        ActionKind::ActivateNextItem => 44,
        ActionKind::ActivatePreviousItem => 45,
        ActionKind::CloseActiveItem => 46,
        ActionKind::CloseAllItems => 47,
        ActionKind::CloseItemsToTheLeft => 48,
        ActionKind::CloseItemsToTheRight => 49,
        ActionKind::CloseOtherItems => 50,
        ActionKind::SplitDown => 51,
        ActionKind::SplitLeft => 52,
        ActionKind::SplitRight => 53,
        ActionKind::SplitUp => 54,
        ActionKind::SwapItemLeft => 55,
        ActionKind::SwapItemRight => 56,
        ActionKind::DeploySearch => 57,
        ActionKind::ToggleCommandPalette => 58,
        ActionKind::DecreaseBufferFontSize => 59,
        ActionKind::IncreaseBufferFontSize => 60,
        ActionKind::OpenKeymapFile => 61,
        ActionKind::OpenSettings => 62,
        ActionKind::OpenSettingsFile => 63,
        ActionKind::Quit => 64,
        ActionKind::ResetBufferFontSize => 65,
    }
}

/// Every action that a menu or the palette knows is offered by the palette.
pub proof fn law_every_action_is_visible(kind: ActionKind)
    ensures
        visible_actions().contains(kind),
{
    let all = visible_actions();
    let i = action_place(kind);
    assert(0 <= i < all.len() && all[i] == kind);
}

/// Whether the forms of an entry's characters hold the characters of a query at
/// these places, from `from` on and in their order.
pub open spec fn matches_at(
    forms: Seq<Seq<char>>,
    from: int,
    query: Seq<char>,
    places: Seq<int>,
) -> bool {
    &&& places.len() == query.len()
    &&& forall|k: int|
        0 <= k < places.len() ==> from <= #[trigger] places[k] < forms.len()
            && forms[places[k]].contains(query[k])
    &&& forall|k: int, l: int| 0 <= k < l < places.len() ==> places[k] < places[l]
}

proof fn lemma_first_match(forms: Seq<Seq<char>>, from: int, query: char)
    requires
        0 <= from,
    ensures
        match first_match(forms, from, query) {
            Some(place) => {
                &&& from <= place < forms.len()
                &&& forms[place].contains(query)
                &&& forall|i: int| from <= i < place ==> !(#[trigger] forms[i]).contains(query)
            },
            None => forall|i: int|
                from <= i < forms.len() ==> !(#[trigger] forms[i]).contains(query),
        },
    decreases forms.len() - from,
{
    if from < forms.len() && !forms[from].contains(query) {
        lemma_first_match(forms, from + 1, query);
    }
}

proof fn lemma_matched_places(forms: Seq<Seq<char>>, from: int, query: Seq<char>)
    requires
        0 <= from,
    ensures
        matched_places(forms, from, query) matches Some(places) ==> matches_at(
            forms,
            from,
            query,
            places,
        ),
    decreases query.len(),
{
    if query.len() > 0 {
        lemma_first_match(forms, from, query[0]);
        if first_match(forms, from, query[0]) is Some {
            let place = first_match(forms, from, query[0])->0;
            lemma_matched_places(forms, place + 1, query.drop_first());
            if matched_places(forms, place + 1, query.drop_first()) is Some {
                let rest = matched_places(forms, place + 1, query.drop_first())->0;
                let places = seq![place] + rest;
                assert forall|k: int| 0 <= k < places.len() implies from <= #[trigger] places[k]
                    < forms.len() && forms[places[k]].contains(query[k]) by {
                    if k > 0 {
                        assert(places[k] == rest[k - 1]);
                        assert(query[k] == query.drop_first()[k - 1]);
                    }
                }
                assert forall|k: int, l: int| 0 <= k < l < places.len() implies places[k]
                    < places[l] by {
                    assert(places[l] == rest[l - 1]);
                    if k > 0 {
                        assert(places[k] == rest[k - 1]);
                    }
                }
            }
        }
    }
}

proof fn lemma_matched_places_complete(
    forms: Seq<Seq<char>>,
    from: int,
    query: Seq<char>,
    places: Seq<int>,
)
    requires
        0 <= from,
        matches_at(forms, from, query, places),
    ensures
        matched_places(forms, from, query) is Some,
    decreases query.len(),
{
    if query.len() > 0 {
        lemma_first_match(forms, from, query[0]);
        assert(from <= places[0] < forms.len() && forms[places[0]].contains(query[0]));
        let place = first_match(forms, from, query[0])->0;
        let rest = places.drop_first();
        let rest_query = query.drop_first();
        assert forall|k: int| 0 <= k < rest.len() implies place + 1 <= #[trigger] rest[k]
            < forms.len() && forms[rest[k]].contains(rest_query[k]) by {
            assert(rest[k] == places[k + 1]);
            assert(places[0] < places[k + 1]);
        }
        assert forall|k: int, l: int| 0 <= k < l < rest.len() implies rest[k] < rest[l] by {
            assert(places[k + 1] < places[l + 1]);
        }
        lemma_matched_places_complete(forms, place + 1, rest_query, rest);
    }
}

/// An entry matches a query exactly when the lowercase characters of the
/// query occur in it one after the other.
pub proof fn law_matching_finds_every_subsequence(string: Seq<char>, query: Seq<char>)
    ensures
        match_positions(string, query) is Some <==> exists|places: Seq<int>|
            matches_at(
                lowercase_forms(string),
                0,
                joined_forms(lowercase_forms(trimmed(query))),
                places,
            ),
{
    let forms = lowercase_forms(string);
    let wanted = joined_forms(lowercase_forms(trimmed(query)));
    lemma_matched_places(forms, 0, wanted);
    if match_positions(string, query) is Some {
        assert(matches_at(forms, 0, wanted, matched_places(forms, 0, wanted)->0));
    }
    if exists|places: Seq<int>| matches_at(forms, 0, wanted, places) {
        let places = choose|places: Seq<int>| matches_at(forms, 0, wanted, places);
        lemma_matched_places_complete(forms, 0, wanted, places);
    }
}

/// The matched bytes of an entry come in increasing order, one for each
/// lowercase character of the query.
pub proof fn law_match_positions_increase(string: Seq<char>, query: Seq<char>)
    ensures
        match_positions(string, query) matches Some(positions) ==> {
            &&& positions.len() == joined_forms(lowercase_forms(trimmed(query))).len()
            &&& forall|k: int, l: int|
                0 <= k < l < positions.len() ==> positions[k] < positions[l]
        },
{
    let forms = lowercase_forms(string);
    let wanted = joined_forms(lowercase_forms(trimmed(query)));
    lemma_matched_places(forms, 0, wanted);
    if matched_places(forms, 0, wanted) is Some {
        let places = matched_places(forms, 0, wanted)->0;
        let positions = match_positions(string, query)->0;
        assert forall|k: int, l: int| 0 <= k < l < positions.len() implies positions[k]
            < positions[l] by {
            assert(places[k] < places[l]);
            assert(places[l] < string.len());
            lemma_byte_index_increases(string, places[k], places[l]);
        }
    }
}

/// The palette shows no more results for profiles than its limit, and every
/// one of them matches the query.
pub proof fn law_palette_results_are_bounded_and_match(
    query: Seq<char>,
    profiles: Seq<SummaryView>,
)
    ensures
        profile_items(query, profiles).len() <= TERMINAL_PROFILE_COMMAND_PALETTE_MAX_RESULTS,
        forall|i: int|
            0 <= i < profile_items(query, profiles).len() ==> match_positions(
                (#[trigger] profile_items(query, profiles)[i]).string,
                query,
            ) == Some(profile_items(query, profiles)[i].positions),
{
    lemma_matching_items_match(query, all_candidates(profiles));
}

proof fn lemma_matching_items_match(query: Seq<char>, candidates: Seq<CandidateView>)
    ensures
        forall|i: int|
            0 <= i < matching_items(query, candidates).len() ==> match_positions(
                (#[trigger] matching_items(query, candidates)[i]).string,
                query,
            ) == Some(matching_items(query, candidates)[i].positions),
    decreases candidates.len(),
{
    if candidates.len() > 0 {
        lemma_matching_items_match(query, candidates.drop_last());
    }
}

/// Whether an argument asks for something other than a window.
pub open spec fn replaces_the_window(argument: CliArgument) -> bool {
    match argument {
        CliArgument::PrintPaths
        | CliArgument::ListProfiles
        | CliArgument::PrintStartupLayout
        | CliArgument::SetDefaultProfile
        | CliArgument::ClearDefaultProfile
        | CliArgument::ValidateStartupConfig
        | CliArgument::PrintStartupConfigSchema
        | CliArgument::InitConfig
        | CliArgument::Doctor
        | CliArgument::ValidateKeymap => true,
        _ => false,
    }
}

/// Whether an argument says something of the window and its tabs.
pub open spec fn shapes_the_window(argument: CliArgument) -> bool {
    match argument {
        CliArgument::NoStartupConfig
        | CliArgument::Profile
        | CliArgument::WorkingDirectory
        | CliArgument::Directory
        | CliArgument::Title
        | CliArgument::NewTabs
        | CliArgument::NewTabTitles
        | CliArgument::NewTabProfiles
        | CliArgument::NewTabProfileTitles
        | CliArgument::NewTabProfileSplits
        | CliArgument::NewTabCommands
        | CliArgument::NewTabCommandDirectories
        | CliArgument::NewTabCommandTitles
        | CliArgument::Command => true,
        _ => false,
    }
}

/// Where the files are kept can be said with every other argument. What the
/// paths are and how the window would look can be asked with every argument
/// about the window; all else that takes the window's place goes with none of
/// them. Of the arguments about the window only two ways to name one directory
/// exclude each other, and a profile and the wish to read no configuration. All
/// profiles can be asked for only where profiles are listed or paths are.
pub proof fn law_arguments_go_together_where_it_makes_sense(a: CliArgument, b: CliArgument)
    ensures
        a is UserDataDir || a is ConfigDir ==> !conflicting(a, b),
        (a is PrintPaths || a is PrintStartupLayout) && shapes_the_window(b) ==> !conflicting(a, b),
        replaces_the_window(a) && replaces_the_window(b) ==> (conflicting(a, b) <==> a != b),
        replaces_the_window(a) && shapes_the_window(b) ==> (conflicting(a, b) <==> !(a is PrintPaths
            || a is PrintStartupLayout)),
        shapes_the_window(a) && shapes_the_window(b) ==> (conflicting(a, b) <==> {
            ||| a is WorkingDirectory && b is Directory
            ||| a is Directory && b is WorkingDirectory
            ||| a is NoStartupConfig && (b is Profile || b is NewTabProfiles
                || b is NewTabProfileTitles || b is NewTabProfileSplits)
            ||| b is NoStartupConfig && (a is Profile || a is NewTabProfiles
                || a is NewTabProfileTitles || a is NewTabProfileSplits)
        }),
        a is AllProfiles ==> (conflicting(a, b) <==> replaces_the_window(b) && !(b is PrintPaths
            || b is ListProfiles)),
{
}

/// An argument is given exactly when the command line has a value for it.
pub proof fn law_given_arguments_have_values(cli: CliView)
    ensures
        given(cli, CliArgument::Profile) <==> cli.profile is Some,
        given(cli, CliArgument::WorkingDirectory) <==> cli.working_directory is Some,
        given(cli, CliArgument::Directory) <==> cli.directory is Some,
        given(cli, CliArgument::Title) <==> cli.title is Some,
        given(cli, CliArgument::NewTabs) <==> cli.new_tabs.len() > 0,
        given(cli, CliArgument::NewTabTitles) <==> cli.new_tab_titles.len() > 0,
        given(cli, CliArgument::NewTabProfiles) <==> cli.new_tab_profiles.len() > 0,
        given(cli, CliArgument::NewTabProfileTitles) <==> cli.new_tab_profile_titles.len() > 0,
        given(cli, CliArgument::NewTabProfileSplits) <==> cli.new_tab_profile_splits.len() > 0,
        given(cli, CliArgument::NewTabCommands) <==> cli.new_tab_commands.len() > 0,
        given(cli, CliArgument::NewTabCommandDirectories)
            <==> cli.new_tab_command_directories.len() > 0,
        given(cli, CliArgument::NewTabCommandTitles) <==> cli.new_tab_command_titles.len() > 0,
        given(cli, CliArgument::Command) <==> cli.command.len() > 0,
        given(cli, CliArgument::UserDataDir) <==> cli.user_data_dir is Some,
        given(cli, CliArgument::ConfigDir) <==> cli.config_dir is Some,
        given(cli, CliArgument::NoStartupConfig) <==> cli.no_startup_config,
        given(cli, CliArgument::AllProfiles) <==> cli.all_profiles,
        given(cli, CliArgument::ListProfiles) <==> cli.list_profiles,
        given(cli, CliArgument::PrintPaths) <==> cli.print_paths,
        given(cli, CliArgument::PrintStartupLayout) <==> cli.print_startup_layout,
        given(cli, CliArgument::SetDefaultProfile) <==> cli.set_default_profile is Some,
        given(cli, CliArgument::ClearDefaultProfile) <==> cli.clear_default_profile,
        given(cli, CliArgument::ValidateStartupConfig) <==> cli.validate_startup_config,
        given(cli, CliArgument::PrintStartupConfigSchema) <==> cli.print_startup_config_schema,
        given(cli, CliArgument::InitConfig) <==> cli.init_config,
        given(cli, CliArgument::Doctor) <==> cli.doctor,
        given(cli, CliArgument::ValidateKeymap) <==> cli.validate_keymap,
{
}

/// A command line is accepted exactly when no two of its arguments conflict and
/// all profiles are asked for only where they are listed, or where some other
/// argument stands against a list.
pub proof fn law_command_lines_are_accepted(cli: CliView)
    ensures
        go_together(cli) <==> {
            &&& forall|a: CliArgument, b: CliArgument| #[trigger]
                given(cli, a) && #[trigger] given(cli, b) ==> !conflicting(a, b)
            &&& cli.all_profiles ==> cli.list_profiles || exists|other: CliArgument| #[trigger]
                given(cli, other) && conflicting(CliArgument::ListProfiles, other)
        },
{
    assert(given(cli, CliArgument::AllProfiles) == cli.all_profiles);
    assert(given(cli, CliArgument::ListProfiles) == cli.list_profiles);
}

} // verus!
