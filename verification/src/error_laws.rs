//! What holds of errors: which failure decides, and what its messages name.

use crate::cli::CliView;
use crate::command::{command_from_line, shell_words, ShellView};
use crate::config::{ConfigView, ProfileConfigView, ShellConfigView, TabConfigView};
use crate::directory::{resolved_by, resolved_option, DirectoryInspectionView, Inspections};
use crate::error::{collected, in_context, lemma_collected_failure};
use crate::launch::{asked_directory, window};
use crate::launch_tab::{tab_from_fields, unmatched_option, CliTabsView};
use crate::layout::{
    chosen_layout, configured_tab, configured_tabs, profile_tab, tab_label,
};
use crate::name_map::{has_name, names_at};
use crate::paths::PathOptionsView;
use crate::text::{joined, quoted, trimmed};
use crate::text_laws::holds;
use crate::validation::{validated, validated_layout, validated_profile, validated_profiles};
use vstd::prelude::*;

verus! {

/// What was being done is put before what went wrong, and success stays as it
/// is.
pub proof fn law_context_comes_first<T>(result: Result<T, Seq<Seq<char>>>, message: Seq<char>)
    ensures
        result is Ok ==> in_context(result, message) == result,
        result matches Err(messages) ==> (in_context(result, message) matches Err(all) && all.len()
            == messages.len() + 1 && all[0] == message && all.skip(1) == messages),
{
    if result is Err {
        let all = seq![message] + result->Err_0;
        assert(all.skip(1) =~= result->Err_0);
    }
}

/// Of steps that are done one after the other the first that fails decides.
pub proof fn law_first_failing_step_decides<T>(
    n: nat,
    step: spec_fn(int) -> Result<T, Seq<Seq<char>>>,
    k: nat,
)
    requires
        k < n,
        forall|i: int| 0 <= i < k ==> (#[trigger] step(i)) is Ok,
        step(k as int) is Err,
    ensures
        collected(n, step) == Err::<Seq<T>, Seq<Seq<char>>>(step(k as int)->Err_0),
{
    lemma_steps_before(k, step);
    assert(collected(k + 1, step) is Err);
    lemma_collected_failure(k + 1, n, step);
}

proof fn lemma_steps_before<T>(k: nat, step: spec_fn(int) -> Result<T, Seq<Seq<char>>>)
    requires
        forall|i: int| 0 <= i < k ==> (#[trigger] step(i)) is Ok,
    ensures
        collected(k, step) is Ok,
    decreases k,
{
    if k > 0 {
        lemma_steps_before((k - 1) as nat, step);
    }
}

/// Of the tabs of a layout the first that does not open decides the error. The
/// tabs are counted on from the layout's first one.
pub proof fn law_first_failing_tab_decides(
    config: ConfigView,
    tabs: Seq<TabConfigView>,
    env: Map<Seq<char>, Seq<char>>,
    shell: Option<ShellView>,
    label: Seq<char>,
    directories: Inspections,
    k: int,
)
    requires
        0 <= k < tabs.len(),
        forall|i: int|
            0 <= i < k ==> configured_tab(
                config,
                #[trigger] tabs[i],
                env,
                shell,
                tab_label((i + 2) as nat, label),
                directories,
            ) is Ok,
        configured_tab(config, tabs[k], env, shell, tab_label((k + 2) as nat, label), directories)
            is Err,
    ensures
        configured_tabs(config, tabs, env, shell, label, directories) matches Err(messages)
            && configured_tab(
            config,
            tabs[k],
            env,
            shell,
            tab_label((k + 2) as nat, label),
            directories,
        ) == Err::<crate::launch_tab::LaunchTabView, Seq<Seq<char>>>(messages),
    decreases tabs.len(),
{
    let front = tabs.drop_last();
    if k < tabs.len() - 1 {
        assert forall|i: int| 0 <= i < k implies configured_tab(
            config,
            #[trigger] front[i],
            env,
            shell,
            tab_label((i + 2) as nat, label),
            directories,
        ) is Ok by {
            assert(front[i] == tabs[i]);
        }
        law_first_failing_tab_decides(config, front, env, shell, label, directories, k);
    } else {
        assert forall|i: int| 0 <= i < front.len() implies configured_tab(
            config,
            #[trigger] front[i],
            env,
            shell,
            tab_label((i + 2) as nat, label),
            directories,
        ) is Ok by {
            assert(front[i] == tabs[i]);
        }
        lemma_tabs_before(config, front, env, shell, label, directories);
    }
}

proof fn lemma_tabs_before(
    config: ConfigView,
    tabs: Seq<TabConfigView>,
    env: Map<Seq<char>, Seq<char>>,
    shell: Option<ShellView>,
    label: Seq<char>,
    directories: Inspections,
)
    requires
        forall|i: int|
            0 <= i < tabs.len() ==> configured_tab(
                config,
                #[trigger] tabs[i],
                env,
                shell,
                tab_label((i + 2) as nat, label),
                directories,
            ) is Ok,
    ensures
        configured_tabs(config, tabs, env, shell, label, directories) is Ok,
    decreases tabs.len(),
{
    if tabs.len() > 0 {
        let front = tabs.drop_last();
        assert forall|i: int| 0 <= i < front.len() implies configured_tab(
            config,
            #[trigger] front[i],
            env,
            shell,
            tab_label((i + 2) as nat, label),
            directories,
        ) is Ok by {
            assert(front[i] == tabs[i]);
        }
        lemma_tabs_before(config, front, env, shell, label, directories);
        assert(tabs[tabs.len() - 1] == tabs.last());
    }
}

/// A layout's further tabs open exactly when each of them does.
pub proof fn law_tabs_open_when_each_does(
    config: ConfigView,
    tabs: Seq<TabConfigView>,
    env: Map<Seq<char>, Seq<char>>,
    shell: Option<ShellView>,
    label: Seq<char>,
    directories: Inspections,
)
    ensures
        configured_tabs(config, tabs, env, shell, label, directories) is Ok <==> forall|i: int|
            0 <= i < tabs.len() ==> configured_tab(
                config,
                #[trigger] tabs[i],
                env,
                shell,
                tab_label((i + 2) as nat, label),
                directories,
            ) is Ok,
{
    if forall|i: int|
        0 <= i < tabs.len() ==> configured_tab(
            config,
            #[trigger] tabs[i],
            env,
            shell,
            tab_label((i + 2) as nat, label),
            directories,
        ) is Ok {
        lemma_tabs_before(config, tabs, env, shell, label, directories);
    } else if configured_tabs(config, tabs, env, shell, label, directories) is Ok {
        let bad = choose|i: int|
            0 <= i < tabs.len() && configured_tab(
                config,
                #[trigger] tabs[i],
                env,
                shell,
                tab_label((i + 2) as nat, label),
                directories,
            ) is Err;
        lemma_some_tab_fails(config, tabs, env, shell, label, directories, bad);
    }
}

proof fn lemma_some_tab_fails(
    config: ConfigView,
    tabs: Seq<TabConfigView>,
    env: Map<Seq<char>, Seq<char>>,
    shell: Option<ShellView>,
    label: Seq<char>,
    directories: Inspections,
    k: int,
)
    requires
        0 <= k < tabs.len(),
        configured_tab(config, tabs[k], env, shell, tab_label((k + 2) as nat, label), directories)
            is Err,
    ensures
        configured_tabs(config, tabs, env, shell, label, directories) is Err,
    decreases tabs.len(),
{
    if k < tabs.len() - 1 {
        assert(tabs.drop_last()[k] == tabs[k]);
        lemma_some_tab_fails(config, tabs.drop_last(), env, shell, label, directories, k);
    }
}

/// Of the profiles of a configuration the first that is not valid decides the
/// error, and unless its name is blank the error names it.
pub proof fn law_first_invalid_profile_decides(
    config: ConfigView,
    profiles: Seq<(Seq<char>, ProfileConfigView)>,
    directories: Inspections,
    k: int,
)
    requires
        0 <= k < profiles.len(),
        forall|i: int|
            0 <= i < k ==> validated_profile(
                config,
                (#[trigger] profiles[i]).0,
                profiles[i].1,
                directories,
            ) is Ok,
        validated_profile(config, profiles[k].0, profiles[k].1, directories) is Err,
    ensures
        validated_profiles(config, profiles, directories) matches Err(messages) && messages
            == validated_profile(config, profiles[k].0, profiles[k].1, directories)->Err_0 && (
        trimmed(profiles[k].0).len() > 0 ==> messages.len() > 0 && holds(
            messages[0],
            quoted(profiles[k].0),
        )),
    decreases profiles.len(),
{
    let front = profiles.drop_last();
    if k < profiles.len() - 1 {
        assert forall|i: int| 0 <= i < k implies validated_profile(
            config,
            (#[trigger] front[i]).0,
            front[i].1,
            directories,
        ) is Ok by {
            assert(front[i] == profiles[i]);
        }
        law_first_invalid_profile_decides(config, front, directories, k);
    } else {
        assert forall|i: int| 0 <= i < front.len() implies validated_profile(
            config,
            (#[trigger] front[i]).0,
            front[i].1,
            directories,
        ) is Ok by {
            assert(front[i] == profiles[i]);
        }
        lemma_profiles_before(config, front, directories);
    }
    if trimmed(profiles[k].0).len() > 0 {
        let message = "failed to validate startup profile "@ + quoted(profiles[k].0);
        assert(message =~= "failed to validate startup profile "@ + quoted(profiles[k].0)
            + Seq::empty());
        assert(holds(message, quoted(profiles[k].0)));
    }
}

proof fn lemma_profiles_before(
    config: ConfigView,
    profiles: Seq<(Seq<char>, ProfileConfigView)>,
    directories: Inspections,
)
    requires
        forall|i: int|
            0 <= i < profiles.len() ==> validated_profile(
                config,
                (#[trigger] profiles[i]).0,
                profiles[i].1,
                directories,
            ) is Ok,
    ensures
        validated_profiles(config, profiles, directories) is Ok,
    decreases profiles.len(),
{
    if profiles.len() > 0 {
        let front = profiles.drop_last();
        assert forall|i: int| 0 <= i < front.len() implies validated_profile(
            config,
            (#[trigger] front[i]).0,
            front[i].1,
            directories,
        ) is Ok by {
            assert(front[i] == profiles[i]);
        }
        lemma_profiles_before(config, front, directories);
        assert(profiles[profiles.len() - 1] == profiles.last());
    }
}

/// Whether an error says why a directory does not resolve: it names the
/// directory or gives the words of the system.
pub proof fn law_directory_errors_say_why(input: Seq<char>, inspection: DirectoryInspectionView)
    ensures
        inspection matches DirectoryInspectionView::NoCurrentDirectory { error } ==> (resolved_by(
            input,
            inspection,
        ) matches Err(messages) && messages.last() == error),
        inspection matches DirectoryInspectionView::Unresolvable { error } ==> (resolved_by(
            input,
            inspection,
        ) matches Err(messages) && messages.last() == error && holds(messages[0], input)),
        inspection matches DirectoryInspectionView::NotADirectory { canonical } ==> (resolved_by(
            input,
            inspection,
        ) matches Err(messages) && holds(messages[0], canonical)),
        inspection matches DirectoryInspectionView::Directory { canonical } ==> resolved_by(
            input,
            inspection,
        ) == Ok::<Seq<char>, Seq<Seq<char>>>(canonical),
{
    match inspection {
        DirectoryInspectionView::Unresolvable { .. } => {
            let message = "failed to resolve working directory "@ + input;
            assert(message =~= "failed to resolve working directory "@ + input + Seq::empty());
            assert(holds(message, input));
        },
        DirectoryInspectionView::NotADirectory { canonical } => {
            let message = "working directory is not a directory: "@ + canonical;
            assert(message =~= "working directory is not a directory: "@ + canonical
                + Seq::empty());
            assert(holds(message, canonical));
        },
        _ => {},
    }
}

/// The error for a profile that does not exist names it, and every profile that
/// does.
pub proof fn law_missing_profile_errors_name_the_profiles(
    config: ConfigView,
    name: Seq<char>,
    k: int,
)
    requires
        name.len() > 0,
        forall|i: int|
            0 <= i < config.profiles.len() ==> (#[trigger] config.profiles[i]).0 != name,
        0 <= k < config.profiles.len(),
    ensures
        chosen_layout(config, Some(name)) matches Err(messages) && messages.len() == 1 && holds(
            messages[0],
            name,
        ) && holds(messages[0], config.profiles[k].0),
{
    if has_name(config.profiles, name) {
        let i = choose|i: int| names_at(config.profiles, name, i);
        assert(config.profiles[i].0 == name);
    }
    let names = crate::layout::profile_name_list(config);
    let head = "startup profile not found: "@;
    let list = joined(names, ", "@);
    let message = head + name + ". Available profiles: "@ + list;
    assert(message =~= head + name + (". Available profiles: "@ + list));
    assert(holds(message, name));
    lemma_joined_holds(names, ", "@, k);
    let (a, b) = choose|a: Seq<char>, b: Seq<char>| list == #[trigger] (a + names[k] + b);
    assert(message =~= (head + name + ". Available profiles: "@ + a) + names[k] + b);
    assert(holds(message, names[k]));
}

proof fn lemma_joined_holds(parts: Seq<Seq<char>>, separator: Seq<char>, k: int)
    requires
        0 <= k < parts.len(),
    ensures
        holds(joined(parts, separator), parts[k]),
    decreases parts.len(),
{
    let all = joined(parts, separator);
    if parts.len() == 1 {
        assert(all =~= Seq::empty() + parts[k] + Seq::empty());
        assert(holds(all, parts[k]));
    } else if k == parts.len() - 1 {
        let front = joined(parts.drop_last(), separator) + separator;
        assert(all =~= front + parts[k] + Seq::empty());
        assert(holds(all, parts[k]));
    } else {
        lemma_joined_holds(parts.drop_last(), separator, k);
        let front = joined(parts.drop_last(), separator);
        let (a, b) = choose|a: Seq<char>, b: Seq<char>| front == #[trigger] (a + parts[k] + b);
        assert(all =~= a + parts[k] + (b + separator + parts.last()));
        assert(holds(all, parts[k]));
    }
}

/// A tab whose directory does not resolve is refused with why, and so is one
/// whose command does not parse; the error names the tab.
pub proof fn law_tab_errors_say_why(
    working_directory: Option<Seq<char>>,
    command: Option<Seq<char>>,
    env: Map<Seq<char>, Seq<char>>,
    tab_env: Map<Seq<char>, Seq<char>>,
    title: Option<Seq<char>>,
    shell: Option<ShellView>,
    tab_shell: Option<ShellConfigView>,
    split: Option<crate::config::TerminalStartupSplitDirection>,
    label: Seq<char>,
    directories: Inspections,
)
    ensures
        ({
            let opened = tab_from_fields(
                working_directory,
                command,
                env,
                tab_env,
                title,
                shell,
                tab_shell,
                split,
                label,
                directories,
            );
            &&& opened matches Err(messages) ==> messages.len() > 0 && holds(messages[0], label)
            &&& resolved_option(working_directory, directories) matches Err(why) ==> (opened
                matches Err(messages) && messages.skip(1) == why)
            &&& resolved_option(working_directory, directories) is Ok ==> (command matches Some(
                line,
            ) ==> (command_from_line(line) matches Err(why) ==> (opened matches Err(messages)
                && messages.skip(1) == why)))
        }),
{
    let directory = "failed to resolve working directory for "@;
    let parse = "failed to parse command for "@;
    let both = "shell selection requires a shell tab for "@;
    let variables = "environment variables require a command for "@;
    let program = "failed to parse shell for "@;
    lemma_ends_with(directory, label);
    lemma_ends_with(parse, label);
    lemma_ends_with(both, label);
    lemma_ends_with(variables, label);
    lemma_ends_with(program, label);
    if resolved_option(working_directory, directories) is Err {
        let why = resolved_option(working_directory, directories)->Err_0;
        assert((seq![directory + label] + why).skip(1) =~= why);
    } else if command is Some && command_from_line(command->0) is Err {
        let why = command_from_line(command->0)->Err_0;
        assert((seq![parse + label] + why).skip(1) =~= why);
    }
}

proof fn lemma_ends_with(front: Seq<char>, part: Seq<char>)
    ensures
        holds(front + part, part),
{
    assert(front + part =~= front + part + Seq::empty());
}

/// A command line that names no program is refused: one without words, and one
/// that breaks the quoting rules, which the error quotes.
pub proof fn law_command_lines_need_a_program(line: Seq<char>)
    ensures
        command_from_line(line) is Ok <==> (shell_words(line) matches Some(words) && words.len()
            > 0),
        command_from_line(line) matches Ok(command) ==> command.program == shell_words(line)->0[0]
            && command.args == shell_words(line)->0.skip(1),
        shell_words(line) is None ==> (command_from_line(line) matches Err(messages) && holds(
            messages[0],
            quoted(line),
        )),
{
    lemma_ends_with("could not parse command line: "@, quoted(line));
}

/// A title, a split or a directory without a tab of its kind is refused, and
/// nothing else is on that account.
pub proof fn law_unmatched_options_are_refused(tabs: CliTabsView)
    ensures
        unmatched_option(tabs) is None <==> {
            &&& tabs.directory_titles.len() <= tabs.directories.len()
            &&& tabs.profile_titles.len() <= tabs.profiles.len()
            &&& tabs.profile_splits.len() <= tabs.profiles.len()
            &&& tabs.command_directories.len() <= tabs.commands.len()
            &&& tabs.command_titles.len() <= tabs.commands.len()
        },
{
}

/// The directory that a command line asks for is looked at before all else: if
/// it does not resolve, the error is why.
pub proof fn law_asked_directory_comes_first(
    cli: CliView,
    config: ConfigView,
    path_options: PathOptionsView,
    directories: Inspections,
)
    requires
        cli.working_directory is Some || cli.directory is Some,
    ensures
        ({
            let named = if cli.working_directory is Some {
                cli.working_directory
            } else {
                cli.directory
            };
            resolved_option(named, directories) matches Err(why) ==> (window(
                cli,
                config,
                path_options,
                directories,
            ) matches Err(messages) && messages == why)
        }),
{
}

/// A profile that is asked for and does not exist is named by the last message.
pub proof fn law_missing_profile_is_named(
    cli: CliView,
    config: ConfigView,
    path_options: PathOptionsView,
    directories: Inspections,
)
    requires
        !cli.no_startup_config,
        resolved_option(asked_directory(cli), directories) is Ok,
        cli.profile matches Some(name) && name.len() > 0 && forall|i: int|
            0 <= i < config.profiles.len() ==> (#[trigger] config.profiles[i]).0 != name,
    ensures
        window(cli, config, path_options, directories) matches Err(messages) && holds(
            messages.last(),
            cli.profile->0,
        ),
{
    let name = cli.profile->0;
    if has_name(config.profiles, name) {
        let i = choose|i: int| names_at(config.profiles, name, i);
        assert(config.profiles[i].0 == name);
    }
    let head = "startup profile not found: "@;
    let message = crate::layout::missing_profile(head, name, config);
    if config.profiles.len() == 0 {
        lemma_ends_with(head, name);
    } else {
        let list = joined(crate::layout::profile_name_list(config), ", "@);
        assert(message =~= head + name + (". Available profiles: "@ + list));
        assert(holds(message, name));
    }
    let messages = window(cli, config, path_options, directories)->Err_0;
    assert(messages.last() == message);
}

/// A blank name is no profile.
pub proof fn law_blank_profiles_are_refused(
    config: ConfigView,
    profile: Seq<char>,
    split: Option<crate::config::TerminalStartupSplitDirection>,
    directories: Inspections,
)
    requires
        trimmed(profile).len() == 0,
    ensures
        profile_tab(config, profile, split, directories) is Err,
{
}

/// A layout is valid exactly when its first tab and all its further ones open,
/// and then counts as many.
pub proof fn law_layout_counts_its_tabs(
    config: ConfigView,
    layout: crate::layout::LayoutView,
    directories: Inspections,
)
    ensures
        validated_layout(config, layout, directories) matches Ok(tabs) ==> tabs == 1
            + layout.tabs.len(),
{
}

/// The default profile is looked at before all layouts: where it is blank or
/// does not exist, that is the error.
pub proof fn law_default_profile_must_exist(config: ConfigView, directories: Inspections)
    requires
        config.default_profile matches Some(name) && (trimmed(name).len() == 0 || forall|i: int|
            0 <= i < config.profiles.len() ==> (#[trigger] config.profiles[i]).0 != name),
    ensures
        validated(config, directories) matches Err(messages) && messages.len() == 1,
{
    let name = config.default_profile->0;
    if has_name(config.profiles, name) {
        let i = choose|i: int| names_at(config.profiles, name, i);
        assert(config.profiles[i].0 == name);
    }
}

} // verus!
