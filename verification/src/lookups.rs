//! Which working directories have to be looked up on disk before a command
//! line or a configuration can be resolved.

use crate::cli::{Cli, CliView};
use crate::config::{
    configured_shell_option, ConfigView, ProfileConfigView, TabConfigView, TerminalStartupConfig,
    TerminalStartupSplitDirection, TerminalStartupTabConfig,
};
use crate::command::ShellView;
use crate::directory::{resolved_option, Inspections};
use crate::error::collected;
use crate::launch::{
    asked_command, asked_directory, asked_tabs, effective_config, effective_profile, window,
};
use crate::launch_tab::{
    cli_tabs, command_tab, directory_tab, named_profile_tab, nth, LaunchTabView,
};
use crate::layout::{
    chosen_env, chosen_first_tab, chosen_further_tabs, chosen_layout, chosen_shell, configured_tabs,
    profile_layout, profile_tab, root_layout, LayoutView,
};
use crate::name_map::{has_name, lookup, names_at};
use crate::paths::PathOptionsView;
use crate::text::contains_text;
use crate::validation::{validated, validated_layout, validated_profiles};
use vstd::prelude::*;

verus! {

/// Whether one of these tabs names this working directory.
pub open spec fn tabs_mention(tabs: Seq<TabConfigView>, directory: Seq<char>) -> bool {
    exists|i: int|
        0 <= i < tabs.len() && (#[trigger] tabs[i]).working_directory == Some(directory)
}

/// Whether a layout names this working directory.
pub open spec fn layout_mentions(
    working_directory: Option<Seq<char>>,
    tabs: Seq<TabConfigView>,
    directory: Seq<char>,
) -> bool {
    working_directory == Some(directory) || tabs_mention(tabs, directory)
}

/// Whether a profile names this working directory.
pub open spec fn profile_mentions(
    profile: (Seq<char>, ProfileConfigView),
    directory: Seq<char>,
) -> bool {
    layout_mentions(profile.1.working_directory, profile.1.tabs, directory)
}

/// Whether a configuration names this working directory.
pub open spec fn config_mentions(config: ConfigView, directory: Seq<char>) -> bool {
    ||| layout_mentions(config.working_directory, config.tabs, directory)
    ||| exists|i: int|
        0 <= i < config.profiles.len() && profile_mentions(
            #[trigger] config.profiles[i],
            directory,
        )
}

/// Whether a command line names this working directory.
pub open spec fn cli_mentions(cli: CliView, directory: Seq<char>) -> bool {
    ||| cli.working_directory == Some(directory)
    ||| cli.directory == Some(directory)
    ||| cli.new_tabs.contains(directory)
    ||| cli.new_tab_command_directories.contains(directory)
}

/// `found` with the text, unless it is there.
fn add_text(found: &mut Vec<String>, text: &String)
    ensures
        old(found).deep_view().no_duplicates() ==> final(found).deep_view().no_duplicates(),
        forall|d: Seq<char>| #[trigger]
            final(found).deep_view().contains(d) <==> old(found).deep_view().contains(d) || d
                == text@,
{
    let ghost before = found.deep_view();
    if !contains_text(found, text) {
        found.push(text.clone());
        proof {
            assert(found.deep_view() =~= before.push(text@));
            lemma_push_contains(before, text@);
        }
    }
}

proof fn lemma_push_contains(texts: Seq<Seq<char>>, text: Seq<char>)
    ensures
        forall|d: Seq<char>| #[trigger]
            texts.push(text).contains(d) <==> texts.contains(d) || d == text,
{
    assert forall|d: Seq<char>| #[trigger] texts.push(text).contains(d) <==> texts.contains(d) || d
        == text by {
        let longer = texts.push(text);
        if texts.contains(d) {
            let i = choose|i: int| 0 <= i < texts.len() && texts[i] == d;
            assert(longer[i] == d);
        }
        if d == text {
            assert(longer[texts.len() as int] == d);
        }
        if longer.contains(d) {
            let i = choose|i: int| 0 <= i < longer.len() && longer[i] == d;
            if i < texts.len() {
                assert(texts[i] == d);
            }
        }
    }
}

/// `found` with the optional text, unless it is there.
fn add_option(found: &mut Vec<String>, text: &Option<String>)
    ensures
        old(found).deep_view().no_duplicates() ==> final(found).deep_view().no_duplicates(),
        forall|d: Seq<char>| #[trigger]
            final(found).deep_view().contains(d) <==> old(found).deep_view().contains(d)
                || text.deep_view() == Some(d),
{
    if let Some(text) = text {
        add_text(found, text);
    }
}

/// `found` with each of the texts, unless it is there.
fn add_texts(found: &mut Vec<String>, texts: &Vec<String>)
    ensures
        old(found).deep_view().no_duplicates() ==> final(found).deep_view().no_duplicates(),
        forall|d: Seq<char>| #[trigger]
            final(found).deep_view().contains(d) <==> old(found).deep_view().contains(d)
                || texts.deep_view().contains(d),
{
    let ghost before = found.deep_view();
    let mut i: usize = 0;
    while i < texts.len()
        invariant
            i <= texts@.len(),
            before.no_duplicates() ==> found.deep_view().no_duplicates(),
            forall|d: Seq<char>| #[trigger]
                found.deep_view().contains(d) <==> before.contains(d) || texts.deep_view().take(
                    i as int,
                ).contains(d),
        decreases texts@.len() - i,
    {
        add_text(found, &texts[i]);
        proof {
            let all = texts.deep_view();
            assert(all.take(i + 1) =~= all.take(i as int).push(texts@[i as int]@));
            lemma_push_contains(all.take(i as int), texts@[i as int]@);
        }
        i = i + 1;
    }
    proof {
        assert(texts.deep_view().take(texts@.len() as int) =~= texts.deep_view());
    }
}

/// `found` with the working directories of the tabs, unless they are there.
fn add_tab_directories(found: &mut Vec<String>, tabs: &Vec<TerminalStartupTabConfig>)
    ensures
        old(found).deep_view().no_duplicates() ==> final(found).deep_view().no_duplicates(),
        forall|d: Seq<char>| #[trigger]
            final(found).deep_view().contains(d) <==> old(found).deep_view().contains(d)
                || tabs_mention(tabs.deep_view(), d),
{
    let ghost before = found.deep_view();
    let ghost all = tabs.deep_view();
    let mut i: usize = 0;
    while i < tabs.len()
        invariant
            i <= tabs@.len(),
            all == tabs.deep_view(),
            before.no_duplicates() ==> found.deep_view().no_duplicates(),
            forall|d: Seq<char>| #[trigger]
                found.deep_view().contains(d) <==> before.contains(d) || tabs_mention(
                    all.take(i as int),
                    d,
                ),
        decreases tabs@.len() - i,
    {
        add_option(found, &tabs[i].working_directory);
        proof {
            assert forall|d: Seq<char>| #[trigger] tabs_mention(all.take(i + 1), d) <==> (
            tabs_mention(all.take(i as int), d) || all[i as int].working_directory == Some(d)) by {
                let longer = all.take(i + 1);
                let shorter = all.take(i as int);
                if tabs_mention(shorter, d) {
                    let j = choose|j: int|
                        0 <= j < shorter.len() && (#[trigger] shorter[j]).working_directory == Some(
                            d,
                        );
                    assert(longer[j].working_directory == Some(d));
                }
                if all[i as int].working_directory == Some(d) {
                    assert(longer[i as int].working_directory == Some(d));
                }
                if tabs_mention(longer, d) {
                    let j = choose|j: int|
                        0 <= j < longer.len() && (#[trigger] longer[j]).working_directory == Some(
                            d,
                        );
                    if j < i {
                        assert(shorter[j].working_directory == Some(d));
                    }
                }
            }
        }
        i = i + 1;
    }
    proof {
        assert(all.take(all.len() as int) =~= all);
    }
}

impl Cli {
    /// The working directories that the command line names, each once.
    pub fn named_directories(&self) -> (r: Vec<String>)
        ensures
            r.deep_view().no_duplicates(),
            forall|d: Seq<char>| #[trigger] r.deep_view().contains(d) <==> cli_mentions(self@, d),
    {
        let mut found: Vec<String> = Vec::new();
        proof {
            assert(found.deep_view() =~= Seq::empty());
        }
        add_option(&mut found, &self.working_directory);
        add_option(&mut found, &self.directory);
        add_texts(&mut found, &self.new_tabs);
        add_texts(&mut found, &self.new_tab_command_directories);
        found
    }
}

impl TerminalStartupConfig {
    /// The working directories that the configuration names, each once.
    #[verifier::loop_isolation(false)]
    pub fn named_directories(&self) -> (r: Vec<String>)
        ensures
            r.deep_view().no_duplicates(),
            forall|d: Seq<char>| #[trigger]
                r.deep_view().contains(d) <==> config_mentions(self@, d),
    {
        let mut found: Vec<String> = Vec::new();
        proof {
            assert(found.deep_view() =~= Seq::empty());
        }
        add_option(&mut found, &self.working_directory);
        add_tab_directories(&mut found, &self.tabs);
        let ghost root = found.deep_view();
        let ghost all = self.profiles.entries();
        proof {
            assert(forall|d: Seq<char>| #[trigger]
                root.contains(d) <==> layout_mentions(self@.working_directory, self@.tabs, d));
        }
        let mut i: usize = 0;
        while i < self.profiles.len()
            invariant
                i <= all.len(),
                all == self.profiles.entries(),
                found.deep_view().no_duplicates(),
                forall|d: Seq<char>| #[trigger]
                    found.deep_view().contains(d) <==> root.contains(d) || exists|j: int|
                        0 <= j < i && profile_mentions(#[trigger] all[j], d),
            decreases all.len() - i,
        {
            let profile = self.profiles.value_at(i);
            add_option(&mut found, &profile.working_directory);
            add_tab_directories(&mut found, &profile.tabs);
            proof {
                assert(all[i as int].1 == profile@);
                assert(forall|d: Seq<char>| #[trigger]
                    profile_mentions(all[i as int], d) <==> profile@.working_directory == Some(d)
                        || tabs_mention(profile@.tabs, d));
            }
            i = i + 1;
        }
        proof {
            assert forall|d: Seq<char>| #[trigger]
                found.deep_view().contains(d) <==> config_mentions(self@, d) by {
                assert(root.contains(d) <==> layout_mentions(
                    self@.working_directory,
                    self@.tabs,
                    d,
                ));
                assert(self@.profiles == all);
            }
        }
        found
    }
}

/// Whether two sets of findings are the same for every directory that a
/// configuration names.
pub open spec fn agree_on_config(config: ConfigView, a: Inspections, b: Inspections) -> bool {
    forall|d: Seq<char>| config_mentions(config, d) ==> #[trigger] lookup(a, d) == lookup(b, d)
}

/// Whether two sets of findings are the same for every directory that a
/// command line names.
pub open spec fn agree_on_cli(cli: CliView, a: Inspections, b: Inspections) -> bool {
    forall|d: Seq<char>| cli_mentions(cli, d) ==> #[trigger] lookup(a, d) == lookup(b, d)
}

proof fn lemma_chosen_layout_mentions(
    config: ConfigView,
    requested: Option<Seq<char>>,
    directory: Seq<char>,
)
    requires
        chosen_layout(config, requested) is Ok,
        ({
            let layout = chosen_layout(config, requested)->Ok_0;
            layout_mentions(layout.working_directory, layout.tabs, directory)
        }),
    ensures
        config_mentions(config, directory),
{
    let name = match requested {
        Some(name) => Some(name),
        None => config.default_profile,
    };
    if name is Some {
        let i = choose|i: int| names_at(config.profiles, name->0, i);
        assert(has_name(config.profiles, name->0));
        assert(profile_mentions(config.profiles[i], directory));
    }
}

proof fn lemma_first_tab_local(
    config: ConfigView,
    requested: Option<Seq<char>>,
    a: Inspections,
    b: Inspections,
)
    requires
        agree_on_config(config, a, b),
    ensures
        chosen_first_tab(config, requested, a) == chosen_first_tab(config, requested, b),
{
    if chosen_layout(config, requested) is Ok {
        let layout = chosen_layout(config, requested)->Ok_0;
        if layout.working_directory is Some {
            let d = layout.working_directory->0;
            lemma_chosen_layout_mentions(config, requested, d);
            assert(lookup(a, d) == lookup(b, d));
        }
        assert(resolved_option(layout.working_directory, a) == resolved_option(
            layout.working_directory,
            b,
        ));
    }
}

proof fn lemma_configured_tabs_local(
    config: ConfigView,
    tabs: Seq<TabConfigView>,
    env: Map<Seq<char>, Seq<char>>,
    shell: Option<ShellView>,
    label: Seq<char>,
    a: Inspections,
    b: Inspections,
)
    requires
        agree_on_config(config, a, b),
        forall|d: Seq<char>| tabs_mention(tabs, d) ==> #[trigger] lookup(a, d) == lookup(b, d),
    ensures
        configured_tabs(config, tabs, env, shell, label, a) == configured_tabs(
            config,
            tabs,
            env,
            shell,
            label,
            b,
        ),
    decreases tabs.len(),
{
    if tabs.len() > 0 {
        let front = tabs.drop_last();
        let tab = tabs.last();
        assert forall|d: Seq<char>| tabs_mention(front, d) implies #[trigger] lookup(a, d)
            == lookup(b, d) by {
            let i = choose|i: int|
                0 <= i < front.len() && (#[trigger] front[i]).working_directory == Some(d);
            assert(tabs[i].working_directory == Some(d));
            assert(tabs_mention(tabs, d));
        }
        lemma_configured_tabs_local(config, front, env, shell, label, a, b);
        if tab.profile is Some {
            lemma_profile_tab_local(config, tab.profile->0, tab.split, a, b);
        } else {
            if tab.working_directory is Some {
                let d = tab.working_directory->0;
                assert(tabs[tabs.len() - 1].working_directory == Some(d));
                assert(tabs_mention(tabs, d));
                assert(lookup(a, d) == lookup(b, d));
            }
            assert(resolved_option(tab.working_directory, a) == resolved_option(
                tab.working_directory,
                b,
            ));
        }
    }
}

proof fn lemma_profile_tab_local(
    config: ConfigView,
    profile: Seq<char>,
    split: Option<TerminalStartupSplitDirection>,
    a: Inspections,
    b: Inspections,
)
    requires
        agree_on_config(config, a, b),
    ensures
        profile_tab(config, profile, split, a) == profile_tab(config, profile, split, b),
{
    lemma_first_tab_local(config, Some(crate::text::trimmed(profile)), a, b);
}

proof fn lemma_layout_local(config: ConfigView, layout: LayoutView, a: Inspections, b: Inspections)
    requires
        agree_on_config(config, a, b),
        forall|d: Seq<char>|
            layout_mentions(layout.working_directory, layout.tabs, d) ==> #[trigger] lookup(a, d)
                == lookup(b, d),
    ensures
        validated_layout(config, layout, a) == validated_layout(config, layout, b),
{
    if layout.working_directory is Some {
        let d = layout.working_directory->0;
        assert(layout_mentions(layout.working_directory, layout.tabs, d));
        assert(lookup(a, d) == lookup(b, d));
    }
    assert(resolved_option(layout.working_directory, a) == resolved_option(
        layout.working_directory,
        b,
    ));
    assert forall|d: Seq<char>| tabs_mention(layout.tabs, d) implies #[trigger] lookup(a, d)
        == lookup(b, d) by {
        assert(layout_mentions(layout.working_directory, layout.tabs, d));
    }
    if configured_shell_option(layout.shell) is Ok {
        let shell = configured_shell_option(layout.shell)->Ok_0;
        lemma_configured_tabs_local(config, layout.tabs, layout.env, shell, layout.label, a, b);
    }
}

proof fn lemma_profiles_local(
    config: ConfigView,
    profiles: Seq<(Seq<char>, ProfileConfigView)>,
    a: Inspections,
    b: Inspections,
)
    requires
        agree_on_config(config, a, b),
        forall|i: int| 0 <= i < profiles.len() ==> config.profiles.contains(#[trigger] profiles[i]),
    ensures
        validated_profiles(config, profiles, a) == validated_profiles(config, profiles, b),
    decreases profiles.len(),
{
    if profiles.len() > 0 {
        let front = profiles.drop_last();
        let last = profiles.last();
        assert forall|i: int| 0 <= i < front.len() implies config.profiles.contains(
            #[trigger] front[i],
        ) by {
            assert(front[i] == profiles[i]);
        }
        lemma_profiles_local(config, front, a, b);
        assert(config.profiles.contains(profiles[profiles.len() - 1]));
        let layout = profile_layout(last.0, last.1);
        assert forall|d: Seq<char>|
            layout_mentions(layout.working_directory, layout.tabs, d) implies #[trigger] lookup(
            a,
            d,
        ) == lookup(b, d) by {
            let i = choose|i: int| 0 <= i < config.profiles.len() && config.profiles[i] == last;
            assert(profile_mentions(config.profiles[i], d));
            assert(config_mentions(config, d));
        }
        lemma_layout_local(config, layout, a, b);
    }
}

/// Validating a configuration looks up no directory but those that it names.
pub proof fn law_validation_needs_named_directories(
    config: ConfigView,
    a: Inspections,
    b: Inspections,
)
    requires
        agree_on_config(config, a, b),
    ensures
        validated(config, a) == validated(config, b),
{
    assert forall|d: Seq<char>|
        layout_mentions(config.working_directory, config.tabs, d) implies #[trigger] lookup(a, d)
        == lookup(b, d) by {
        assert(config_mentions(config, d));
    }
    lemma_layout_local(config, root_layout(config), a, b);
    lemma_profiles_local(config, config.profiles, a, b);
}

proof fn lemma_collected_same(
    n: nat,
    f: spec_fn(int) -> Result<LaunchTabView, Seq<Seq<char>>>,
    g: spec_fn(int) -> Result<LaunchTabView, Seq<Seq<char>>>,
)
    requires
        forall|i: int| 0 <= i < n ==> #[trigger] f(i) == g(i),
    ensures
        collected(n, f) == collected(n, g),
    decreases n,
{
    if n > 0 {
        lemma_collected_same((n - 1) as nat, f, g);
        assert(f(n - 1) == g(n - 1));
    }
}

proof fn lemma_cli_tabs_local(
    cli: CliView,
    env: Map<Seq<char>, Seq<char>>,
    shell: Option<ShellView>,
    config: ConfigView,
    a: Inspections,
    b: Inspections,
)
    requires
        agree_on_cli(cli, a, b),
        agree_on_config(config, a, b),
    ensures
        cli_tabs(asked_tabs(cli), env, shell, config, a) == cli_tabs(
            asked_tabs(cli),
            env,
            shell,
            config,
            b,
        ),
{
    let tabs = asked_tabs(cli);
    let directories_a = directory_tab(tabs.directories, tabs.directory_titles, shell, a);
    let directories_b = directory_tab(tabs.directories, tabs.directory_titles, shell, b);
    assert forall|i: int| 0 <= i < tabs.directories.len() implies #[trigger] directories_a(i)
        == directories_b(i) by {
        assert(cli.new_tabs.contains(tabs.directories[i]));
        assert(lookup(a, tabs.directories[i]) == lookup(b, tabs.directories[i]));
    }
    lemma_collected_same(tabs.directories.len(), directories_a, directories_b);
    let before = tabs.directories.len();
    let profiles_a = named_profile_tab(
        tabs.profiles,
        tabs.profile_titles,
        tabs.profile_splits,
        before,
        config,
        a,
    );
    let profiles_b = named_profile_tab(
        tabs.profiles,
        tabs.profile_titles,
        tabs.profile_splits,
        before,
        config,
        b,
    );
    assert forall|i: int| 0 <= i < tabs.profiles.len() implies #[trigger] profiles_a(i)
        == profiles_b(i) by {
        lemma_profile_tab_local(config, tabs.profiles[i], nth(tabs.profile_splits, i), a, b);
    }
    lemma_collected_same(tabs.profiles.len(), profiles_a, profiles_b);
    let before = tabs.directories.len() + tabs.profiles.len();
    let commands_a = command_tab(
        tabs.commands,
        tabs.command_directories,
        tabs.command_titles,
        before,
        env,
        a,
    );
    let commands_b = command_tab(
        tabs.commands,
        tabs.command_directories,
        tabs.command_titles,
        before,
        env,
        b,
    );
    assert forall|i: int| 0 <= i < tabs.commands.len() implies #[trigger] commands_a(i)
        == commands_b(i) by {
        let directory = nth(tabs.command_directories, i);
        if directory is Some {
            assert(cli.new_tab_command_directories.contains(directory->0));
            assert(lookup(a, directory->0) == lookup(b, directory->0));
        }
        assert(resolved_option(directory, a) == resolved_option(directory, b));
    }
    lemma_collected_same(tabs.commands.len(), commands_a, commands_b);
}

/// Resolving a command line looks up no directory but those that it and the
/// configuration name.
pub proof fn law_launch_needs_named_directories(
    cli: CliView,
    config: ConfigView,
    path_options: PathOptionsView,
    a: Inspections,
    b: Inspections,
)
    requires
        agree_on_cli(cli, a, b),
        agree_on_config(config, a, b),
    ensures
        window(cli, config, path_options, a) == window(cli, config, path_options, b),
        asked_command(cli, config, path_options, a) == asked_command(cli, config, path_options, b),
{
    let used = effective_config(cli, config);
    let profile = effective_profile(cli);
    assert(agree_on_config(used, a, b));
    if asked_directory(cli) is Some {
        let d = asked_directory(cli)->0;
        assert(cli_mentions(cli, d));
        assert(lookup(a, d) == lookup(b, d));
    }
    assert(resolved_option(asked_directory(cli), a) == resolved_option(asked_directory(cli), b));
    lemma_first_tab_local(used, profile, a, b);
    lemma_further_tabs_local(used, profile, a, b);
    if chosen_env(used, profile) is Ok && chosen_shell(used, profile) is Ok {
        lemma_cli_tabs_local(
            cli,
            chosen_env(used, profile)->Ok_0,
            chosen_shell(used, profile)->Ok_0,
            used,
            a,
            b,
        );
    }
}

proof fn lemma_further_tabs_local(
    config: ConfigView,
    requested: Option<Seq<char>>,
    a: Inspections,
    b: Inspections,
)
    requires
        agree_on_config(config, a, b),
    ensures
        chosen_further_tabs(config, requested, a) == chosen_further_tabs(config, requested, b),
{
    if chosen_layout(config, requested) is Ok {
        let layout = chosen_layout(config, requested)->Ok_0;
        if configured_shell_option(layout.shell) is Ok {
            let shell = configured_shell_option(layout.shell)->Ok_0;
            assert forall|d: Seq<char>| tabs_mention(layout.tabs, d) implies #[trigger] lookup(a, d)
                == lookup(b, d) by {
                assert(layout_mentions(layout.working_directory, layout.tabs, d));
                lemma_chosen_layout_mentions(config, requested, d);
            }
            lemma_configured_tabs_local(config, layout.tabs, layout.env, shell, layout.label, a, b);
        }
    }
}

} // verus!
