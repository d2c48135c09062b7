//! What holds of validating the startup configuration, of changing its default
//! profile and of diagnosing the application's files.

use crate::command::ShellView;
use crate::config::{
    empty_config, loaded_config, ConfigFileView, ConfigView, ProfileConfigView, TabConfigView,
    TerminalStartupSplitDirection,
};
use crate::config_files::{
    next_step, planned_files, InitialContents, InitializationEvent, PathInspection, StepView,
    TerminalConfigFileInitializationStatus, INITIAL_STARTUP_CONFIG,
};
use crate::default_profile::{
    file_update, profile_name, profile_set, rewritten_problem, with_default_profile,
    ProfileStepView,
};
use crate::directory::Inspections;
use crate::doctor::{
    config_check, config_file_checks, directory_checks, keymap_check, path_check, report_failed,
    DoctorReportView, FoundConfigFiles, FoundDirectories, PathCheckView,
    TerminalDoctorCheckStatus, TerminalDoctorConfigSource, TerminalDoctorPathKind,
};
use crate::keymap::{
    loaded_bindings, user_keymap, validated_keymaps, KeymapLoad, KeymapRead,
    TerminalKeymapValidation, TerminalUserKeymapSource,
};
use crate::launch_tab::LaunchTabView;
use crate::layout::{
    chosen_first_tab, chosen_further_tabs, chosen_layout, configured_tabs, profile_layout,
    profile_tab, root_layout, LayoutView,
};
use crate::name_map::{has_name, in_name_order, lemma_lookup_at, names_at};
use crate::palette::offered_profiles;
use crate::path_parts::joined_path;
use crate::paths::PathOptionsView;
use crate::profiles::{menu_entries, menu_entries_of_file, summaries_of};
use crate::text::{quoted, trimmed};
use crate::validation::{
    validated, validated_layout, validated_profile, validated_profiles,
};
use crate::window::profile_tab_of_file;
use vstd::prelude::*;

verus! {

/// How many tabs profiles open together: for each its first tab and its
/// further ones.
pub open spec fn tabs_of(profiles: Seq<(Seq<char>, ProfileConfigView)>) -> nat
    decreases profiles.len(),
{
    if profiles.len() == 0 {
        0
    } else {
        1 + profiles[0].1.tabs.len() + tabs_of(profiles.skip(1))
    }
}

proof fn lemma_tabs_of_last(profiles: Seq<(Seq<char>, ProfileConfigView)>)
    requires
        profiles.len() > 0,
    ensures
        tabs_of(profiles) == tabs_of(profiles.drop_last()) + 1 + profiles.last().1.tabs.len(),
    decreases profiles.len(),
{
    if profiles.len() > 1 {
        lemma_tabs_of_last(profiles.skip(1));
        assert(profiles.skip(1).drop_last() =~= profiles.drop_last().skip(1));
        assert(profiles.skip(1).last() == profiles.last());
    } else {
        assert(profiles.skip(1) =~= Seq::empty());
        assert(profiles.drop_last() =~= Seq::empty());
        assert(tabs_of(profiles.skip(1)) == 0);
        assert(tabs_of(profiles.drop_last()) == 0);
    }
}

proof fn lemma_validated_profiles_count(
    config: ConfigView,
    profiles: Seq<(Seq<char>, ProfileConfigView)>,
    directories: Inspections,
)
    ensures
        validated_profiles(config, profiles, directories) is Ok <==> forall|k: int|
            0 <= k < profiles.len() ==> validated_profile(
                config,
                (#[trigger] profiles[k]).0,
                profiles[k].1,
                directories,
            ) is Ok,
        validated_profiles(config, profiles, directories) matches Ok(tabs) ==> tabs == tabs_of(
            profiles,
        ),
    decreases profiles.len(),
{
    if profiles.len() > 0 {
        let front = profiles.drop_last();
        lemma_validated_profiles_count(config, front, directories);
        lemma_tabs_of_last(profiles);
        assert forall|k: int| 0 <= k < front.len() implies front[k] == profiles[k] by {}
        let last = profiles.len() - 1;
        if validated_profiles(config, profiles, directories) is Ok {
            assert forall|k: int| 0 <= k < profiles.len() implies validated_profile(
                config,
                (#[trigger] profiles[k]).0,
                profiles[k].1,
                directories,
            ) is Ok by {
                if k < last {
                    assert(front[k] == profiles[k]);
                }
            }
        } else if forall|k: int|
            0 <= k < profiles.len() ==> validated_profile(
                config,
                (#[trigger] profiles[k]).0,
                profiles[k].1,
                directories,
            ) is Ok {
            assert(validated_profile(config, profiles[last].0, profiles[last].1, directories)
                is Ok);
        }
    }
}

/// The tab count of a valid configuration is the number of tabs that all its
/// layouts open: for each its first tab and its further ones. The layouts are
/// one outside all profiles and one for each profile. What is too large to
/// count is cut off.
pub proof fn law_validation_counts_all_tabs(config: ConfigView, directories: Inspections)
    requires
        validated(config, directories) is Ok,
    ensures
        ({
            let validation = validated(config, directories)->Ok_0;
            let layouts = 1 + config.profiles.len();
            let tabs = 1 + config.tabs.len() + tabs_of(config.profiles);
            &&& layouts <= usize::MAX ==> validation.layout_count == layouts
            &&& layouts > usize::MAX ==> validation.layout_count == usize::MAX
            &&& tabs <= usize::MAX ==> validation.tab_count == tabs
            &&& tabs > usize::MAX ==> validation.tab_count == usize::MAX
        }),
{
    lemma_validated_profiles_count(config, config.profiles, directories);
}

/// A profile more means one layout more and as many tabs as it opens.
pub proof fn law_another_profile_adds_its_tabs(
    config: ConfigView,
    at: int,
    profile: (Seq<char>, ProfileConfigView),
    directories: Inspections,
)
    requires
        0 <= at <= config.profiles.len(),
        validated(config, directories) is Ok,
        ({
            let more = ConfigView { profiles: config.profiles.insert(at, profile), ..config };
            &&& validated(more, directories) is Ok
            &&& validated(more, directories)->Ok_0.layout_count < usize::MAX
            &&& validated(more, directories)->Ok_0.tab_count < usize::MAX
        }),
    ensures
        ({
            let more = ConfigView { profiles: config.profiles.insert(at, profile), ..config };
            let before = validated(config, directories)->Ok_0;
            let after = validated(more, directories)->Ok_0;
            &&& after.layout_count == before.layout_count + 1
            &&& after.tab_count == before.tab_count + 1 + profile.1.tabs.len()
        }),
{
    let more = ConfigView { profiles: config.profiles.insert(at, profile), ..config };
    law_validation_counts_all_tabs(config, directories);
    law_validation_counts_all_tabs(more, directories);
    lemma_tabs_of_insert(config.profiles, at, profile);
}

proof fn lemma_tabs_of_insert(
    profiles: Seq<(Seq<char>, ProfileConfigView)>,
    at: int,
    profile: (Seq<char>, ProfileConfigView),
)
    requires
        0 <= at <= profiles.len(),
    ensures
        tabs_of(profiles.insert(at, profile)) == tabs_of(profiles) + 1 + profile.1.tabs.len(),
    decreases profiles.len(),
{
    let more = profiles.insert(at, profile);
    if at == 0 {
        assert(more.skip(1) =~= profiles);
    } else {
        assert(more[0] == profiles[0]);
        assert(more.skip(1) =~= profiles.skip(1).insert(at - 1, profile));
        lemma_tabs_of_insert(profiles.skip(1), at - 1, profile);
    }
}

/// Whether the layout that is chosen opens with all its tabs.
pub open spec fn opens(
    config: ConfigView,
    requested: Option<Seq<char>>,
    directories: Inspections,
) -> bool {
    &&& chosen_first_tab(config, requested, directories) is Ok
    &&& chosen_further_tabs(config, requested, directories) is Ok
}

/// A configuration is valid exactly when the default profile, if there is one,
/// exists, no profile has a blank name, and every layout opens with all its
/// tabs: the one outside all profiles and that of each profile.
pub proof fn law_valid_means_that_all_layouts_open(config: ConfigView, directories: Inspections)
    requires
        in_name_order(config.profiles),
    ensures
        validated(config, directories) is Ok <==> {
            &&& config.default_profile matches Some(name) ==> trimmed(name).len() > 0 && exists|
                k: int,
            |
                0 <= k < config.profiles.len() && (#[trigger] config.profiles[k]).0 == name
            &&& opens(with_default_profile(config, None), None, directories)
            &&& forall|k: int|
                0 <= k < config.profiles.len() ==> trimmed((#[trigger] config.profiles[k]).0).len()
                    > 0 && opens(config, Some(config.profiles[k].0), directories)
        },
{
    lemma_validated_profiles_count(config, config.profiles, directories);
    let bare = with_default_profile(config, None);
    lemma_default_profile_plays_no_part(config, None, root_layout(config), directories);
    assert(root_layout(bare) == root_layout(config));
    assert forall|k: int|
        0 <= k < config.profiles.len() && trimmed((#[trigger] config.profiles[k]).0).len()
            > 0 implies (validated_profile(
        config,
        config.profiles[k].0,
        config.profiles[k].1,
        directories,
    ) is Ok <==> opens(config, Some(config.profiles[k].0), directories)) by {
        lemma_lookup_at(config.profiles, k);
        let name = config.profiles[k].0;
        if name.len() == 0 {
            assert(trimmed(name) =~= name);
        }
        let layout = profile_layout(name, config.profiles[k].1);
        assert(chosen_layout(config, Some(name)) == Ok::<LayoutView, Seq<Seq<char>>>(layout));
    }
    if config.default_profile is Some {
        let name = config.default_profile->0;
        if has_name(config.profiles, name) {
            let k = choose|k: int| names_at(config.profiles, name, k);
            assert(config.profiles[k].0 == name);
        }
        if exists|k: int|
            0 <= k < config.profiles.len() && (#[trigger] config.profiles[k]).0 == name {
            let k = choose|k: int|
                0 <= k < config.profiles.len() && (#[trigger] config.profiles[k]).0 == name;
            assert(names_at(config.profiles, name, k));
        }
    }
}

proof fn lemma_configured_tabs_default(
    config: ConfigView,
    default_profile: Option<Seq<char>>,
    tabs: Seq<TabConfigView>,
    env: Map<Seq<char>, Seq<char>>,
    shell: Option<ShellView>,
    label: Seq<char>,
    directories: Inspections,
)
    ensures
        configured_tabs(
            with_default_profile(config, default_profile),
            tabs,
            env,
            shell,
            label,
            directories,
        ) == configured_tabs(config, tabs, env, shell, label, directories),
    decreases tabs.len(),
{
    if tabs.len() > 0 {
        let other = with_default_profile(config, default_profile);
        lemma_configured_tabs_default(
            config,
            default_profile,
            tabs.drop_last(),
            env,
            shell,
            label,
            directories,
        );
        let tab = tabs.last();
        if tab.profile is Some {
            let name = trimmed(tab.profile->0);
            assert(chosen_layout(other, Some(name)) == chosen_layout(config, Some(name)));
        }
    }
}

proof fn lemma_default_profile_plays_no_part(
    config: ConfigView,
    default_profile: Option<Seq<char>>,
    layout: LayoutView,
    directories: Inspections,
)
    ensures
        validated_layout(with_default_profile(config, default_profile), layout, directories)
            == validated_layout(config, layout, directories),
        forall|shell: Option<ShellView>|
            configured_tabs(
                with_default_profile(config, default_profile),
                layout.tabs,
                layout.env,
                shell,
                layout.label,
                directories,
            ) == #[trigger] configured_tabs(
                config,
                layout.tabs,
                layout.env,
                shell,
                layout.label,
                directories,
            ),
{
    assert forall|shell: Option<ShellView>|
        configured_tabs(
            with_default_profile(config, default_profile),
            layout.tabs,
            layout.env,
            shell,
            layout.label,
            directories,
        ) == #[trigger] configured_tabs(
            config,
            layout.tabs,
            layout.env,
            shell,
            layout.label,
            directories,
        ) by {
        lemma_configured_tabs_default(
            config,
            default_profile,
            layout.tabs,
            layout.env,
            shell,
            layout.label,
            directories,
        );
    }
}

proof fn lemma_validated_profiles_default(
    config: ConfigView,
    default_profile: Option<Seq<char>>,
    profiles: Seq<(Seq<char>, ProfileConfigView)>,
    directories: Inspections,
)
    ensures
        validated_profiles(with_default_profile(config, default_profile), profiles, directories)
            == validated_profiles(config, profiles, directories),
    decreases profiles.len(),
{
    if profiles.len() > 0 {
        lemma_validated_profiles_default(
            config,
            default_profile,
            profiles.drop_last(),
            directories,
        );
        lemma_default_profile_plays_no_part(
            config,
            default_profile,
            profile_layout(profiles.last().0, profiles.last().1),
            directories,
        );
    }
}

/// Which profile is the default one makes no difference to what else is valid
/// and how many layouts and tabs there are.
pub proof fn law_validity_depends_on_the_default_profile_alone_by_its_name(
    config: ConfigView,
    a: Option<Seq<char>>,
    b: Option<Seq<char>>,
    directories: Inspections,
)
    requires
        validated(with_default_profile(config, a), directories) is Ok,
        b matches Some(name) ==> trimmed(name).len() > 0 && exists|k: int|
            0 <= k < config.profiles.len() && (#[trigger] config.profiles[k]).0 == name,
    ensures
        validated(with_default_profile(config, b), directories) == validated(
            with_default_profile(config, a),
            directories,
        ),
{
    let before = with_default_profile(config, a);
    let after = with_default_profile(config, b);
    lemma_default_profile_plays_no_part(config, a, root_layout(config), directories);
    lemma_default_profile_plays_no_part(config, b, root_layout(config), directories);
    assert(root_layout(before) == root_layout(config) && root_layout(after) == root_layout(config));
    lemma_validated_profiles_default(config, a, config.profiles, directories);
    lemma_validated_profiles_default(config, b, config.profiles, directories);
    if b is Some {
        let k = choose|k: int|
            0 <= k < config.profiles.len() && (#[trigger] config.profiles[k]).0 == b->0;
        assert(names_at(config.profiles, b->0, k));
    }
}

/// Setting a profile that exists always takes effect, and so does clearing the
/// default profile: where the configuration was valid with some default
/// profile or with none, the file is to be rewritten with the one that was
/// asked for, whatever it was before.
pub proof fn law_default_profile_is_set(
    path: Seq<char>,
    asked: Option<Seq<char>>,
    config: ConfigView,
    some_default: Option<Seq<char>>,
    directories: Inspections,
)
    requires
        validated(with_default_profile(config, some_default), directories) is Ok,
        asked matches Some(name) ==> trimmed(name).len() > 0 && exists|k: int|
            0 <= k < config.profiles.len() && (#[trigger] config.profiles[k]).0 == name,
    ensures
        file_update(path, asked, ConfigFileView::Parsed(config), directories) matches
            ProfileStepView::Rewrite(update) && update.path == path && update.default_profile
            == asked && update.previous_profile == config.default_profile && (update.changed
            <==> config.default_profile != asked),
{
    law_validity_depends_on_the_default_profile_alone_by_its_name(
        config,
        some_default,
        asked,
        directories,
    );
    if asked is Some {
        let k = choose|k: int|
            0 <= k < config.profiles.len() && (#[trigger] config.profiles[k]).0 == asked->0;
        assert(names_at(config.profiles, asked->0, k));
    }
}

/// A file is rewritten only with the profile that was asked for, and only where
/// that profile exists and the configuration is valid with it. A file that
/// holds a configuration is never passed over.
pub proof fn law_default_profile_is_refused(
    path: Seq<char>,
    asked: Option<Seq<char>>,
    file: ConfigFileView,
    directories: Inspections,
)
    ensures
        ({
            let step = file_update(path, asked, file, directories);
            &&& step matches ProfileStepView::Rewrite(update) ==> update.default_profile == asked
                && update.path == path
            &&& step is Rewrite ==> (file matches ConfigFileView::Parsed(config) && validated(
                with_default_profile(config, asked),
                directories,
            ) is Ok)
            &&& step is Rewrite ==> (asked matches Some(name) ==> trimmed(name).len() > 0 && exists|
                k: int,
            |
                0 <= k < file->Parsed_0.profiles.len() && (
                #[trigger] file->Parsed_0.profiles[k]).0 == name)
            &&& step is Unchanged <==> file is Missing && asked is None
            &&& step matches ProfileStepView::Unchanged(update) ==> update.path == path
                && update.previous_profile is None && update.default_profile is None
                && !update.changed
            &&& file is Unreadable || file is Malformed ==> step is Refused
            &&& file is Missing && asked is Some ==> step is Refused
        }),
{
    if file_update(path, asked, file, directories) is Rewrite && asked is Some {
        let profiles = file->Parsed_0.profiles;
        assert(has_name(profiles, asked->0));
        let k = choose|k: int| names_at(profiles, asked->0, k);
        assert(profiles[k].0 == asked->0);
    }
}

/// A profile's name is taken without the white space around it, and a blank one
/// is none.
pub proof fn law_profile_names_are_trimmed(profile: Seq<char>)
    ensures
        trimmed(profile).len() > 0 ==> profile_name(profile) == Ok::<Seq<char>, Seq<Seq<char>>>(
            trimmed(profile),
        ),
        trimmed(profile).len() == 0 ==> profile_name(profile) is Err,
{
}

/// What is written in the end is a valid configuration, and every valid one may
/// be written.
pub proof fn law_only_valid_configurations_are_written(
    path: Seq<char>,
    rewritten: Result<ConfigView, Seq<char>>,
    directories: Inspections,
)
    ensures
        rewritten_problem(path, rewritten, directories) is None <==> (rewritten matches Ok(config)
            && validated(config, directories) is Ok),
{
}

/// A report fails exactly when some one of its checks does: one of a directory,
/// one of a configuration file, that of the startup configuration or that of
/// the keymap.
pub proof fn law_report_fails_when_a_check_does(report: DoctorReportView, i: int)
    ensures
        0 <= i < report.directories.len() && report.directories[i].status
            == TerminalDoctorCheckStatus::Error ==> report_failed(report),
        0 <= i < report.config_files.len() && report.config_files[i].status
            == TerminalDoctorCheckStatus::Error ==> report_failed(report),
        report.startup_config.status == TerminalDoctorCheckStatus::Error ==> report_failed(report),
        report.keymap.status == TerminalDoctorCheckStatus::Error ==> report_failed(report),
        report_failed(report) ==> {
            ||| exists|k: int|
                0 <= k < report.directories.len() && (#[trigger] report.directories[k]).status
                    == TerminalDoctorCheckStatus::Error
            ||| exists|k: int|
                0 <= k < report.config_files.len() && (#[trigger] report.config_files[k]).status
                    == TerminalDoctorCheckStatus::Error
            ||| report.startup_config.status == TerminalDoctorCheckStatus::Error
            ||| report.keymap.status == TerminalDoctorCheckStatus::Error
        },
{
}

/// A path passes exactly when what was expected is there, is missing exactly
/// when nothing is there, and else fails; a failure and nothing else has a
/// message.
pub proof fn law_paths_are_judged_by_what_is_there(
    label: Seq<char>,
    path: Seq<char>,
    kind: TerminalDoctorPathKind,
    found: PathInspection,
)
    ensures
        ({
            let check = path_check(label, path, kind, found);
            &&& check.label == label && check.path == path
            &&& check.status == TerminalDoctorCheckStatus::Passed <==> (found is File && kind
                == TerminalDoctorPathKind::File || found is Directory && kind
                == TerminalDoctorPathKind::Directory)
            &&& check.status == TerminalDoctorCheckStatus::Missing <==> found is Missing
            &&& check.message is Some <==> check.status == TerminalDoctorCheckStatus::Error
        }),
{
}

/// The startup configuration passes exactly when the file holds a valid one,
/// and the check then says how many layouts and tabs it has. A file that is
/// missing is missing, and stands for an empty configuration. All else fails.
pub proof fn law_startup_config_is_judged_by_its_validity(
    path: Seq<char>,
    found: PathInspection,
    file: ConfigFileView,
    directories: Inspections,
)
    ensures
        ({
            let check = config_check(path, found, file, directories);
            &&& check.path == path
            &&& check.status == TerminalDoctorCheckStatus::Passed <==> found is File && (
            loaded_config(path, file) matches Ok(config) && validated(config, directories) is Ok)
            &&& check.status == TerminalDoctorCheckStatus::Missing <==> found is Missing
            &&& check.status == TerminalDoctorCheckStatus::Passed ==> check.validation == Some(
                validated(loaded_config(path, file)->Ok_0, directories)->Ok_0,
            ) && check.source == Some(TerminalDoctorConfigSource::File)
            &&& check.status == TerminalDoctorCheckStatus::Missing ==> check.validation == Some(
                validated(empty_config(), directories)->Ok_0,
            ) && check.source == Some(TerminalDoctorConfigSource::Initial)
            &&& check.status == TerminalDoctorCheckStatus::Error ==> check.validation is None
            &&& check.message is Some <==> check.status == TerminalDoctorCheckStatus::Error
        }),
{
    crate::doctor::law_empty_config_is_valid(directories);
}

/// A file that holds a configuration gives that configuration, one that is
/// missing the empty one, and one that cannot be read or parsed gives none.
pub proof fn law_configuration_is_what_the_file_holds(path: Seq<char>, file: ConfigFileView)
    ensures
        file matches ConfigFileView::Parsed(config) ==> loaded_config(path, file) == Ok::<
            ConfigView,
            Seq<Seq<char>>,
        >(config),
        file is Missing ==> loaded_config(path, file) == Ok::<ConfigView, Seq<Seq<char>>>(
            empty_config(),
        ),
        file is Unreadable || file is Malformed ==> loaded_config(path, file) is Err,
{
}

/// The keymap check fails exactly when there is no file to read or the keymaps
/// are not valid, and is missing only where the user has no keymap.
pub proof fn law_keymap_is_judged_by_its_validity(
    path: Seq<char>,
    found: PathInspection,
    validation: Result<TerminalKeymapValidation, Seq<Seq<char>>>,
)
    ensures
        ({
            let check = keymap_check(path, found, validation);
            &&& check.path == path
            &&& check.status == TerminalDoctorCheckStatus::Error <==> validation is Err || !(
            found is File || found is Missing)
            &&& check.status != TerminalDoctorCheckStatus::Error ==> check.validation == Some(
                validation->Ok_0,
            )
            &&& check.status == TerminalDoctorCheckStatus::Missing
                ==> validation->Ok_0.user_keymap_source == TerminalUserKeymapSource::Initial
            &&& check.status == TerminalDoctorCheckStatus::Passed
                ==> validation->Ok_0.user_keymap_source == TerminalUserKeymapSource::File
            &&& found is File ==> check.source == Some(TerminalUserKeymapSource::File)
            &&& found is Missing ==> check.source == Some(TerminalUserKeymapSource::Initial)
            &&& check.message is Some <==> check.status == TerminalDoctorCheckStatus::Error
        }),
{
}

/// The keymaps are valid exactly when all bindings of both are loaded, and the
/// validation then says how many each has and where the user's comes from.
pub proof fn law_keymaps_are_valid_when_all_bindings_load(
    default_bindings: Result<usize, Seq<Seq<char>>>,
    source: Result<TerminalUserKeymapSource, Seq<Seq<char>>>,
    user_load: KeymapLoad,
)
    ensures
        ({
            let validation = validated_keymaps(default_bindings, source, user_load);
            &&& validation is Ok <==> default_bindings is Ok && source is Ok && user_load is Loaded
            &&& validation matches Ok(v) ==> v.default_binding_count == default_bindings->Ok_0
                && v.user_keymap_source == source->Ok_0 && user_load
                == (KeymapLoad::Loaded { bindings: v.user_binding_count })
        }),
{
}

/// A keymap counts only where every binding of it was loaded.
pub proof fn law_bindings_load_whole(label: Seq<char>, load: KeymapLoad)
    ensures
        load matches KeymapLoad::Loaded { bindings } ==> loaded_bindings(label, load) == Ok::<
            usize,
            Seq<Seq<char>>,
        >(bindings),
        !(load is Loaded) ==> loaded_bindings(label, load) is Err,
{
}

/// The user's keymap is what the file holds or, where there is none, what it
/// would hold at first.
pub proof fn law_user_keymap_is_the_file(path: Seq<char>, read: KeymapRead, initial: Seq<char>)
    ensures
        ({
            let keymap = user_keymap(path, read, initial);
            &&& read matches KeymapRead::Content(content) ==> (keymap matches Ok(k) && k.0
                == content@ && k.1 == TerminalUserKeymapSource::File)
            &&& read is Missing ==> (keymap matches Ok(k) && k.0 == initial && k.1
                == TerminalUserKeymapSource::Initial)
            &&& read is Failed ==> keymap is Err
        }),
{
}

/// Each directory is diagnosed by what was found at its own path: the data and
/// the configuration directory, the one for logs below the first and the one
/// for themes below the second.
pub proof fn law_each_directory_is_diagnosed(
    path_options: PathOptionsView,
    found: FoundDirectories,
)
    ensures
        ({
            let checks = directory_checks(path_options, found);
            let platform = path_options.platform;
            &&& checks.len() == 4
            &&& checks[0].path == path_options.data_dir && is_judged(checks[0], found.data_dir)
            &&& checks[1].path == path_options.config_dir && is_judged(checks[1], found.config_dir)
            &&& checks[2].path == joined_path(platform, path_options.data_dir, "logs"@)
                && is_judged(checks[2], found.logs_dir)
            &&& checks[3].path == joined_path(platform, path_options.config_dir, "themes"@)
                && is_judged(checks[3], found.themes_dir)
            &&& checks[0].label == "data_dir"@ && checks[1].label == "config_dir"@
                && checks[2].label == "logs_dir"@ && checks[3].label == "themes_dir"@
        }),
{
}

/// Whether the check of a directory says what was found.
pub open spec fn is_judged(check: PathCheckView, found: PathInspection) -> bool {
    &&& check.status == TerminalDoctorCheckStatus::Passed <==> found is Directory
    &&& check.status == TerminalDoctorCheckStatus::Missing <==> found is Missing
}

/// Each configuration file is diagnosed by what was found at its own path.
pub proof fn law_each_config_file_is_diagnosed(
    settings_file: Seq<char>,
    global_settings_file: Seq<char>,
    keymap_file: Seq<char>,
    startup_config_file: Seq<char>,
    startup_config_schema_file: Seq<char>,
    found: FoundConfigFiles,
)
    ensures
        ({
            let checks = config_file_checks(
                settings_file,
                global_settings_file,
                keymap_file,
                startup_config_file,
                startup_config_schema_file,
                found,
            );
            &&& checks.len() == 5
            &&& checks[0].path == settings_file && is_file_judged(checks[0], found.settings_file)
            &&& checks[1].path == global_settings_file && is_file_judged(
                checks[1],
                found.global_settings_file,
            )
            &&& checks[2].path == keymap_file && is_file_judged(checks[2], found.keymap_file)
            &&& checks[3].path == startup_config_file && is_file_judged(
                checks[3],
                found.startup_config_file,
            )
            &&& checks[4].path == startup_config_schema_file && is_file_judged(
                checks[4],
                found.startup_config_schema_file,
            )
        }),
{
}

/// Whether the check of a file says what was found.
pub open spec fn is_file_judged(check: PathCheckView, found: PathInspection) -> bool {
    &&& check.status == TerminalDoctorCheckStatus::Passed <==> found is File
    &&& check.status == TerminalDoctorCheckStatus::Missing <==> found is Missing
}

/// Each configuration file is put at its own path with its own content.
pub proof fn law_each_config_file_gets_its_content(
    settings_file: Seq<char>,
    global_settings_file: Seq<char>,
    keymap_file: Seq<char>,
    startup_config_file: Seq<char>,
    startup_config_schema_file: Seq<char>,
    contents: InitialContents,
)
    ensures
        ({
            let files = planned_files(
                settings_file,
                global_settings_file,
                keymap_file,
                startup_config_file,
                startup_config_schema_file,
                contents,
            );
            &&& files.len() == 5
            &&& files[0].path == settings_file && files[0].content == contents.settings@
            &&& files[1].path == global_settings_file
            &&& files[2].path == keymap_file && files[2].content == contents.keymap@
            &&& files[3].path == startup_config_file && files[3].content == INITIAL_STARTUP_CONFIG@
            &&& files[4].path == startup_config_schema_file && files[4].content
                == contents.startup_config_schema@
        }),
{
}

/// A file that is missing is created and written, step by step; a file that is
/// found is left; and putting a file in place fails exactly where something
/// else is at its path or a step could not be done. What is reported is for the
/// file's own label and path.
pub proof fn law_files_are_put_in_place_step_by_step(
    label: Seq<char>,
    path: Seq<char>,
    event: InitializationEvent,
)
    ensures
        ({
            let step = next_step(label, path, event);
            &&& event matches InitializationEvent::Inspected(found) ==> {
                &&& found is Missing <==> step is CreateParent
                &&& found is File <==> step is Done
                &&& !(found is Missing) && !(found is File) ==> step is Failed
            }
            &&& event is ParentReady ==> step is CreateFile
            &&& event is FileCreated ==> step is WriteContent
            &&& event is FileExists ==> step is Reinspect
            &&& event matches InitializationEvent::Reinspected(found) ==> {
                &&& found is File <==> step is Done
                &&& !(found is File) ==> step is Failed
            }
            &&& event is Written ==> step is Done
            &&& event is ParentFailed || event is CreateFailed || event is WriteFailed
                ==> step is Failed
            &&& step matches StepView::Done(file) ==> file.label == label && file.path == path && (
            file.status == TerminalConfigFileInitializationStatus::Created <==> event is Written)
        }),
{
}

/// Setting a default profile by its name, with or without white space around
/// it, takes effect wherever a profile has that name and the configuration was
/// valid with some default profile or with none; a blank name is refused.
pub proof fn law_profile_is_set_by_its_name(
    path: Seq<char>,
    profile: Seq<char>,
    config: ConfigView,
    some_default: Option<Seq<char>>,
    directories: Inspections,
)
    requires
        validated(with_default_profile(config, some_default), directories) is Ok,
    ensures
        ({
            let step = profile_set(path, profile, ConfigFileView::Parsed(config), directories);
            &&& trimmed(profile).len() == 0 ==> step is Refused
            &&& trimmed(profile).len() > 0 && (exists|k: int|
                0 <= k < config.profiles.len() && (#[trigger] config.profiles[k]).0 == trimmed(
                    profile,
                )) ==> (step matches ProfileStepView::Rewrite(update) && update.default_profile
                == Some(trimmed(profile)) && update.previous_profile == config.default_profile
                && update.path == path)
            &&& trimmed(profile).len() > 0 && (forall|k: int|
                0 <= k < config.profiles.len() ==> (#[trigger] config.profiles[k]).0 != trimmed(
                    profile,
                )) ==> step is Refused
        }),
{
    let name = trimmed(profile);
    crate::laws::law_trimming_is_final(profile);
    if name.len() > 0 {
        if exists|k: int|
            0 <= k < config.profiles.len() && (#[trigger] config.profiles[k]).0 == name {
            law_default_profile_is_set(path, Some(name), config, some_default, directories);
        } else if has_name(config.profiles, name) {
            let k = choose|k: int| names_at(config.profiles, name, k);
            assert(config.profiles[k].0 == name);
        }
    }
}

/// The menu and the palette offer the profiles of the file that is there, and
/// none where there is no file or it cannot be used.
pub proof fn law_offers_come_from_the_file(path: Seq<char>, file: ConfigFileView)
    ensures
        file matches ConfigFileView::Parsed(config) ==> menu_entries_of_file(path, file)
            == menu_entries(config) && offered_profiles(path, file) == summaries_of(
            config,
            config.profiles,
            false,
        ),
        !(file is Parsed) ==> menu_entries_of_file(path, file).len() == 0 && offered_profiles(
            path,
            file,
        ).len() == 0,
{
    reveal(Seq::filter);
    let none = empty_config();
    assert(summaries_of(none, none.profiles, false).len() == 0);
}

/// A profile that is opened while the application runs opens as the file has it.
pub proof fn law_profiles_open_from_the_file(
    profile: Seq<char>,
    split: Option<TerminalStartupSplitDirection>,
    path: Seq<char>,
    file: ConfigFileView,
    directories: Inspections,
)
    ensures
        ({
            let opened = profile_tab_of_file(profile, split, path, file, directories);
            &&& file matches ConfigFileView::Parsed(config) ==> match profile_tab(
                config,
                profile,
                split,
                directories,
            ) {
                Ok(tab) => opened == Ok::<LaunchTabView, Seq<Seq<char>>>(tab),
                Err(why) => opened matches Err(messages) && messages.skip(1) == why,
            }
            &&& !(file is Parsed) ==> opened is Err
        }),
{
    if let ConfigFileView::Parsed(config) = file {
        if profile_tab(config, profile, split, directories) is Err {
            let why = profile_tab(config, profile, split, directories)->Err_0;
            assert((seq!["failed to resolve startup profile "@ + quoted(profile)] + why).skip(1)
                =~= why);
        }
    }
}

} // verus!
