//! What holds of texts, of paths and of the reports that are made of them.

use crate::command::{command_label, command_part, with_escaped_quotes, ShellView};
use crate::config::{
    direction_name, ConfigView, ProfileConfigView, TerminalStartupSplitDirection,
};
use crate::config_files::{
    initialized_line, InitializedFileView, TerminalConfigFileInitializationStatus,
};
use crate::default_profile::{update_report, UpdateView};
use crate::directory::tilde_expanded;
use crate::doctor::{
    config_check_lines, keymap_check_lines, path_check_lines, path_checks_lines, report_text,
    ConfigCheckView, DoctorReportView, PathCheckView, TerminalDoctorCheckStatus,
};
use crate::keymap::{keymap_report, TerminalKeymapValidation, TerminalUserKeymapSource};
use crate::launch::LaunchOptionsView;
use crate::launch_tab::LaunchTabView;
use crate::path_parts::{joined_path, naming_pieces, path_parts, path_pieces, same_path};
use crate::paths::{
    asked_directories, default_config_dir, default_data_dir, Platform, SystemDirectoriesView,
};
use crate::profiles::{summaries_of, SummaryView};
use crate::report::{
    hidden_count, layout_report, numbered_tab_lines, optional_shell_text, profile_lines,
    profiles_report, shell_text, tab_lines, validation_report,
};
use crate::text::{
    concatenated, decimal, joined, trimmed, trimmed_back, trimmed_front, white_space,
};
use crate::validation::TerminalStartupConfigValidation;
use vstd::prelude::*;

verus! {

proof fn lemma_front_is_white(s: Seq<char>)
    ensures
        exists|a: int|
            0 <= a <= s.len() && trimmed_front(s) == #[trigger] s.skip(a) && forall|i: int|
                0 <= i < a ==> white_space(s[i]),
    decreases s.len(),
{
    if s.len() > 0 && white_space(s[0]) {
        let rest = s.drop_first();
        lemma_front_is_white(rest);
        let a = choose|a: int|
            0 <= a <= rest.len() && trimmed_front(rest) == #[trigger] rest.skip(a) && forall|i: int|
                0 <= i < a ==> white_space(rest[i]);
        assert(rest.skip(a) =~= s.skip(a + 1));
        assert forall|i: int| 0 <= i < a + 1 implies white_space(s[i]) by {
            if i > 0 {
                assert(s[i] == rest[i - 1]);
            }
        }
    } else {
        assert(s.skip(0) =~= s);
    }
}

proof fn lemma_back_is_white(s: Seq<char>)
    ensures
        exists|b: int|
            0 <= b <= s.len() && trimmed_back(s) == #[trigger] s.take(b) && forall|i: int|
                b <= i < s.len() ==> white_space(s[i]),
    decreases s.len(),
{
    if s.len() > 0 && white_space(s.last()) {
        let rest = s.drop_last();
        lemma_back_is_white(rest);
        let b = choose|b: int|
            0 <= b <= rest.len() && trimmed_back(rest) == #[trigger] rest.take(b) && forall|i: int|
                b <= i < rest.len() ==> white_space(rest[i]);
        assert(rest.take(b) =~= s.take(b));
        assert forall|i: int| b <= i < s.len() implies white_space(s[i]) by {
            if i < rest.len() {
                assert(s[i] == rest[i]);
            }
        }
    } else {
        assert(s.take(s.len() as int) =~= s);
    }
}

/// Trimming a text takes nothing from it but white space at its two ends.
pub proof fn law_trimming_removes_white_space_alone(s: Seq<char>)
    ensures
        exists|a: int, b: int|
            0 <= a <= b <= s.len() && trimmed(s) == #[trigger] s.subrange(a, b) && (forall|i: int|
                0 <= i < a ==> white_space(s[i])) && (forall|i: int|
                b <= i < s.len() ==> white_space(s[i])),
{
    lemma_front_is_white(s);
    let a = choose|a: int|
        0 <= a <= s.len() && trimmed_front(s) == #[trigger] s.skip(a) && forall|i: int|
            0 <= i < a ==> white_space(s[i]);
    let front = s.skip(a);
    lemma_back_is_white(front);
    let b = choose|b: int|
        0 <= b <= front.len() && trimmed_back(front) == #[trigger] front.take(b) && forall|i: int|
            b <= i < front.len() ==> white_space(front[i]);
    assert(front.take(b) =~= s.subrange(a, a + b));
    assert forall|i: int| a + b <= i < s.len() implies white_space(s[i]) by {
        assert(s[i] == front[i - a]);
    }
}

/// Of the characters of ASCII the space and those from the tab to the carriage
/// return are white space.
pub proof fn law_white_space_of_ascii(c: char)
    requires
        (c as u32) < 128,
    ensures
        white_space(c) <==> c == ' ' || 9 <= (c as u32) <= 13,
{
}

/// The number that decimal digits spell.
pub open spec fn spelled(digits: Seq<char>) -> int
    decreases digits.len(),
{
    if digits.len() == 0 {
        0
    } else {
        10 * spelled(digits.drop_last()) + (digits.last() as int - '0' as int)
    }
}

/// The decimal digits of a number spell it, and begin with no zero but for the
/// number zero.
pub proof fn law_decimal_digits_spell_the_number(n: nat)
    ensures
        spelled(decimal(n)) == n,
        decimal(n).len() > 0,
        n > 0 ==> decimal(n)[0] != '0',
        forall|i: int| 0 <= i < decimal(n).len() ==> '0' <= (#[trigger] decimal(n)[i]) <= '9',
    decreases n,
{
    if n < 10 {
        assert(decimal(n).drop_last() =~= Seq::empty());
        assert(spelled(decimal(n).drop_last()) == 0);
    } else {
        law_decimal_digits_spell_the_number(n / 10);
        assert(decimal(n).drop_last() =~= decimal(n / 10));
    }
}

/// Texts that are joined stand in their order, with the separator between any
/// two of them.
pub proof fn law_joined_texts_keep_their_order(
    first: Seq<char>,
    rest: Seq<Seq<char>>,
    separator: Seq<char>,
)
    ensures
        rest.len() == 0 ==> joined(seq![first] + rest, separator) == first,
        rest.len() > 0 ==> joined(seq![first] + rest, separator) == first + separator + joined(
            rest,
            separator,
        ),
    decreases rest.len(),
{
    let all = seq![first] + rest;
    if rest.len() == 1 {
        assert(all.drop_last() =~= seq![first]);
        assert(joined(all.drop_last(), separator) == first);
        assert(all.last() == rest[0]);
    } else if rest.len() > 1 {
        law_joined_texts_keep_their_order(first, rest.drop_last(), separator);
        assert(all.drop_last() =~= seq![first] + rest.drop_last());
        assert(joined(all, separator) =~= first + separator + joined(rest, separator));
    }
}

/// Whether a text holds another.
pub open spec fn holds(text: Seq<char>, part: Seq<char>) -> bool {
    exists|before: Seq<char>, after: Seq<char>| text == #[trigger] (before + part + after)
}

proof fn lemma_holds(before: Seq<char>, part: Seq<char>, after: Seq<char>)
    ensures
        holds(before + part + after, part),
{
}

proof fn lemma_holds_within(text: Seq<char>, middle: Seq<char>, part: Seq<char>)
    requires
        holds(text, middle),
        holds(middle, part),
    ensures
        holds(text, part),
{
    let (a, b) = choose|a: Seq<char>, b: Seq<char>| text == #[trigger] (a + middle + b);
    let (c, d) = choose|c: Seq<char>, d: Seq<char>| middle == #[trigger] (c + part + d);
    assert(text =~= (a + c) + part + (d + b));
}

proof fn lemma_concatenated_holds(parts: Seq<Seq<char>>, i: int)
    requires
        0 <= i < parts.len(),
    ensures
        holds(concatenated(parts), parts[i]),
    decreases parts.len(),
{
    let front = concatenated(parts.drop_last());
    if i == parts.len() - 1 {
        assert(concatenated(parts) =~= front + parts[i] + Seq::empty());
        lemma_holds(front, parts[i], Seq::empty());
    } else {
        lemma_concatenated_holds(parts.drop_last(), i);
        assert(concatenated(parts) =~= Seq::empty() + front + parts.last());
        lemma_holds(Seq::empty(), front, parts.last());
        lemma_holds_within(concatenated(parts), front, parts[i]);
    }
}

/// The lines of a tab say whether it runs a command or a shell, which one, where
/// it starts and what its title is.
pub proof fn law_tab_lines_say_what_opens(prefix: Seq<char>, tab: LaunchTabView)
    ensures
        ({
            let lines = tab_lines(prefix, tab);
            &&& tab.command matches Some(command) ==> holds(
                lines,
                prefix + "kind: "@ + "command"@ + "\n"@,
            ) && holds(
                lines,
                prefix + "command: "@ + command_label(command.program, command.args) + "\n"@,
            )
            &&& tab.command is None ==> holds(lines, prefix + "kind: "@ + "shell"@ + "\n"@)
            &&& tab.working_directory matches Some(directory) ==> holds(
                lines,
                prefix + "working_directory: "@ + directory + "\n"@,
            )
            &&& tab.title matches Some(title) ==> holds(lines, prefix + "title: "@ + title + "\n"@)
            &&& tab.split matches Some(direction) ==> holds(
                lines,
                prefix + "placement: "@ + ("split "@ + direction_name(direction)) + "\n"@,
            )
            &&& holds(lines, prefix + "env: "@ + (decimal(tab.env.len()) + " variables"@) + "\n"@)
        }),
{
    let kind = prefix + "kind: "@ + (if tab.command is Some {
        "command"@
    } else {
        "shell"@
    }) + "\n"@;
    let placement = prefix + "placement: "@ + crate::report::placement(tab) + "\n"@;
    let title = prefix + "title: "@ + crate::report::text_or(tab.title, "dynamic"@) + "\n"@;
    let directory = prefix + "working_directory: "@ + crate::report::text_or(
        tab.working_directory,
        "default"@,
    ) + "\n"@;
    let runs = match tab.command {
        Some(command) => prefix + "command: "@ + command_label(command.program, command.args)
            + "\n"@,
        None => prefix + "shell: "@ + crate::report::optional_shell_text(tab.shell) + "\n"@,
    };
    let env = prefix + "env: "@ + (decimal(tab.env.len()) + " variables"@) + "\n"@;
    lemma_holds_each(kind, placement, title, directory, runs, env);
}

/// The report of a window shows its first tab and every further one, numbered
/// in their order from one, and what new tabs start from.
pub proof fn law_layout_report_shows_every_tab(
    options: LaunchOptionsView,
    path: Seq<char>,
    i: int,
)
    requires
        0 <= i < options.additional_tabs.len(),
    ensures
        ({
            let report = layout_report(options, path);
            &&& holds(
                report,
                "- tab "@ + decimal(1) + "\n"@ + tab_lines("  "@, options.initial_tab),
            )
            &&& holds(
                report,
                "- tab "@ + decimal((i + 2) as nat) + "\n"@ + tab_lines(
                    "  "@,
                    options.additional_tabs[i],
                ),
            )
            &&& holds(report, "new_terminal_tab:\n"@ + tab_lines("  "@, options.new_terminal_tab))
            &&& holds(report, "tabs: "@ + decimal(1 + options.additional_tabs.len()) + "\n"@)
        }),
{
    let report = layout_report(options, path);
    let tabs = seq![options.initial_tab] + options.additional_tabs;
    let parts = Seq::new(tabs.len(), |k: int| numbered_tab_lines((k + 1) as nat, tabs[k]));
    let file = "startup_config_file: "@ + path + "\n"@ + "status: ok\n"@;
    let count = "tabs: "@ + decimal(1 + options.additional_tabs.len()) + "\n"@;
    let new_tab = "new_terminal_tab:\n"@ + tab_lines("  "@, options.new_terminal_tab);
    let all = concatenated(parts);
    assert(report =~= file + count + (new_tab + all));
    assert(report =~= (file + count) + new_tab + all);
    assert(report =~= (file + count + new_tab) + all + Seq::empty());
    lemma_holds(file, count, new_tab + all);
    lemma_holds(file + count, new_tab, all);
    lemma_holds(file + count + new_tab, all, Seq::empty());
    assert(tabs[0] == options.initial_tab);
    assert(tabs[i + 1] == options.additional_tabs[i]);
    lemma_concatenated_holds(parts, 0);
    lemma_concatenated_holds(parts, i + 1);
    assert(parts[0] == "- tab "@ + decimal(1) + "\n"@ + tab_lines("  "@, options.initial_tab));
    assert(parts[i + 1] == "- tab "@ + decimal((i + 2) as nat) + "\n"@ + tab_lines(
        "  "@,
        options.additional_tabs[i],
    ));
    lemma_holds_within(report, all, parts[0]);
    lemma_holds_within(report, all, parts[i + 1]);
}

/// How many profiles are hidden.
pub proof fn law_hidden_profiles_are_counted(
    profiles: Seq<(Seq<char>, ProfileConfigView)>,
    profile: (Seq<char>, ProfileConfigView),
)
    ensures
        profile.1.hidden ==> hidden_count(profiles.push(profile)) == hidden_count(profiles) + 1,
        !profile.1.hidden ==> hidden_count(profiles.push(profile)) == hidden_count(profiles),
        profiles.len() == 0 ==> hidden_count(profiles) == 0,
        hidden_count(profiles) <= profiles.len(),
    decreases profiles.len(),
{
    assert(profiles.push(profile).drop_last() =~= profiles);
    if profiles.len() > 0 {
        law_hidden_profiles_are_counted(profiles.drop_last(), profiles.last());
        assert(profiles.drop_last().push(profiles.last()) =~= profiles);
    }
}

/// The list of profiles shows every profile that is listed, and says how many
/// are visible and how many are hidden.
pub proof fn law_profile_list_shows_every_profile(
    config: ConfigView,
    path: Seq<char>,
    include_hidden: bool,
    i: int,
)
    requires
        0 <= i < summaries_of(config, config.profiles, include_hidden).len(),
    ensures
        ({
            let report = profiles_report(config, path, include_hidden);
            let hidden = hidden_count(config.profiles);
            &&& holds(
                report,
                profile_lines(summaries_of(config, config.profiles, include_hidden)[i]),
            )
            &&& holds(
                report,
                "profiles: "@ + (decimal((config.profiles.len() - hidden) as nat) + " visible, "@
                    + decimal(hidden) + " hidden"@) + "\n"@,
            )
        }),
{
    let summaries = summaries_of(config, config.profiles, include_hidden);
    let parts = summaries.map_values(|profile: SummaryView| profile_lines(profile));
    let report = profiles_report(config, path, include_hidden);
    let hidden = hidden_count(config.profiles);
    let head = "startup_config_file: "@ + path + "\n"@;
    let counts = "profiles: "@ + (decimal((config.profiles.len() - hidden) as nat) + " visible, "@
        + decimal(hidden) + " hidden"@) + "\n"@;
    let all = concatenated(parts);
    assert(report =~= head + counts + all);
    assert(report =~= (head + counts) + all + Seq::empty());
    lemma_holds(head, counts, all);
    lemma_holds(head + counts, all, Seq::empty());
    lemma_concatenated_holds(parts, i);
    lemma_holds_within(report, all, parts[i]);
}

/// The report of the diagnostics begins with an error exactly when some check
/// has failed, and else with success.
pub proof fn law_doctor_report_begins_with_its_status(report: DoctorReportView)
    ensures
        ({
            let failed = {
                ||| exists|k: int|
                    0 <= k < report.directories.len() && (#[trigger] report.directories[k]).status
                        == TerminalDoctorCheckStatus::Error
                ||| exists|k: int|
                    0 <= k < report.config_files.len() && (#[trigger] report.config_files[k]).status
                        == TerminalDoctorCheckStatus::Error
                ||| report.startup_config.status == TerminalDoctorCheckStatus::Error
                ||| report.keymap.status == TerminalDoctorCheckStatus::Error
            };
            let status = if failed {
                "error"@
            } else {
                "ok"@
            };
            let first = "status: "@ + status + "\n"@;
            report_text(report).len() >= first.len() && report_text(report).take(first.len() as int)
                == first
        }),
{
    let failed = crate::doctor::report_failed(report);
    let status = if failed {
        "error"@
    } else {
        "ok"@
    };
    let first = "status: "@ + status + "\n"@;
    let rest = "directories:\n"@ + path_checks_lines(report.directories) + "config_files:\n"@
        + path_checks_lines(report.config_files) + "startup_config:\n"@ + config_check_lines(
        report.startup_config,
    ) + "keymap:\n"@ + keymap_check_lines(report.keymap);
    assert(report_text(report) =~= first + rest);
    assert(report_text(report).take(first.len() as int) =~= first);
}

/// The report of the diagnostics shows every check.
pub proof fn law_doctor_report_shows_every_check(report: DoctorReportView, i: int)
    ensures
        0 <= i < report.directories.len() ==> holds(
            report_text(report),
            path_check_lines(report.directories[i]),
        ),
        0 <= i < report.config_files.len() ==> holds(
            report_text(report),
            path_check_lines(report.config_files[i]),
        ),
        holds(report_text(report), config_check_lines(report.startup_config)),
        holds(report_text(report), keymap_check_lines(report.keymap)),
{
    let status = if crate::doctor::report_failed(report) {
        "error"@
    } else {
        "ok"@
    };
    let head = "status: "@ + status + "\n"@ + "directories:\n"@;
    let directories = path_checks_lines(report.directories);
    let files = path_checks_lines(report.config_files);
    let config = config_check_lines(report.startup_config);
    let keymap = keymap_check_lines(report.keymap);
    let text = report_text(report);
    let after_files = "startup_config:\n"@ + config + "keymap:\n"@ + keymap;
    assert(text =~= head + directories + ("config_files:\n"@ + files + after_files));
    assert(text =~= (head + directories + "config_files:\n"@) + files + after_files);
    assert(text =~= (head + directories + "config_files:\n"@ + files + "startup_config:\n"@)
        + config + ("keymap:\n"@ + keymap));
    assert(text =~= (head + directories + "config_files:\n"@ + files + "startup_config:\n"@ + config
        + "keymap:\n"@) + keymap + Seq::empty());
    lemma_holds(head, directories, "config_files:\n"@ + files + after_files);
    lemma_holds(head + directories + "config_files:\n"@, files, after_files);
    lemma_holds(
        head + directories + "config_files:\n"@ + files + "startup_config:\n"@,
        config,
        "keymap:\n"@ + keymap,
    );
    lemma_holds(
        head + directories + "config_files:\n"@ + files + "startup_config:\n"@ + config
            + "keymap:\n"@,
        keymap,
        Seq::empty(),
    );
    if 0 <= i < report.directories.len() {
        let parts = report.directories.map_values(|check: PathCheckView| path_check_lines(check));
        lemma_concatenated_holds(parts, i);
        lemma_holds_within(text, directories, parts[i]);
    }
    if 0 <= i < report.config_files.len() {
        let parts = report.config_files.map_values(|check: PathCheckView| path_check_lines(check));
        lemma_concatenated_holds(parts, i);
        lemma_holds_within(text, files, parts[i]);
    }
}

/// A word of a command is shown as it is, but in quotes where it is empty or
/// holds white space.
pub proof fn law_words_are_quoted_where_they_must_be(part: Seq<char>)
    ensures
        part.len() > 0 && (forall|i: int| 0 <= i < part.len() ==> !white_space(#[trigger] part[i]))
            ==> command_part(part) == part,
        part.len() == 0 || (exists|i: int|
            0 <= i < part.len() && white_space(#[trigger] part[i])) ==> command_part(part).len()
            >= part.len() + 2 && command_part(part)[0] == '"' && command_part(part).last() == '"',
{
    lemma_escaping_keeps_length(part);
}

proof fn lemma_escaping_keeps_length(part: Seq<char>)
    ensures
        crate::command::with_escaped_quotes(part).len() >= part.len(),
    decreases part.len(),
{
    if part.len() > 0 {
        lemma_escaping_keeps_length(part.drop_last());
    }
}

/// A `~` that stands alone or before a separator is the home directory; every
/// other path stays as it is, and so does every path where no home is known.
pub proof fn law_tilde_is_the_home_directory(
    path: Seq<char>,
    home: Seq<char>,
    platform: Platform,
)
    ensures
        tilde_expanded(seq!['~'], Some(home), platform) == home,
        tilde_expanded(seq!['~', '/'] + path, Some(home), platform) == home + seq!['/'] + path,
        path.len() == 0 || path[0] != '~' ==> tilde_expanded(path, Some(home), platform) == path,
        path.len() > 1 && path[0] == '~' && path[1] != '/' && path[1] != '\\' ==> tilde_expanded(
            path,
            Some(home),
            platform,
        ) == path,
        platform is Windows ==> tilde_expanded(seq!['~', '\\'] + path, Some(home), platform) == home
            + seq!['\\'] + path,
        !(platform is Windows) ==> tilde_expanded(
            seq!['~', '\\'] + path,
            Some(home),
            platform,
        ) == seq!['~', '\\'] + path,
        tilde_expanded(path, None, platform) == path,
{
    assert(seq!['~'].skip(1) =~= Seq::empty());
    assert(home + Seq::empty() =~= home);
    assert(home + (seq!['~', '/'] + path).skip(1) =~= home + seq!['/'] + path);
    assert(home + (seq!['~', '\\'] + path).skip(1) =~= home + seq!['\\'] + path);
}

/// Files are kept where the command line says. A data directory that it names
/// holds the configuration too, unless it names a directory for that as well;
/// without either the directories of the system are used.
pub proof fn law_directories_are_those_that_were_asked_for(
    data_dir: Option<Seq<char>>,
    config_dir: Option<Seq<char>>,
    system: SystemDirectoriesView,
)
    requires
        asked_directories(data_dir, config_dir, system) is Ok,
    ensures
        ({
            let chosen = asked_directories(data_dir, config_dir, system)->Ok_0;
            let expanded = |path: Seq<char>|
                tilde_expanded(path, system.tilde_home, system.platform);
            &&& chosen.platform == system.platform
            &&& data_dir matches Some(data_dir) ==> chosen.data_dir == expanded(data_dir)
            &&& config_dir matches Some(config_dir) ==> chosen.config_dir == expanded(config_dir)
            &&& config_dir is None && data_dir is Some ==> chosen.config_dir == joined_path(
                system.platform,
                chosen.data_dir,
                "config"@,
            )
            &&& data_dir is None ==> default_data_dir(system) == Ok::<Seq<char>, Seq<Seq<char>>>(
                chosen.data_dir,
            )
            &&& data_dir is None && config_dir is None ==> default_config_dir(system) == Ok::<
                Seq<char>,
                Seq<Seq<char>>,
            >(chosen.config_dir)
        }),
{
}

proof fn lemma_pieces_of_appended(platform: Platform, front: Seq<char>, name: Seq<char>)
    requires
        !(platform is Windows),
        forall|i: int| 0 <= i < name.len() ==> name[i] != '/',
    ensures
        path_pieces(platform, false, front).len() > 0,
        path_pieces(platform, false, front + name) == path_pieces(
            platform,
            false,
            front,
        ).drop_last().push(path_pieces(platform, false, front).last() + name),
    decreases front.len() + name.len(),
{
    let pieces = path_pieces(platform, false, front);
    if name.len() == 0 {
        if front.len() > 0 {
            lemma_pieces_of_appended(platform, front.drop_last(), name);
        }
        assert(front + name =~= front);
        assert(pieces.last() + name =~= pieces.last());
        assert(pieces.drop_last().push(pieces.last()) =~= pieces);
    } else {
        let shorter = name.drop_last();
        lemma_pieces_of_appended(platform, front, shorter);
        assert((front + name).drop_last() =~= front + shorter);
        assert((front + name).last() == name.last());
        assert((pieces.last() + shorter).push(name.last()) =~= pieces.last() + name);
        let before = path_pieces(platform, false, front + shorter);
        assert(before.drop_last() =~= pieces.drop_last());
    }
}

/// A name that is put below a directory is the last part of the path, and the
/// other parts are those of the directory.
pub proof fn law_joined_paths_end_with_the_name(
    platform: Platform,
    base: Seq<char>,
    name: Seq<char>,
)
    requires
        !(platform is Windows),
        base.len() > 0,
        name.len() > 0,
        name != seq!['.'],
        forall|i: int| 0 <= i < name.len() ==> name[i] != '/',
    ensures
        ({
            let whole = path_parts(platform, joined_path(platform, base, name));
            let parts = path_parts(platform, base);
            &&& whole.prefix == parts.prefix
            &&& whole.rooted == parts.rooted
            &&& whole.names == parts.names.push(name)
        }),
{
    reveal_strlit("/");
    assert("/"@ =~= seq!['/']);
    let from: int = if base[0] == '/' {
        1
    } else {
        0
    };
    let rooted = from == 1;
    let rest = base.skip(from);
    let whole = joined_path(platform, base, name);
    if base.last() == '/' {
        assert(whole == base + name);
        assert(whole.skip(from) =~= rest + name);
        lemma_pieces_of_appended(platform, rest, name);
        let pieces = path_pieces(platform, false, rest);
        if rest.len() > 0 {
            assert(rest.last() == '/');
            assert(pieces.last() =~= Seq::empty());
        }
        assert(pieces.last() + name =~= name);
        let longer = pieces.drop_last().push(name);
        assert(longer.drop_last() =~= pieces.drop_last());
        assert(naming_pieces(false, rooted, pieces) == naming_pieces(
            false,
            rooted,
            pieces.drop_last(),
        ));
    } else {
        assert(whole == base + "/"@ + name);
        let with_slash = rest.push('/');
        assert(whole.skip(from) =~= with_slash + name);
        lemma_pieces_of_appended(platform, with_slash, name);
        let pieces = path_pieces(platform, false, rest);
        assert(with_slash.drop_last() =~= rest);
        assert(path_pieces(platform, false, with_slash) == pieces.push(Seq::empty()));
        assert(pieces.push(Seq::<char>::empty()).drop_last() =~= pieces);
        assert(Seq::<char>::empty() + name =~= name);
        let longer = pieces.push(name);
        assert(longer.drop_last() =~= pieces);
    }
}

/// Two names below one directory are the same path only where they are the same
/// name.
pub proof fn law_other_names_are_other_paths(
    platform: Platform,
    base: Seq<char>,
    a: Seq<char>,
    b: Seq<char>,
)
    requires
        !(platform is Windows),
        base.len() > 0,
        a.len() > 0 && a != seq!['.'] && forall|i: int| 0 <= i < a.len() ==> a[i] != '/',
        b.len() > 0 && b != seq!['.'] && forall|i: int| 0 <= i < b.len() ==> b[i] != '/',
    ensures
        same_path(platform, joined_path(platform, base, a), joined_path(platform, base, b))
            <==> a == b,
{
    law_joined_paths_end_with_the_name(platform, base, a);
    law_joined_paths_end_with_the_name(platform, base, b);
    let names = path_parts(platform, base).names;
    if names.push(a) == names.push(b) {
        assert(names.push(a).last() == a && names.push(b).last() == b);
    }
}

/// A path from the root is none from the current directory.
pub proof fn law_rooted_paths_are_other_paths(platform: Platform, a: Seq<char>, b: Seq<char>)
    requires
        !(platform is Windows),
        same_path(platform, a, b),
    ensures
        a.len() > 0 && a[0] == '/' <==> b.len() > 0 && b[0] == '/',
{
}

proof fn lemma_pieces_of_both(platform: Platform, front: Seq<char>, back: Seq<char>)
    requires
        !(platform is Windows),
    ensures
        path_pieces(platform, false, front).len() > 0,
        path_pieces(platform, false, front.push('/') + back) == path_pieces(platform, false, front)
            + path_pieces(platform, false, back),
    decreases back.len(),
{
    lemma_pieces_of_appended(platform, front, Seq::empty());
    let pieces = path_pieces(platform, false, front);
    let whole = front.push('/') + back;
    if back.len() == 0 {
        assert(whole =~= front.push('/'));
        assert(front.push('/').drop_last() =~= front);
        assert(pieces.push(Seq::empty()) =~= pieces + seq![Seq::<char>::empty()]);
    } else {
        let shorter = back.drop_last();
        lemma_pieces_of_both(platform, front, shorter);
        lemma_pieces_of_appended(platform, shorter, Seq::empty());
        assert(whole.drop_last() =~= front.push('/') + shorter);
        assert(whole.last() == back.last());
        let before = path_pieces(platform, false, shorter);
        if back.last() == '/' {
            assert((pieces + before).push(Seq::empty()) =~= pieces + before.push(Seq::empty()));
        } else {
            assert((pieces + before).last() == before.last());
            assert((pieces + before).drop_last().push(before.last().push(back.last())) =~= pieces
                + before.drop_last().push(before.last().push(back.last())));
        }
    }
}

proof fn lemma_unnamed_piece(
    rooted: bool,
    front: Seq<Seq<char>>,
    piece: Seq<char>,
    back: Seq<Seq<char>>,
)
    requires
        front.len() > 0,
        piece.len() == 0 || piece == seq!['.'],
    ensures
        naming_pieces(false, rooted, front + seq![piece] + back) == naming_pieces(
            false,
            rooted,
            front + back,
        ),
    decreases back.len(),
{
    let longer = front + seq![piece] + back;
    if back.len() == 0 {
        assert(longer =~= front.push(piece));
        assert(longer.drop_last() =~= front);
        assert(front + back =~= front);
    } else {
        lemma_unnamed_piece(rooted, front, piece, back.drop_last());
        assert(longer.drop_last() =~= front + seq![piece] + back.drop_last());
        assert((front + back).drop_last() =~= front + back.drop_last());
        assert(longer.last() == back.last() && (front + back).last() == back.last());
    }
}

/// Neither a slash that is repeated nor a `.` between two parts makes a
/// difference to a path.
pub proof fn law_repeated_slashes_and_dots_make_no_difference(
    platform: Platform,
    front: Seq<char>,
    back: Seq<char>,
)
    requires
        !(platform is Windows),
        front.len() > 0,
    ensures
        same_path(platform, front + seq!['/', '/'] + back, front + seq!['/'] + back),
        same_path(platform, front + seq!['/', '.', '/'] + back, front + seq!['/'] + back),
{
    let from: int = if front[0] == '/' {
        1
    } else {
        0
    };
    let rest = front.skip(from);
    let plain = front + seq!['/'] + back;
    let twice = front + seq!['/', '/'] + back;
    let dotted = front + seq!['/', '.', '/'] + back;
    let pieces = path_pieces(platform, false, rest);
    let others = path_pieces(platform, false, back);
    assert(plain.skip(from) =~= rest.push('/') + back);
    lemma_pieces_of_both(platform, rest, back);
    let empty = Seq::<char>::empty();
    assert(twice.skip(from) =~= rest.push('/') + (empty.push('/') + back));
    lemma_pieces_of_both(platform, rest, empty.push('/') + back);
    lemma_pieces_of_both(platform, empty, back);
    assert(path_pieces(platform, false, empty) =~= seq![empty]);
    assert(pieces + (seq![empty] + others) =~= pieces + seq![empty] + others);
    lemma_unnamed_piece(from == 1, pieces, empty, others);
    let dot = seq!['.'];
    assert(dotted.skip(from) =~= rest.push('/') + (dot.push('/') + back));
    lemma_pieces_of_both(platform, rest, dot.push('/') + back);
    lemma_pieces_of_both(platform, dot, back);
    assert(dot.drop_last() =~= empty);
    assert(empty.push('.') =~= dot);
    assert(path_pieces(platform, false, dot) =~= seq![dot]);
    assert(pieces + (seq![dot] + others) =~= pieces + seq![dot] + others);
    lemma_unnamed_piece(from == 1, pieces, dot, others);
}

/// How the letter of a drive is written makes no difference, but which letter it
/// is does.
pub proof fn law_drive_letters_have_no_case(path: Seq<char>, a: char, b: char)
    requires
        'a' <= a <= 'z' && 'a' <= b <= 'z',
    ensures
        same_path(
            Platform::Windows,
            seq![a, ':'] + path,
            seq![((a as u32) - 32) as char, ':'] + path,
        ),
        a != b ==> !same_path(Platform::Windows, seq![a, ':'] + path, seq![b, ':'] + path),
{
    let lower = seq![a, ':'] + path;
    let upper = seq![((a as u32) - 32) as char, ':'] + path;
    let other = seq![b, ':'] + path;
    assert(lower.skip(2) =~= path && upper.skip(2) =~= path && other.skip(2) =~= path);
    if path.len() > 0 {
        assert(lower.skip(3) =~= path.skip(1) && upper.skip(3) =~= path.skip(1));
    }
    if a != b {
        let one = path_parts(Platform::Windows, lower).prefix.name;
        let two = path_parts(Platform::Windows, other).prefix.name;
        assert(one[0] != two[0]);
    }
}

/// On Windows a name is set off by a backslash, unless a separator or a drive
/// alone stands before it.
pub proof fn law_windows_names_are_set_off_by_a_backslash(base: Seq<char>, name: Seq<char>)
    requires
        base.len() > 2,
        base[0] != '\\' && base[0] != '/',
    ensures
        base.last() != '\\' && base.last() != '/' ==> joined_path(Platform::Windows, base, name)
            == base + seq!['\\'] + name,
        base.last() == '\\' || base.last() == '/' ==> joined_path(Platform::Windows, base, name)
            == base + name,
{
    reveal_strlit("\\");
    assert("\\"@ =~= seq!['\\']);
}

/// Without being told otherwise the application keeps its files where the
/// system says: on Linux below the directories of the sandbox it may run in or
/// else below those of the user, on Windows below those for applications, and
/// elsewhere below the home directory.
pub proof fn law_default_directories_are_those_of_the_system(system: SystemDirectoriesView)
    ensures
        ({
            let below = |base: Seq<char>, name: Seq<char>| joined_path(system.platform, base, name);
            let config = default_config_dir(system);
            let data = default_data_dir(system);
            &&& system.platform is Linux ==> {
                &&& system.flatpak_config_home matches Some(home) ==> config == Ok::<
                    Seq<char>,
                    Seq<Seq<char>>,
                >(below(home, "zed-terminal"@))
                &&& system.flatpak_config_home is None ==> match system.config_dir {
                    Some(home) => config == Ok::<Seq<char>, Seq<Seq<char>>>(
                        below(home, "zed-terminal"@),
                    ),
                    None => config is Err,
                }
                &&& system.flatpak_data_home matches Some(home) ==> data == Ok::<
                    Seq<char>,
                    Seq<Seq<char>>,
                >(below(home, "zed-terminal"@))
                &&& system.flatpak_data_home is None ==> match system.data_local_dir {
                    Some(home) => data == Ok::<Seq<char>, Seq<Seq<char>>>(
                        below(home, "zed-terminal"@),
                    ),
                    None => data is Err,
                }
            }
            &&& system.platform is Windows ==> {
                &&& match system.config_dir {
                    Some(home) => config == Ok::<Seq<char>, Seq<Seq<char>>>(
                        below(home, "Zed Terminal"@),
                    ),
                    None => config is Err,
                }
                &&& match system.data_local_dir {
                    Some(home) => data == Ok::<Seq<char>, Seq<Seq<char>>>(
                        below(home, "Zed Terminal"@),
                    ),
                    None => data is Err,
                }
            }
            &&& system.platform is MacOs || system.platform is Other ==> config == Ok::<
                Seq<char>,
                Seq<Seq<char>>,
            >(below(below(system.home_dir, ".config"@), "zed-terminal"@))
            &&& system.platform is MacOs ==> data == Ok::<Seq<char>, Seq<Seq<char>>>(
                below(below(system.home_dir, "Library/Application Support"@), "Zed Terminal"@),
            )
            &&& system.platform is Other ==> data == config
        }),
{
}

/// Where the command line names both directories, no default plays a part but
/// that the one for data must be known; without a name both must be.
pub proof fn law_directories_are_found_where_defaults_are(
    data_dir: Option<Seq<char>>,
    config_dir: Option<Seq<char>>,
    system: SystemDirectoriesView,
)
    ensures
        asked_directories(data_dir, config_dir, system) is Ok <==> default_data_dir(system) is Ok
            && (data_dir is Some || config_dir is Some || default_config_dir(system) is Ok),
{
}

/// The lines of a profile show its name, the name to show, its texts where it
/// has them, and how many tabs it opens.
pub proof fn law_profile_lines_show_the_profile(profile: SummaryView)
    ensures
        ({
            let lines = profile_lines(profile);
            &&& holds(lines, profile.name)
            &&& holds(lines, "  display_name: "@ + profile.display_name + "\n"@)
            &&& profile.description matches Some(text) ==> holds(
                lines,
                "  description: "@ + text + "\n"@,
            )
            &&& profile.icon matches Some(text) ==> holds(lines, "  icon: "@ + text + "\n"@)
            &&& profile.color matches Some(text) ==> holds(lines, "  color: "@ + text + "\n"@)
            &&& holds(lines, "  tabs: "@ + decimal(profile.tab_count as nat) + "\n"@)
        }),
{
    let badges = crate::report::badges(profile.is_default, profile.hidden);
    let name_line = "- "@ + (profile.name + badges) + "\n"@;
    let shown = "  display_name: "@ + profile.display_name + "\n"@;
    let description = crate::report::optional_line("  description: "@, profile.description);
    let icon = crate::report::optional_line("  icon: "@, profile.icon);
    let color = crate::report::optional_line("  color: "@, profile.color);
    let tabs = "  tabs: "@ + decimal(profile.tab_count as nat) + "\n"@;
    lemma_holds_each(name_line, shown, description, icon, color, tabs);
    assert(name_line =~= "- "@ + profile.name + (badges + "\n"@));
    lemma_holds("- "@, profile.name, badges + "\n"@);
    lemma_holds_within(profile_lines(profile), name_line, profile.name);
}

proof fn lemma_holds_each(
    a: Seq<char>,
    b: Seq<char>,
    c: Seq<char>,
    d: Seq<char>,
    e: Seq<char>,
    f: Seq<char>,
)
    ensures
        holds(a + b + c + d + e + f, a),
        holds(a + b + c + d + e + f, b),
        holds(a + b + c + d + e + f, c),
        holds(a + b + c + d + e + f, d),
        holds(a + b + c + d + e + f, e),
        holds(a + b + c + d + e + f, f),
{
    let all = a + b + c + d + e + f;
    assert(all =~= Seq::empty() + a + (b + c + d + e + f));
    assert(all =~= a + b + (c + d + e + f));
    assert(all =~= (a + b) + c + (d + e + f));
    assert(all =~= (a + b + c) + d + (e + f));
    assert(all =~= (a + b + c + d + e) + f + Seq::empty());
    lemma_holds(Seq::empty(), a, b + c + d + e + f);
    lemma_holds(a, b, c + d + e + f);
    lemma_holds(a + b, c, d + e + f);
    lemma_holds(a + b + c, d, e + f);
    lemma_holds(a + b + c + d, e, f);
    lemma_holds(a + b + c + d + e, f, Seq::empty());
}

/// A command is shown as its program and its arguments, word by word in their
/// order.
pub proof fn law_commands_are_shown_word_by_word(
    program: Seq<char>,
    args: Seq<Seq<char>>,
    more: Seq<char>,
)
    ensures
        command_label(program, Seq::empty()) == command_part(program),
        command_label(program, args.push(more)) == command_label(program, args) + " "@
            + command_part(more),
{
    let shown = |part: Seq<char>| command_part(part);
    let alone = (seq![program] + Seq::<Seq<char>>::empty()).map_values(shown);
    assert(alone.len() == 1 && alone[0] == command_part(program));
    let all = (seq![program] + args.push(more)).map_values(shown);
    assert(all.drop_last() =~= (seq![program] + args).map_values(shown));
    assert(all.last() == command_part(more));
}

/// Only quotes are escaped in a word, each by a backslash before it.
pub proof fn law_quotes_are_escaped(word: Seq<char>, c: char)
    ensures
        c == '"' ==> with_escaped_quotes(word.push(c)) == with_escaped_quotes(word).push('\\').push(
            '"',
        ),
        c != '"' ==> with_escaped_quotes(word.push(c)) == with_escaped_quotes(word).push(c),
        with_escaped_quotes(Seq::empty()).len() == 0,
        command_part(seq![' '] + word) == seq!['"'] + with_escaped_quotes(seq![' '] + word) + seq![
            '"',
        ],
{
    assert(word.push(c).drop_last() =~= word);
    let escaped = with_escaped_quotes(word);
    assert(escaped + seq!['\\', '"'] =~= escaped.push('\\').push('"'));
    assert((seq![' '] + word)[0] == ' ');
    assert(white_space((seq![' '] + word)[0]));
}

/// A shell is shown as its program, with its arguments where it has any.
pub proof fn law_shells_are_shown_with_their_arguments(shell: ShellView)
    ensures
        shell is System ==> shell_text(shell) == "system"@,
        shell matches ShellView::Program(program) ==> shell_text(shell) == command_label(
            program,
            Seq::empty(),
        ),
        shell matches ShellView::WithArguments { program, args, .. } ==> shell_text(shell)
            == command_label(program, args),
        optional_shell_text(Some(shell)) == shell_text(shell),
        optional_shell_text(None) == "default"@,
{
    if let ShellView::Program(program) = shell {
        law_commands_are_shown_word_by_word(program, Seq::empty(), program);
    }
}

/// The lines of a check show its label, what it came to, its path and its
/// message.
pub proof fn law_check_lines_show_the_check(check: PathCheckView)
    ensures
        ({
            let lines = path_check_lines(check);
            let status = match check.status {
                TerminalDoctorCheckStatus::Passed => "ok"@,
                TerminalDoctorCheckStatus::Missing => "missing"@,
                TerminalDoctorCheckStatus::Error => "error"@,
            };
            &&& holds(lines, check.label + ": "@ + (status + " "@ + check.path) + "\n"@)
            &&& check.message matches Some(message) ==> holds(
                lines,
                "    message: "@ + message + "\n"@,
            )
        }),
{
    let status = match check.status {
        TerminalDoctorCheckStatus::Passed => "ok"@,
        TerminalDoctorCheckStatus::Missing => "missing"@,
        TerminalDoctorCheckStatus::Error => "error"@,
    };
    let first = check.label + ": "@ + (status + " "@ + check.path) + "\n"@;
    let message = crate::report::optional_line("    message: "@, check.message);
    let lines = path_check_lines(check);
    assert(lines =~= "  "@ + first + message);
    assert(lines =~= ("  "@ + first) + message + Seq::empty());
    lemma_holds("  "@, first, message);
    lemma_holds("  "@ + first, message, Seq::empty());
}

/// The report of a change of the default profile says what the profile was, what
/// it is and whether it changed.
pub proof fn law_update_report_says_what_changed(update: UpdateView)
    ensures
        ({
            let report = update_report(update);
            let name = |profile: Option<Seq<char>>|
                match profile {
                    Some(profile) => profile,
                    None => "none"@,
                };
            &&& holds(report, "startup_config_file: "@ + update.path + "\n"@)
            &&& holds(
                report,
                "previous_default_profile: "@ + name(update.previous_profile) + "\n"@,
            )
            &&& holds(report, "default_profile: "@ + name(update.default_profile) + "\n"@)
            &&& update.changed ==> holds(report, "changed: "@ + "true"@ + "\n"@)
            &&& !update.changed ==> holds(report, "changed: "@ + "false"@ + "\n"@)
        }),
{
    let name = |profile: Option<Seq<char>>|
        match profile {
            Some(profile) => profile,
            None => "none"@,
        };
    let path = "startup_config_file: "@ + update.path + "\n"@;
    let previous = "previous_default_profile: "@ + name(update.previous_profile) + "\n"@;
    let default = "default_profile: "@ + name(update.default_profile) + "\n"@;
    let changed = "changed: "@ + (if update.changed {
        "true"@
    } else {
        "false"@
    }) + "\n"@;
    lemma_holds_each(path, "status: ok\n"@, previous, default, changed, Seq::empty());
    assert(update_report(update) =~= path + "status: ok\n"@ + previous + default + changed
        + Seq::empty());
}

/// The report of a validation says how many layouts and tabs there are.
pub proof fn law_validation_report_says_the_counts(
    path: Seq<char>,
    validation: TerminalStartupConfigValidation,
)
    ensures
        ({
            let report = validation_report(path, validation);
            &&& holds(report, "startup_config_file: "@ + path + "\n"@)
            &&& holds(report, "layouts: "@ + decimal(validation.layout_count as nat) + "\n"@)
            &&& holds(report, "tabs: "@ + decimal(validation.tab_count as nat) + "\n"@)
        }),
{
    let file = "startup_config_file: "@ + path + "\n"@;
    let layouts = "layouts: "@ + decimal(validation.layout_count as nat) + "\n"@;
    let tabs = "tabs: "@ + decimal(validation.tab_count as nat) + "\n"@;
    let none = Seq::<char>::empty();
    lemma_holds_each(file, "status: ok\n"@, layouts, tabs, none, none);
    assert(validation_report(path, validation) =~= file + "status: ok\n"@ + layouts + tabs + none
        + none);
}

/// The report on the keymaps says how many bindings each has and where the
/// user's comes from.
pub proof fn law_keymap_report_says_the_counts(
    path: Seq<char>,
    validation: TerminalKeymapValidation,
)
    ensures
        ({
            let report = keymap_report(path, validation);
            let source = match validation.user_keymap_source {
                TerminalUserKeymapSource::File => "file"@,
                TerminalUserKeymapSource::Initial => "initial"@,
            };
            &&& holds(report, "keymap_file: "@ + path + "\n"@)
            &&& holds(
                report,
                "default_bindings: "@ + decimal(validation.default_binding_count as nat) + "\n"@,
            )
            &&& holds(report, "user_keymap_source: "@ + source + "\n"@)
            &&& holds(
                report,
                "user_bindings: "@ + decimal(validation.user_binding_count as nat) + "\n"@,
            )
        }),
{
    let source = match validation.user_keymap_source {
        TerminalUserKeymapSource::File => "file"@,
        TerminalUserKeymapSource::Initial => "initial"@,
    };
    let file = "keymap_file: "@ + path + "\n"@;
    let defaults = "default_bindings: "@ + decimal(validation.default_binding_count as nat) + "\n"@;
    let source_line = "user_keymap_source: "@ + source + "\n"@;
    let users = "user_bindings: "@ + decimal(validation.user_binding_count as nat) + "\n"@;
    let none = Seq::<char>::empty();
    lemma_holds_each(file, "status: ok\n"@, defaults, source_line, users, none);
    assert(keymap_report(path, validation) =~= file + "status: ok\n"@ + defaults + source_line
        + users + none);
}

/// The check of the startup configuration shows what it came to, how many
/// layouts and tabs there are, and its message.
pub proof fn law_config_check_shows_the_counts(check: ConfigCheckView)
    ensures
        ({
            let lines = config_check_lines(check);
            let status = match check.status {
                TerminalDoctorCheckStatus::Passed => "ok"@,
                TerminalDoctorCheckStatus::Missing => "missing"@,
                TerminalDoctorCheckStatus::Error => "error"@,
            };
            &&& holds(lines, "  startup_config_file: "@ + (status + " "@ + check.path) + "\n"@)
            &&& check.validation matches Some(validation) ==> holds(
                lines,
                "  layouts: "@ + decimal(validation.layout_count as nat) + "\n"@,
            ) && holds(lines, "  tabs: "@ + decimal(validation.tab_count as nat) + "\n"@)
            &&& check.message matches Some(message) ==> holds(
                lines,
                "  message: "@ + message + "\n"@,
            )
        }),
{
    let status = match check.status {
        TerminalDoctorCheckStatus::Passed => "ok"@,
        TerminalDoctorCheckStatus::Missing => "missing"@,
        TerminalDoctorCheckStatus::Error => "error"@,
    };
    let none = Seq::<char>::empty();
    let first = "  startup_config_file: "@ + (status + " "@ + check.path) + "\n"@;
    let source = crate::report::optional_line(
        "  source: "@,
        crate::doctor::config_source_option(check.source),
    );
    let (layouts, tabs) = match check.validation {
        Some(validation) => (
            "  layouts: "@ + decimal(validation.layout_count as nat) + "\n"@,
            "  tabs: "@ + decimal(validation.tab_count as nat) + "\n"@,
        ),
        None => (none, none),
    };
    let message = crate::report::optional_line("  message: "@, check.message);
    lemma_holds_each(first, source, layouts, tabs, message, none);
    assert(config_check_lines(check) =~= first + source + layouts + tabs + message + none);
}

/// A file that was put in place is reported under its label, with its path and
/// whether it was created.
pub proof fn law_initialized_files_are_reported(file: InitializedFileView)
    ensures
        ({
            let status = match file.status {
                TerminalConfigFileInitializationStatus::Created => "created"@,
                TerminalConfigFileInitializationStatus::Existing => "existing"@,
            };
            initialized_line(file) == file.label + ": "@ + (status + " "@ + file.path) + "\n"@
        }),
{
}

/// The four directions go by their own names.
pub proof fn law_directions_go_by_their_names()
    ensures
        direction_name(TerminalStartupSplitDirection::Up) == "up"@,
        direction_name(TerminalStartupSplitDirection::Down) == "down"@,
        direction_name(TerminalStartupSplitDirection::Left) == "left"@,
        direction_name(TerminalStartupSplitDirection::Right) == "right"@,
{
}

} // verus!
