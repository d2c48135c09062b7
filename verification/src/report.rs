//! The reports that the application prints.

use crate::command::{command_label, command_part, format_command, format_command_part, Shell, ShellView};
use crate::config::{direction_name, ConfigView, ProfileConfigView, TerminalStartupConfig};
use crate::launch::{LaunchOptions, LaunchOptionsView};
use crate::launch_tab::{LaunchTab, LaunchTabView};
use crate::profiles::{summaries_of, SummaryView, TerminalStartupProfileSummary};
use crate::text::{concatenated, decimal, decimal_text, lemma_concatenated_step};
use crate::validation::TerminalStartupConfigValidation;
use vstd::prelude::*;
use vstd::string::*;

verus! {

/// `label` and `value` on a line.
pub open spec fn labelled_line(label: Seq<char>, value: Seq<char>) -> Seq<char> {
    label + value + "\n"@
}

/// A line for a value that may be missing: none where it is.
pub open spec fn optional_line(label: Seq<char>, value: Option<Seq<char>>) -> Seq<char> {
    match value {
        Some(value) => labelled_line(label, value),
        None => Seq::empty(),
    }
}

/// Adds `label` and `value` on a line.
pub fn push_line(output: &mut String, label: &str, value: &str)
    ensures
        final(output)@ == old(output)@ + labelled_line(label@, value@),
{
    let ghost before = output@;
    output.append(label);
    output.append(value);
    output.append("\n");
    proof {
        assert(output@ =~= before + labelled_line(label@, value@));
    }
}

/// Adds `label` and `value` on a line, if there is a value.
pub fn push_optional_line(output: &mut String, label: &str, value: &Option<String>)
    ensures
        final(output)@ == old(output)@ + optional_line(label@, value.deep_view()),
{
    let ghost before = output@;
    match value {
        Some(value) => push_line(output, label, value.as_str()),
        None => {
            proof {
                assert(output@ =~= before + Seq::<char>::empty());
            }
        },
    }
}

/// The marks behind a profile's name in a list.
pub open spec fn badges(is_default: bool, hidden: bool) -> Seq<char> {
    if is_default && hidden {
        " (default, hidden)"@
    } else if is_default {
        " (default)"@
    } else if hidden {
        " (hidden)"@
    } else {
        ""@
    }
}

/// The lines of a list about one profile.
pub open spec fn profile_lines(profile: SummaryView) -> Seq<char> {
    labelled_line("- "@, profile.name + badges(profile.is_default, profile.hidden))
        + labelled_line("  display_name: "@, profile.display_name)
        + optional_line("  description: "@, profile.description)
        + optional_line("  icon: "@, profile.icon)
        + optional_line("  color: "@, profile.color)
        + labelled_line("  tabs: "@, decimal(profile.tab_count as nat))
}

/// How many of these profiles are hidden.
pub open spec fn hidden_count(profiles: Seq<(Seq<char>, ProfileConfigView)>) -> nat
    decreases profiles.len(),
{
    if profiles.len() == 0 {
        0
    } else {
        hidden_count(profiles.drop_last()) + if profiles.last().1.hidden {
            1nat
        } else {
            0nat
        }
    }
}

/// The list of the profiles in the configuration file at `path`.
pub open spec fn profiles_report(
    config: ConfigView,
    path: Seq<char>,
    include_hidden: bool,
) -> Seq<char> {
    let summaries = summaries_of(config, config.profiles, include_hidden);
    let head = labelled_line("startup_config_file: "@, path);
    let hidden = hidden_count(config.profiles);
    if summaries.len() > 0 {
        head + labelled_line(
            "profiles: "@,
            decimal((config.profiles.len() - hidden) as nat) + " visible, "@ + decimal(hidden)
                + " hidden"@,
        ) + concatenated(summaries.map_values(|profile: SummaryView| profile_lines(profile)))
    } else if config.profiles.len() == 0 || include_hidden {
        head + "No startup profiles configured.\n"@
    } else {
        head
            + "No visible startup profiles configured. Use --all-profiles to include hidden profiles.\n"@
    }
}

fn format_profile(profile: &TerminalStartupProfileSummary) -> (r: String)
    ensures
        r@ == profile_lines(profile@),
{
    let badges = if profile.is_default && profile.hidden {
        " (default, hidden)"
    } else if profile.is_default {
        " (default)"
    } else if profile.hidden {
        " (hidden)"
    } else {
        ""
    };
    let mut output = String::new();
    let name = profile.name.clone().concat(badges);
    push_line(&mut output, "- ", name.as_str());
    proof {
        assert(output@ =~= labelled_line("- "@, name@));
    }
    push_line(&mut output, "  display_name: ", profile.display_name.as_str());
    push_optional_line(&mut output, "  description: ", &profile.description);
    push_optional_line(&mut output, "  icon: ", &profile.icon);
    push_optional_line(&mut output, "  color: ", &profile.color);
    push_line(&mut output, "  tabs: ", decimal_text(profile.tab_count as u128).as_str());
    output
}

fn count_hidden(config: &TerminalStartupConfig) -> (r: usize)
    ensures
        r == hidden_count(config@.profiles),
        r <= config@.profiles.len(),
{
    let ghost all = config@.profiles;
    let mut hidden: usize = 0;
    let mut i: usize = 0;
    proof {
        assert(all.take(0) =~= Seq::empty());
    }
    while i < config.profiles.len()
        invariant
            i <= all.len(),
            all == config@.profiles,
            hidden <= i,
            hidden == hidden_count(all.take(i as int)),
        decreases all.len() - i,
    {
        proof {
            assert(all.take(i + 1).drop_last() =~= all.take(i as int));
        }
        if config.profiles.value_at(i).hidden {
            hidden = hidden + 1;
        }
        i = i + 1;
    }
    proof {
        assert(all.take(all.len() as int) =~= all);
    }
    hidden
}

/// The list of the profiles in the configuration file at `path`.
pub fn format_startup_profiles(
    startup_config: &TerminalStartupConfig,
    startup_config_file: &str,
    include_hidden: bool,
) -> (r: String)
    ensures
        r@ == profiles_report(startup_config@, startup_config_file@, include_hidden),
{
    let summaries = startup_config.profile_summaries(include_hidden);
    let hidden: usize = count_hidden(startup_config);
    let visible: usize = startup_config.profiles.len() - hidden;
    let mut output = String::new();
    push_line(&mut output, "startup_config_file: ", startup_config_file);
    proof {
        assert(output@ =~= labelled_line("startup_config_file: "@, startup_config_file@));
    }
    if summaries.len() == 0 {
        if startup_config.profiles.is_empty() || include_hidden {
            output.append("No startup profiles configured.\n");
        } else {
            output.append(
                "No visible startup profiles configured. Use --all-profiles to include hidden profiles.\n",
            );
        }
        return output;
    }
    let mut counts = decimal_text(visible as u128);
    counts.append(" visible, ");
    counts.append(decimal_text(hidden as u128).as_str());
    counts.append(" hidden");
    push_line(&mut output, "profiles: ", counts.as_str());
    let ghost head = output@;
    let ghost parts = summaries.deep_view().map_values(
        |profile: SummaryView| profile_lines(profile),
    );
    let mut i: usize = 0;
    proof {
        assert(parts.take(0) =~= Seq::empty());
        assert(output@ =~= head + concatenated(parts.take(0)));
    }
    while i < summaries.len()
        invariant
            i <= summaries@.len(),
            parts == summaries.deep_view().map_values(
                |profile: SummaryView| profile_lines(profile),
            ),
            output@ == head + concatenated(parts.take(i as int)),
        decreases summaries@.len() - i,
    {
        output.append(format_profile(&summaries[i]).as_str());
        proof {
            assert(parts[i as int] == profile_lines(summaries@[i as int]@));
            lemma_concatenated_step(head, parts, i as int);
        }
        i = i + 1;
    }
    proof {
        assert(parts.take(parts.len() as int) =~= parts);
    }
    output
}

/// How a tab is placed.
pub open spec fn placement(tab: LaunchTabView) -> Seq<char> {
    match tab.split {
        Some(direction) => "split "@ + direction_name(direction),
        None => "tab"@,
    }
}

/// The text, or `default` where there is none.
pub open spec fn text_or(text: Option<Seq<char>>, default: Seq<char>) -> Seq<char> {
    match text {
        Some(text) => text,
        None => default,
    }
}

/// How a shell is shown.
pub open spec fn shell_text(shell: ShellView) -> Seq<char> {
    match shell {
        ShellView::System => "system"@,
        ShellView::Program(program) => command_part(program),
        ShellView::WithArguments { program, args, .. } => command_label(program, args),
    }
}

/// How an optional shell is shown.
pub open spec fn optional_shell_text(shell: Option<ShellView>) -> Seq<char> {
    match shell {
        Some(shell) => shell_text(shell),
        None => "default"@,
    }
}

/// The lines of a report about one tab, each behind `prefix`. Of its
/// variables it gives the number alone.
pub open spec fn tab_lines(prefix: Seq<char>, tab: LaunchTabView) -> Seq<char> {
    labelled_line(
        prefix + "kind: "@,
        if tab.command is Some {
            "command"@
        } else {
            "shell"@
        },
    ) + labelled_line(prefix + "placement: "@, placement(tab)) + labelled_line(
        prefix + "title: "@,
        text_or(tab.title, "dynamic"@),
    ) + labelled_line(
        prefix + "working_directory: "@,
        text_or(tab.working_directory, "default"@),
    ) + (match tab.command {
        Some(command) => labelled_line(
            prefix + "command: "@,
            command_label(command.program, command.args),
        ),
        None => labelled_line(prefix + "shell: "@, optional_shell_text(tab.shell)),
    }) + labelled_line(prefix + "env: "@, decimal(tab.env.len()) + " variables"@)
}

/// The report of the window that `options` opens.
pub open spec fn layout_report(options: LaunchOptionsView, path: Seq<char>) -> Seq<char> {
    let tabs = seq![options.initial_tab] + options.additional_tabs;
    labelled_line("startup_config_file: "@, path) + "status: ok\n"@ + labelled_line(
        "tabs: "@,
        decimal(tabs.len()),
    ) + "new_terminal_tab:\n"@ + tab_lines("  "@, options.new_terminal_tab) + concatenated(
        Seq::new(tabs.len(), |i: int| numbered_tab_lines((i + 1) as nat, tabs[i])),
    )
}

/// The lines of a report about the tab with this number.
pub open spec fn numbered_tab_lines(number: nat, tab: LaunchTabView) -> Seq<char> {
    labelled_line("- tab "@, decimal(number)) + tab_lines("  "@, tab)
}

/// How a shell is shown.
pub fn format_shell(shell: &Shell) -> (r: String)
    ensures
        r@ == shell_text(shell@),
{
    match shell {
        Shell::System => "system".to_owned(),
        Shell::Program(program) => format_command_part(program.as_str()),
        Shell::WithArguments { program, args, .. } => format_command(program.as_str(), args),
    }
}

/// How an optional shell is shown.
pub fn format_optional_shell(shell: Option<&Shell>) -> (r: String)
    ensures
        r@ == optional_shell_text(shell.deep_view()),
{
    match shell {
        Some(shell) => format_shell(shell),
        None => "default".to_owned(),
    }
}

/// The text, or `default` where there is none.
pub fn or_default<'a>(text: &'a Option<String>, default: &'a str) -> (r: &'a str)
    ensures
        r@ == text_or(text.deep_view(), default@),
{
    match text {
        Some(text) => text.as_str(),
        None => default,
    }
}

/// Adds the lines about one tab, each behind `prefix`.
pub fn format_startup_layout_tab_body(output: &mut String, prefix: &str, tab: &LaunchTab)
    ensures
        final(output)@ == old(output)@ + tab_lines(prefix@, tab@),
{
    let kind = if tab.command.is_some() {
        "command"
    } else {
        "shell"
    };
    let placement = match tab.split {
        Some(direction) => "split ".to_owned().concat(direction.as_str()),
        None => "tab".to_owned(),
    };
    let mut lines = String::new();
    push_line(&mut lines, prefix.to_owned().concat("kind: ").as_str(), kind);
    proof {
        assert(lines@ =~= labelled_line(prefix@ + "kind: "@, kind@));
    }
    push_line(&mut lines, prefix.to_owned().concat("placement: ").as_str(), placement.as_str());
    push_line(
        &mut lines,
        prefix.to_owned().concat("title: ").as_str(),
        or_default(&tab.title, "dynamic"),
    );
    push_line(
        &mut lines,
        prefix.to_owned().concat("working_directory: ").as_str(),
        or_default(&tab.working_directory, "default"),
    );
    match &tab.command {
        Some(command) => {
            push_line(
                &mut lines,
                prefix.to_owned().concat("command: ").as_str(),
                command.display_label().as_str(),
            );
        },
        None => {
            push_line(
                &mut lines,
                prefix.to_owned().concat("shell: ").as_str(),
                format_optional_shell(tab.shell.as_ref()).as_str(),
            );
        },
    }
    push_line(
        &mut lines,
        prefix.to_owned().concat("env: ").as_str(),
        decimal_text(tab.env.len() as u128).concat(" variables").as_str(),
    );
    output.append(lines.as_str());
}

/// Adds the lines about the tab with this number.
pub fn format_startup_layout_tab(output: &mut String, tab_number: u128, tab: &LaunchTab)
    ensures
        final(output)@ == old(output)@ + numbered_tab_lines(tab_number as nat, tab@),
{
    let ghost before = output@;
    push_line(output, "- tab ", decimal_text(tab_number).as_str());
    format_startup_layout_tab_body(output, "  ", tab);
    proof {
        assert(output@ =~= before + numbered_tab_lines(tab_number as nat, tab@));
    }
}

/// The report of the window that `launch_options` opens.
pub fn format_startup_layout(launch_options: &LaunchOptions, startup_config_file: &str) -> (r:
    String)
    ensures
        r@ == layout_report(launch_options@, startup_config_file@),
{
    let ghost tabs = seq![launch_options@.initial_tab] + launch_options@.additional_tabs;
    let ghost parts = Seq::new(tabs.len(), |i: int| numbered_tab_lines((i + 1) as nat, tabs[i]));
    let mut output = String::new();
    push_line(&mut output, "startup_config_file: ", startup_config_file);
    proof {
        assert(output@ =~= labelled_line("startup_config_file: "@, startup_config_file@));
    }
    output.append("status: ok\n");
    push_line(
        &mut output,
        "tabs: ",
        decimal_text(launch_options.additional_tabs.len() as u128 + 1).as_str(),
    );
    output.append("new_terminal_tab:\n");
    format_startup_layout_tab_body(&mut output, "  ", &launch_options.new_terminal_tab);
    let ghost head = output@;
    format_startup_layout_tab(&mut output, 1, &launch_options.initial_tab);
    proof {
        assert(parts.take(0) =~= Seq::empty());
        lemma_concatenated_step(head, parts, 0);
        assert(head + concatenated(parts.take(0)) =~= head);
        assert(parts[0] == numbered_tab_lines(1, launch_options@.initial_tab));
    }
    let mut i: usize = 0;
    while i < launch_options.additional_tabs.len()
        invariant
            i <= launch_options.additional_tabs@.len(),
            tabs == seq![launch_options@.initial_tab] + launch_options@.additional_tabs,
            parts == Seq::new(tabs.len(), |i: int| numbered_tab_lines((i + 1) as nat, tabs[i])),
            output@ == head + concatenated(parts.take(i + 1)),
        decreases launch_options.additional_tabs@.len() - i,
    {
        let number: u128 = i as u128 + 2;
        format_startup_layout_tab(&mut output, number, &launch_options.additional_tabs[i]);
        proof {
            assert(parts[i + 1] == numbered_tab_lines(
                (i + 2) as nat,
                launch_options.additional_tabs@[i as int]@,
            ));
            lemma_concatenated_step(head, parts, i + 1);
        }
        i = i + 1;
    }
    proof {
        assert(parts.take(parts.len() as int) =~= parts);
    }
    output
}

/// The report of a valid startup configuration.
pub open spec fn validation_report(
    path: Seq<char>,
    validation: TerminalStartupConfigValidation,
) -> Seq<char> {
    labelled_line("startup_config_file: "@, path) + "status: ok\n"@ + labelled_line(
        "layouts: "@,
        decimal(validation.layout_count as nat),
    ) + labelled_line("tabs: "@, decimal(validation.tab_count as nat))
}

/// The report of a valid startup configuration.
pub fn format_startup_config_validation(
    startup_config_file: &str,
    validation: &TerminalStartupConfigValidation,
) -> (r: String)
    ensures
        r@ == validation_report(startup_config_file@, *validation),
{
    let mut output = String::new();
    push_line(&mut output, "startup_config_file: ", startup_config_file);
    proof {
        assert(output@ =~= labelled_line("startup_config_file: "@, startup_config_file@));
    }
    output.append("status: ok\n");
    push_line(&mut output, "layouts: ", decimal_text(validation.layout_count as u128).as_str());
    push_line(&mut output, "tabs: ", decimal_text(validation.tab_count as u128).as_str());
    output
}

/// Where the application keeps its files and directories.
#[derive(Clone, Debug, PartialEq, Eq)]
pub struct TerminalPaths {
    pub config_dir: String,
    pub data_dir: String,
    pub logs_dir: String,
    pub settings_file: String,
    pub startup_config_file: String,
    pub startup_config_schema_file: String,
    pub global_settings_file: String,
    pub keymap_file: String,
    pub themes_dir: String,
    pub log_file: String,
}

/// The report of where the application keeps its files.
pub fn format_terminal_paths(paths: &TerminalPaths) -> (r: String)
    ensures
        r@ == labelled_line("config_dir: "@, paths.config_dir@) + labelled_line(
            "data_dir: "@,
            paths.data_dir@,
        ) + labelled_line("logs_dir: "@, paths.logs_dir@) + labelled_line(
            "settings_file: "@,
            paths.settings_file@,
        ) + labelled_line("startup_config_file: "@, paths.startup_config_file@) + labelled_line(
            "startup_config_schema_file: "@,
            paths.startup_config_schema_file@,
        ) + labelled_line("global_settings_file: "@, paths.global_settings_file@) + labelled_line(
            "keymap_file: "@,
            paths.keymap_file@,
        ) + labelled_line("themes_dir: "@, paths.themes_dir@) + labelled_line(
            "log_file: "@,
            paths.log_file@,
        ),
{
    let mut output = String::new();
    push_line(&mut output, "config_dir: ", paths.config_dir.as_str());
    proof {
        assert(output@ =~= labelled_line("config_dir: "@, paths.config_dir@));
    }
    push_line(&mut output, "data_dir: ", paths.data_dir.as_str());
    push_line(&mut output, "logs_dir: ", paths.logs_dir.as_str());
    push_line(&mut output, "settings_file: ", paths.settings_file.as_str());
    push_line(&mut output, "startup_config_file: ", paths.startup_config_file.as_str());
    push_line(
        &mut output,
        "startup_config_schema_file: ",
        paths.startup_config_schema_file.as_str(),
    );
    push_line(&mut output, "global_settings_file: ", paths.global_settings_file.as_str());
    push_line(&mut output, "keymap_file: ", paths.keymap_file.as_str());
    push_line(&mut output, "themes_dir: ", paths.themes_dir.as_str());
    push_line(&mut output, "log_file: ", paths.log_file.as_str());
    output
}

} // verus!
