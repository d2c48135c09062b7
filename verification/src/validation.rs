//! Validating the startup configuration as a whole.

use crate::config::{configured_shell_option, optional_shell, ConfigView, ProfileConfigView};
use crate::config::TerminalStartupConfig;
use crate::directory::{Inspections, WorkingDirectories};
use crate::error::{in_context, outcome, StartupError};
use crate::launch_tab::LaunchTab;
use crate::layout::{
    configured_tabs, first_tab, missing_profile, profile_layout, root_layout, LayoutView,
    TerminalStartupLayout,
};
use crate::name_map::{has_name, NameMap};
use crate::text::{quote, quoted, trim, trimmed};
use vstd::prelude::*;
use vstd::string::*;

verus! {

/// What a valid startup configuration holds.
#[derive(Clone, Copy, Debug, PartialEq, Eq, Structural)]
pub struct TerminalStartupConfigValidation {
    /// How many layouts there are: the root layout and one for each profile.
    pub layout_count: usize,
    /// How many tabs all layouts open together.
    pub tab_count: usize,
}

impl DeepView for TerminalStartupConfigValidation {
    type V = TerminalStartupConfigValidation;

    open spec fn deep_view(&self) -> TerminalStartupConfigValidation {
        *self
    }
}

/// A count as a machine number; one that is too large is cut off.
pub open spec fn capped(n: nat) -> usize {
    if n <= usize::MAX {
        n as usize
    } else {
        usize::MAX
    }
}

/// Why a field may not name this profile, if so.
pub open spec fn reference_problem(
    config: ConfigView,
    field: Seq<char>,
    name: Seq<char>,
) -> Option<Seq<char>> {
    if trimmed(name).len() == 0 {
        Some(field + " is empty"@)
    } else if !has_name(config.profiles, name) {
        Some(missing_profile(field + " references missing startup profile: "@, name, config))
    } else {
        None
    }
}

/// How many tabs a layout opens, if every one of them resolves.
pub open spec fn validated_layout(
    config: ConfigView,
    layout: LayoutView,
    directories: Inspections,
) -> Result<nat, Seq<Seq<char>>> {
    match in_context(
        configured_shell_option(layout.shell),
        "failed to resolve shell for "@ + layout.label,
    ) {
        Ok(shell) => match first_tab(layout, shell, directories) {
            Ok(_) => match configured_tabs(
                config,
                layout.tabs,
                layout.env,
                shell,
                layout.label,
                directories,
            ) {
                Ok(_) => Ok(1 + layout.tabs.len()),
                Err(messages) => Err(messages),
            },
            Err(messages) => Err(messages),
        },
        Err(messages) => Err(messages),
    }
}

/// How many tabs a profile opens, if its name is not blank and every tab
/// resolves.
pub open spec fn validated_profile(
    config: ConfigView,
    name: Seq<char>,
    profile: ProfileConfigView,
    directories: Inspections,
) -> Result<nat, Seq<Seq<char>>> {
    if trimmed(name).len() == 0 {
        Err(seq!["startup profile name is empty"@])
    } else {
        in_context(
            validated_layout(config, profile_layout(name, profile), directories),
            "failed to validate startup profile "@ + quoted(name),
        )
    }
}

/// How many tabs these profiles open together; the first that fails decides
/// the error.
pub open spec fn validated_profiles(
    config: ConfigView,
    profiles: Seq<(Seq<char>, ProfileConfigView)>,
    directories: Inspections,
) -> Result<nat, Seq<Seq<char>>>
    decreases profiles.len(),
{
    if profiles.len() == 0 {
        Ok(0)
    } else {
        match validated_profiles(config, profiles.drop_last(), directories) {
            Ok(front) => match validated_profile(
                config,
                profiles.last().0,
                profiles.last().1,
                directories,
            ) {
                Ok(last) => Ok(front + last),
                Err(messages) => Err(messages),
            },
            Err(messages) => Err(messages),
        }
    }
}

/// What a startup configuration holds, if its default profile exists and all
/// its layouts resolve.
pub open spec fn validated(config: ConfigView, directories: Inspections) -> Result<
    TerminalStartupConfigValidation,
    Seq<Seq<char>>,
> {
    let problem = match config.default_profile {
        Some(name) => reference_problem(config, "default_profile"@, name),
        None => None,
    };
    match problem {
        Some(problem) => Err(seq![problem]),
        None => match validated_layout(config, root_layout(config), directories) {
            Ok(root) => match validated_profiles(config, config.profiles, directories) {
                Ok(others) => Ok(
                    TerminalStartupConfigValidation {
                        layout_count: capped(1 + config.profiles.len()),
                        tab_count: capped(root + others),
                    },
                ),
                Err(messages) => Err(messages),
            },
            Err(messages) => Err(messages),
        },
    }
}

/// Once some profile has failed, its error stands for all of them.
proof fn lemma_first_failing_profile(
    config: ConfigView,
    profiles: Seq<(Seq<char>, ProfileConfigView)>,
    n: int,
    directories: Inspections,
)
    requires
        0 <= n <= profiles.len(),
        validated_profiles(config, profiles.take(n), directories) is Err,
    ensures
        validated_profiles(config, profiles, directories) == validated_profiles(
            config,
            profiles.take(n),
            directories,
        ),
    decreases profiles.len() - n,
{
    if n == profiles.len() {
        assert(profiles.take(n) =~= profiles);
    } else {
        assert(profiles.take(n + 1).drop_last() =~= profiles.take(n));
        lemma_first_failing_profile(config, profiles, n + 1, directories);
    }
}

impl TerminalStartupConfig {
    /// A field that names a profile must name one that exists.
    pub fn validate_profile_reference(&self, field: &str, profile_name: &str) -> (r: Result<
        (),
        StartupError,
    >)
        ensures
            match reference_problem(self@, field@, profile_name@) {
                Some(problem) => r matches Err(error) && error@ == seq![problem],
                None => r is Ok,
            },
    {
        if trim(profile_name).is_empty() {
            return Err(StartupError::new(field.to_owned().concat(" is empty")));
        }
        if !self.profiles.contains_name(profile_name) {
            let message = field.to_owned().concat(" references missing startup profile: ");
            return Err(
                StartupError::new(self.missing_profile_message(message.as_str(), profile_name)),
            );
        }
        Ok(())
    }

    /// Resolves every tab of a layout and counts them.
    pub fn validate_layout(
        &self,
        layout: &TerminalStartupLayout<'_>,
        directories: &WorkingDirectories,
    ) -> (r: Result<TerminalStartupConfigValidation, StartupError>)
        ensures
            match validated_layout(self@, layout@, directories.entries()) {
                Ok(tabs) => r matches Ok(validation) && validation.layout_count == 1
                    && validation.tab_count == capped(tabs),
                Err(messages) => r matches Err(error) && error@ == messages,
            },
    {
        let shell = match optional_shell(layout.shell) {
            Ok(shell) => shell,
            Err(error) => {
                return Err(
                    error.context(
                        "failed to resolve shell for ".to_owned().concat(layout.label.as_str()),
                    ),
                );
            },
        };
        match LaunchTab::from_config(
            layout.working_directory,
            layout.command,
            layout.env,
            &NameMap::new(),
            layout.title,
            shell.as_ref(),
            None,
            None,
            "initial tab for ".to_owned().concat(layout.label.as_str()).as_str(),
            directories,
        ) {
            Ok(_) => {},
            Err(error) => {
                return Err(error);
            },
        }
        match self.tabs_from_config(
            layout.tabs,
            layout.env,
            shell.as_ref(),
            layout.label.as_str(),
            directories,
        ) {
            Ok(_) => {},
            Err(error) => {
                return Err(error);
            },
        }
        Ok(
            TerminalStartupConfigValidation {
                layout_count: 1,
                tab_count: layout.tabs.len().saturating_add(1),
            },
        )
    }

    /// Checks that the default profile exists and that all layouts resolve,
    /// and counts the layouts and their tabs.
    #[verifier::loop_isolation(false)]
    pub fn validate(&self, directories: &WorkingDirectories) -> (r: Result<
        TerminalStartupConfigValidation,
        StartupError,
    >)
        ensures
            outcome(r) == validated(self@, directories.entries()),
    {
        if let Some(default_profile) = &self.default_profile {
            match self.validate_profile_reference("default_profile", default_profile.as_str()) {
                Ok(_) => {},
                Err(error) => {
                    return Err(error);
                },
            }
        }
        let mut validation = match self.validate_layout(&self.layout_of_root(), directories) {
            Ok(validation) => validation,
            Err(error) => {
                return Err(error);
            },
        };
        let ghost root = validated_layout(self@, root_layout(self@), directories.entries())->Ok_0;
        let ghost all = self.profiles.entries();
        let mut i: usize = 0;
        proof {
            assert(all.take(0) =~= Seq::empty());
        }
        while i < self.profiles.len()
            invariant
                i <= all.len(),
                all == self.profiles.entries(),
                validated_profiles(self@, all.take(i as int), directories.entries()) is Ok,
                validation.layout_count == capped((1 + i) as nat),
                validation.tab_count == capped(
                    root + validated_profiles(
                        self@,
                        all.take(i as int),
                        directories.entries(),
                    )->Ok_0,
                ),
            decreases all.len() - i,
        {
            proof {
                assert(all.take(i + 1).drop_last() =~= all.take(i as int));
                assert(all.take(i + 1).last() == all[i as int]);
            }
            match self.validate_profile(i, directories) {
                Ok(profile_validation) => {
                    validation = TerminalStartupConfigValidation {
                        layout_count: validation.layout_count.saturating_add(
                            profile_validation.layout_count,
                        ),
                        tab_count: validation.tab_count.saturating_add(
                            profile_validation.tab_count,
                        ),
                    };
                },
                Err(error) => {
                    proof {
                        lemma_first_failing_profile(self@, all, i + 1, directories.entries());
                    }
                    return Err(error);
                },
            }
            i = i + 1;
        }
        proof {
            assert(all.take(all.len() as int) =~= all);
        }
        Ok(validation)
    }

    fn validate_profile(&self, index: usize, directories: &WorkingDirectories) -> (r: Result<
        TerminalStartupConfigValidation,
        StartupError,
    >)
        requires
            index < self.profiles.entries().len(),
        ensures
            match validated_profile(
                self@,
                self@.profiles[index as int].0,
                self@.profiles[index as int].1,
                directories.entries(),
            ) {
                Ok(tabs) => r matches Ok(validation) && validation.layout_count == 1
                    && validation.tab_count == capped(tabs),
                Err(messages) => r matches Err(error) && error@ == messages,
            },
    {
        let name = self.profiles.name_at(index).as_str();
        if trim(name).is_empty() {
            return Err(StartupError::from_text("startup profile name is empty"));
        }
        let layout = self.profiles.value_at(index).layout(name);
        match self.validate_layout(&layout, directories) {
            Ok(validation) => Ok(validation),
            Err(error) => Err(
                error.context(
                    "failed to validate startup profile ".to_owned().concat(quote(name).as_str()),
                ),
            ),
        }
    }
}

} // verus!
