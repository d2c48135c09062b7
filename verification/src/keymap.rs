//! Validating the keymaps.

use crate::error::{in_context, outcome, StartupError};
use crate::report::{labelled_line, push_line};
use crate::text::{decimal, decimal_text};
use vstd::prelude::*;
use vstd::string::*;

verus! {

/// Where the user's keymap comes from.
#[derive(Clone, Copy, Debug, PartialEq, Eq, Structural)]
pub enum TerminalUserKeymapSource {
    /// The user's keymap file.
    File,
    /// What the keymap file would hold at first.
    Initial,
}

/// How a keymap source is shown.
pub open spec fn keymap_source_name(source: TerminalUserKeymapSource) -> Seq<char> {
    match source {
        TerminalUserKeymapSource::File => "file"@,
        TerminalUserKeymapSource::Initial => "initial"@,
    }
}

impl TerminalUserKeymapSource {
    /// How the source is shown.
    pub fn as_str(self) -> (r: &'static str)
        ensures
            r@ == keymap_source_name(self),
    {
        match self {
            TerminalUserKeymapSource::File => "file",
            TerminalUserKeymapSource::Initial => "initial",
        }
    }
}

impl DeepView for TerminalUserKeymapSource {
    type V = TerminalUserKeymapSource;

    open spec fn deep_view(&self) -> TerminalUserKeymapSource {
        *self
    }
}

/// What valid keymaps hold.
#[derive(Clone, Copy, Debug, PartialEq, Eq, Structural)]
pub struct TerminalKeymapValidation {
    pub default_binding_count: usize,
    pub user_binding_count: usize,
    pub user_keymap_source: TerminalUserKeymapSource,
}

impl DeepView for TerminalKeymapValidation {
    type V = TerminalKeymapValidation;

    open spec fn deep_view(&self) -> TerminalKeymapValidation {
        *self
    }
}

/// What was found when the user's keymap file was read.
#[derive(Clone, Debug, PartialEq, Eq)]
pub enum KeymapRead {
    Content(String),
    Missing,
    Failed { error: String },
}

/// What loading the text of a keymap gave.
#[derive(Clone, Debug, PartialEq, Eq)]
pub enum KeymapLoad {
    /// Every binding was loaded.
    Loaded { bindings: usize },
    /// Some bindings could not be loaded.
    SomeFailed { error: String },
    /// The text is no keymap.
    Malformed { error: String },
}

/// The text of the user's keymap and where it comes from.
pub open spec fn user_keymap(path: Seq<char>, read: KeymapRead, initial: Seq<char>) -> Result<
    (Seq<char>, TerminalUserKeymapSource),
    Seq<Seq<char>>,
> {
    match read {
        KeymapRead::Content(content) => Ok((content@, TerminalUserKeymapSource::File)),
        KeymapRead::Missing => Ok((initial, TerminalUserKeymapSource::Initial)),
        KeymapRead::Failed { error } => Err(
            seq!["failed to read terminal keymap "@ + path, error@],
        ),
    }
}

/// The text of the user's keymap and where it comes from: the file, or what
/// the file would hold at first where it is missing.
pub fn read_user_keymap_content(keymap_file: &str, read: KeymapRead, initial_content: &str) -> (r:
    Result<(String, TerminalUserKeymapSource), StartupError>)
    ensures
        outcome(r) == user_keymap(keymap_file@, read, initial_content@),
{
    match read {
        KeymapRead::Content(content) => Ok((content, TerminalUserKeymapSource::File)),
        KeymapRead::Missing => Ok(
            (initial_content.to_owned(), TerminalUserKeymapSource::Initial),
        ),
        KeymapRead::Failed { error } => {
            let message = "failed to read terminal keymap ".to_owned().concat(keymap_file);
            let failure = StartupError::new(error).context(message);
            proof {
                assert(failure@ =~= seq![message@, error@]);
            }
            Err(failure)
        },
    }
}

/// How many bindings a keymap has, if all of them could be loaded.
pub open spec fn loaded_bindings(label: Seq<char>, load: KeymapLoad) -> Result<
    usize,
    Seq<Seq<char>>,
> {
    match load {
        KeymapLoad::Loaded { bindings } => Ok(bindings),
        KeymapLoad::SomeFailed { error } => Err(seq![label + " has errors: "@ + error@]),
        KeymapLoad::Malformed { error } => Err(seq!["failed to parse "@ + label, error@]),
    }
}

/// How many bindings a keymap has, if all of them could be loaded. `label`
/// names the keymap in errors.
pub fn load_keymap_content_for_validation(label: &str, load: KeymapLoad) -> (r: Result<
    usize,
    StartupError,
>)
    ensures
        outcome(r) == loaded_bindings(label@, load),
{
    match load {
        KeymapLoad::Loaded { bindings } => Ok(bindings),
        KeymapLoad::SomeFailed { error } => {
            let mut message = label.to_owned().concat(" has errors: ");
            message.append(error.as_str());
            Err(StartupError::new(message))
        },
        KeymapLoad::Malformed { error } => {
            let message = "failed to parse ".to_owned().concat(label);
            let failure = StartupError::new(error).context(message);
            proof {
                assert(failure@ =~= seq![message@, error@]);
            }
            Err(failure)
        },
    }
}

/// What the keymaps hold, if both are valid. A problem with the default
/// keymap comes first, then one with reading the user's, then one with its
/// text.
pub open spec fn validated_keymaps(
    default_bindings: Result<usize, Seq<Seq<char>>>,
    source: Result<TerminalUserKeymapSource, Seq<Seq<char>>>,
    user_load: KeymapLoad,
) -> Result<TerminalKeymapValidation, Seq<Seq<char>>> {
    match in_context(default_bindings, "failed to validate zed terminal default keymap"@) {
        Ok(default_binding_count) => match source {
            Ok(user_keymap_source) => match loaded_bindings("terminal keymap file"@, user_load) {
                Ok(user_binding_count) => Ok(
                    TerminalKeymapValidation {
                        default_binding_count,
                        user_binding_count,
                        user_keymap_source,
                    },
                ),
                Err(messages) => Err(messages),
            },
            Err(messages) => Err(messages),
        },
        Err(messages) => Err(messages),
    }
}

/// What the keymaps hold, if both are valid: from the number of bindings in
/// the default keymap, where the user's keymap comes from, and what loading it
/// gave.
pub fn validate_keymaps(
    default_bindings: Result<usize, StartupError>,
    source: Result<TerminalUserKeymapSource, StartupError>,
    user_load: KeymapLoad,
) -> (r: Result<TerminalKeymapValidation, StartupError>)
    ensures
        outcome(r) == validated_keymaps(outcome(default_bindings), outcome(source), user_load),
{
    let default_binding_count: usize = match default_bindings {
        Ok(count) => count,
        Err(error) => {
            return Err(error.context("failed to validate zed terminal default keymap".to_owned()));
        },
    };
    let user_keymap_source = match source {
        Ok(source) => source,
        Err(error) => {
            return Err(error);
        },
    };
    match load_keymap_content_for_validation("terminal keymap file", user_load) {
        Ok(user_binding_count) => Ok(
            TerminalKeymapValidation {
                default_binding_count,
                user_binding_count,
                user_keymap_source,
            },
        ),
        Err(error) => Err(error),
    }
}

/// Whether the key bindings in use are replaced by those of a keymap that was
/// just loaded: all of them where it loaded whole, and what there is of them
/// where some failed. A keymap that cannot be read changes nothing.
pub fn replaces_key_bindings(load: &KeymapLoad, loaded_bindings: usize) -> (r: bool)
    ensures
        r == (match load {
            KeymapLoad::Loaded { .. } => true,
            KeymapLoad::SomeFailed { .. } => loaded_bindings > 0,
            KeymapLoad::Malformed { .. } => false,
        }),
{
    match load {
        KeymapLoad::Loaded { .. } => true,
        KeymapLoad::SomeFailed { .. } => loaded_bindings > 0,
        KeymapLoad::Malformed { .. } => false,
    }
}

/// The report of valid keymaps.
pub open spec fn keymap_report(path: Seq<char>, validation: TerminalKeymapValidation) -> Seq<char> {
    labelled_line("keymap_file: "@, path) + "status: ok\n"@ + labelled_line(
        "default_bindings: "@,
        decimal(validation.default_binding_count as nat),
    ) + labelled_line(
        "user_keymap_source: "@,
        keymap_source_name(validation.user_keymap_source),
    ) + labelled_line("user_bindings: "@, decimal(validation.user_binding_count as nat))
}

/// The report of valid keymaps.
pub fn format_keymap_validation(keymap_file: &str, validation: &TerminalKeymapValidation) -> (r:
    String)
    ensures
        r@ == keymap_report(keymap_file@, *validation),
{
    let mut output = String::new();
    push_line(&mut output, "keymap_file: ", keymap_file);
    proof {
        assert(output@ =~= labelled_line("keymap_file: "@, keymap_file@));
    }
    output.append("status: ok\n");
    push_line(
        &mut output,
        "default_bindings: ",
        decimal_text(validation.default_binding_count as u128).as_str(),
    );
    push_line(&mut output, "user_keymap_source: ", validation.user_keymap_source.as_str());
    push_line(
        &mut output,
        "user_bindings: ",
        decimal_text(validation.user_binding_count as u128).as_str(),
    );
    output
}

} // verus!
