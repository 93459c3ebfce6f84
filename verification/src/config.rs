//! What is known of a machine: the sections of the configuration file, each
//! under the machine's name, and the errors of a run.

use vstd::prelude::*;
use crate::address::IpAddress;
use crate::broadcast::TransmissionError;

verus! {

/// `toml::de::Error`, the error of the TOML parser. The library carries such
/// a value from the parser to the caller and claims nothing of it.
#[verifier::external_type_specification]
#[verifier::external_body]
pub struct ExTomlError(toml::de::Error);

/// The command that puts a machine to sleep, with its arguments.
#[derive(Debug, Clone)]
pub struct SleepCommand {
    pub cmd: String,
    pub args: Vec<String>,
}

/// One section of the configuration file: how to wake a machine and, if the
/// section says so, how to put it to sleep.
#[derive(Debug, Clone)]
pub struct WOLConfig {
    pub mac_address: [u8; 6],
    pub port: Option<u16>,
    pub broadcast_address: Option<IpAddress>,
    pub sleep_command: Option<SleepCommand>,
}

/// A variable in the path of the configuration file that could not be looked
/// up: its name and the reason, in words.
#[derive(Debug, Clone)]
pub struct LookupError {
    pub var_name: String,
    pub cause: String,
}

/// Why a run of the tool failed.
#[derive(Debug)]
pub enum RunError {
    /// General IO error
    IOErr(std::io::Error),
    /// Could not parse config
    TomlParseErr(toml::de::Error),
    /// Could not expand config path
    CouldNotExpand(LookupError),
    /// No sleep command found in config
    NoSleepCommand,
    /// Error during sleep command
    SleepCommandFailed,
    /// Could not find the section
    UnknownSection { section_name: String },
}

impl RunError {
    /// The error for a configuration that has no section called `name`.
    pub fn unknown_section(name: &str) -> (error: RunError)
        ensures
            error matches RunError::UnknownSection { section_name } && section_name@ == name@,
    {
        RunError::UnknownSection { section_name: name.to_owned() }
    }
}

/// Whether one of `sections` is called `name`.
pub open spec fn has_section(sections: Seq<(String, WOLConfig)>, name: Seq<char>) -> bool {
    exists|i: int| 0 <= i < sections.len() && (#[trigger] sections[i]).0@ == name
}

/// Whether `sections[index]` is the first section called `name`.
pub open spec fn is_first_section(
    sections: Seq<(String, WOLConfig)>,
    name: Seq<char>,
    index: int,
) -> bool {
    &&& 0 <= index < sections.len()
    &&& sections[index].0@ == name
    &&& forall|j: int| 0 <= j < index ==> (#[trigger] sections[j]).0@ != name
}

/// Picks the section called `section_name` out of the sections of a
/// configuration file.
///
/// The result is the configuration of the first section of that name, and
/// `UnknownSection` with the name that was asked for when there is none.
pub fn find_section(sections: Vec<(String, WOLConfig)>, section_name: &str) -> (found: Result<
    WOLConfig,
    RunError,
>)
    ensures
        match found {
            Ok(config) => exists|i: int|
                is_first_section(sections@, section_name@, i) && (#[trigger] sections@[i]).1
                    == config,
            Err(error) => {
                &&& !has_section(sections@, section_name@)
                &&& error matches RunError::UnknownSection { section_name: name }
                &&& name@ == section_name@
            },
        },
{
    let mut rest = sections;
    let wanted = section_name.to_owned();
    let mut index: usize = 0;
    while index < rest.len()
        invariant
            rest@ == sections@,
            wanted@ == section_name@,
            index <= rest.len(),
            forall|j: int| 0 <= j < index ==> (#[trigger] sections@[j]).0@ != section_name@,
        decreases rest.len() - index,
    {
        if rest[index].0 == wanted {
            let (_, config) = rest.swap_remove(index);
            assert(is_first_section(sections@, section_name@, index as int));
            assert(sections@[index as int].1 == config);
            return Ok(config);
        }
        index += 1;
    }
    Err(RunError::unknown_section(section_name))
}

impl From<std::io::Error> for RunError {
    fn from(error: std::io::Error) -> (wrapped: RunError) {
        RunError::IOErr(error)
    }
}

impl vstd::std_specs::convert::FromSpecImpl<std::io::Error> for RunError {
    open spec fn obeys_from_spec() -> bool {
        true
    }

    open spec fn from_spec(error: std::io::Error) -> RunError {
        RunError::IOErr(error)
    }
}

impl From<toml::de::Error> for RunError {
    fn from(error: toml::de::Error) -> (wrapped: RunError) {
        RunError::TomlParseErr(error)
    }
}

impl vstd::std_specs::convert::FromSpecImpl<toml::de::Error> for RunError {
    open spec fn obeys_from_spec() -> bool {
        true
    }

    open spec fn from_spec(error: toml::de::Error) -> RunError {
        RunError::TomlParseErr(error)
    }
}

impl From<LookupError> for RunError {
    fn from(error: LookupError) -> (wrapped: RunError) {
        RunError::CouldNotExpand(error)
    }
}

impl vstd::std_specs::convert::FromSpecImpl<LookupError> for RunError {
    open spec fn obeys_from_spec() -> bool {
        true
    }

    open spec fn from_spec(error: LookupError) -> RunError {
        RunError::CouldNotExpand(error)
    }
}

/// A transmission that failed is an IO error of the run: the platform's
/// error is kept, the stage is dropped.
impl From<TransmissionError> for RunError {
    fn from(error: TransmissionError) -> (wrapped: RunError) {
        RunError::IOErr(error.cause)
    }
}

impl vstd::std_specs::convert::FromSpecImpl<TransmissionError> for RunError {
    open spec fn obeys_from_spec() -> bool {
        true
    }

    open spec fn from_spec(error: TransmissionError) -> RunError {
        RunError::IOErr(error.cause)
    }
}

/// Whether the path of a configuration file can be handed to the shell-like
/// expansion: every `$` in it is the last character or stands before an
/// ASCII character.
///
/// This is on the safe side. The expansion only trips over a `$` that it
/// reads as the start of a variable's name when the name begins with a
/// character wider than one byte; which `$` it reads so can depend on the
/// values of the variables before it.
pub open spec fn expandable(path: Seq<char>) -> bool {
    forall|i: int|
        0 <= i && i + 1 < path.len() && #[trigger] path[i] == '$' ==> path[i + 1] <= '\u{7f}'
}

/// Whether `path` names no variable at all: no `$` occurs in it.
pub open spec fn free_of_variables(path: Seq<char>) -> bool {
    forall|i: int| 0 <= i < path.len() ==> #[trigger] path[i] != '$'
}

/// Whether the expansion has nothing to replace in `path`: it names no
/// variable and does not begin with `~`.
pub open spec fn is_literal(path: Seq<char>) -> bool {
    &&& free_of_variables(path)
    &&& path.len() > 0 ==> path[0] != '~'
}

/// Whether `name` stands in `path` as the name of a variable: directly
/// behind a `$`, or behind a `$` and an opening brace.
pub open spec fn names_variable(path: Seq<char>, name: Seq<char>) -> bool {
    exists|i: int|
        0 <= i < path.len() && #[trigger] path[i] == '$' && {
            ||| name.is_prefix_of(path.skip(i + 1))
            ||| i + 1 < path.len() && path[i + 1] == '{' && name.is_prefix_of(path.skip(i + 2))
        }
}

/// Calls `shellexpand::full`, which replaces a leading `~` by the home
/// directory and `$NAME` or `${NAME}` by the value of that environment
/// variable.
///
/// What comes back depends on the environment, so only this is claimed of
/// it. A failure names a variable that the path holds. A path with nothing to
/// replace comes back as it is. Where only the `~` can be replaced, what
/// stands behind the first character of the path ends the result.
///
/// `shellexpand` cuts the text two bytes behind a `$` that starts a name, and
/// panics where a wider character begins there: `expandable` keeps such
/// paths away.
#[verifier::external_body]
fn shell_expand(path: &str) -> (expanded: Result<String, LookupError>)
    requires
        expandable(path@),
    ensures
        expanded matches Err(error) ==> names_variable(path@, error.var_name@),
        expanded matches Ok(text) ==> (is_literal(path@) ==> text@ == path@),
        expanded matches Ok(text) ==> (free_of_variables(path@) && path@.len() > 0
            ==> path@.skip(1).is_suffix_of(text@)),
{
    match shellexpand::full(path) {
        Ok(text) => Ok(text.into_owned()),
        Err(error) => Err(LookupError { var_name: error.var_name, cause: error.cause.to_string() }),
    }
}

/// Says whether `path` can be handed to [`expand_path`].
pub fn can_expand(path: &str) -> (fits: bool)
    ensures
        fits == expandable(path@),
{
    let mut behind_dollar = false;
    for c in it: path.chars()
        invariant
            it.seq() == path@,
            behind_dollar == (it.index() > 0 && path@[it.index() - 1] == '$'),
            forall|i: int|
                0 <= i && i + 1 < it.index() && #[trigger] path@[i] == '$' ==> path@[i + 1]
                    <= '\u{7f}',
    {
        if behind_dollar && c > '\u{7f}' {
            return false;
        }
        behind_dollar = c == '$';
    }
    true
}

/// Expands the path of the configuration file as a shell would: a leading
/// `~` becomes the home directory, `$NAME` and `${NAME}` the value of the
/// environment variable `NAME`.
///
/// The expansion reads the environment of the process, so the result is not
/// a function of `path`. A path that names no variable is always expanded;
/// it comes back unchanged if it does not begin with `~` either, and
/// otherwise keeps all that stands behind the `~`. The only error is
/// `CouldNotExpand`, and it names a variable that stands in `path`.
pub fn expand_path(path: &str) -> (expanded: Result<String, RunError>)
    requires
        expandable(path@),
    ensures
        free_of_variables(path@) ==> expanded is Ok,
        expanded matches Ok(text) ==> (is_literal(path@) ==> text@ == path@),
        expanded matches Ok(text) ==> (free_of_variables(path@) && path@.len() > 0
            ==> path@.skip(1).is_suffix_of(text@)),
        expanded matches Err(error) ==> error matches RunError::CouldNotExpand(lookup)
            && names_variable(path@, lookup.var_name@),
{
    match shell_expand(path) {
        Ok(text) => Ok(text),
        Err(error) => Err(RunError::from(error)),
    }
}

} // verus!
