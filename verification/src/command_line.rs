//! Command lines as `clap` describes and parses them.
//!
//! A `clap::Arg`, a `clap::Command` and a `clap::ArgMatches` are opaque; what each
//! holds is named by [`arg_model`], [`command_model`] and [`matches_model`], and
//! the functions below say over these names what the methods of `clap` do.
use vstd::prelude::*;
use vstd::string::*;

verus! {

#[verifier::external_type_specification]
#[verifier::external_body]
pub struct ExArg(clap::Arg);

#[verifier::external_type_specification]
#[verifier::external_body]
pub struct ExCommand(clap::Command);

#[verifier::external_type_specification]
#[verifier::external_body]
pub struct ExArgMatches(clap::ArgMatches);

/// What a `clap::Arg` was given.
#[verifier::ext_equal]
pub struct ArgModel {
    /// The name under which its value is looked up.
    pub id: Seq<char>,
    /// The name after `--`; an argument with neither this nor `short` is positional.
    pub long: Option<Seq<char>>,
    /// The character after `-`.
    pub short: Option<char>,
    /// Whether subcommands accept it too.
    pub global: bool,
    /// Whether it has to be given.
    pub required: bool,
    /// Whether its presence alone sets a flag.
    pub set_true: bool,
    /// Whether its value has to name a shell.
    pub shell_value: bool,
    /// The values that it has where none is given.
    pub defaults: Seq<Seq<char>>,
    /// Its help text.
    pub help: Option<Seq<char>>,
}

/// What a `clap::Command` was given.
#[verifier::ext_equal]
pub struct CommandModel {
    /// Its name.
    pub name: Seq<char>,
    /// Its version.
    pub version: Option<Seq<char>>,
    /// Its description.
    pub about: Option<Seq<char>>,
    /// Whether subcommands other than its own are accepted.
    pub external_subcommands: bool,
    /// Its arguments, in the order in which they were added.
    pub args: Seq<ArgModel>,
    /// Its subcommands, in the order in which they were added.
    pub subcommands: Seq<CommandModel>,
}

/// What a parsed command line holds.
pub struct MatchesModel {
    /// The first value of each argument that has text values.
    pub strings: Map<Seq<char>, Seq<char>>,
    /// The state of each argument that is a flag.
    pub flags: Map<Seq<char>, bool>,
    /// The name of the shell given for each argument that takes a shell.
    pub shells: Map<Seq<char>, Seq<char>>,
    /// The values that follow the name of an external subcommand, as text.
    pub rest: Seq<Seq<char>>,
    /// The subcommand that was called, and what was parsed after it.
    pub sub: Option<(Seq<char>, Box<MatchesModel>)>,
}

/// What `arg` holds: what its getters `get_id`, `get_long`, `get_short`,
/// `is_global_set`, `is_required_set`, `get_action`, `get_value_parser`,
/// `get_default_values` and `get_help` read.
pub uninterp spec fn arg_model(arg: clap::Arg) -> ArgModel;

/// What `command` holds: what its getters `get_name`, `get_version`, `get_about`,
/// `is_allow_external_subcommands_set`, `get_arguments` and `get_subcommands` read.
pub uninterp spec fn command_model(command: clap::Command) -> CommandModel;

/// What `matches` holds: what `try_get_one` at the types `String`, `bool` and
/// `Shell`, `try_get_raw` at the empty name and `subcommand` read.
pub uninterp spec fn matches_model(matches: clap::ArgMatches) -> MatchesModel;

/// An argument that was given nothing but its name.
pub open spec fn bare_arg(id: Seq<char>) -> ArgModel {
    ArgModel {
        id,
        long: None,
        short: None,
        global: false,
        required: false,
        set_true: false,
        shell_value: false,
        defaults: Seq::empty(),
        help: None,
    }
}

/// A command that was given nothing but its name.
pub open spec fn bare_command(name: Seq<char>) -> CommandModel {
    CommandModel {
        name,
        version: None,
        about: None,
        external_subcommands: false,
        args: Seq::empty(),
        subcommands: Seq::empty(),
    }
}

/// `clap::Arg::new`: an argument that holds its name and nothing else.
#[verifier::external_body]
pub(crate) fn arg_new(id: &str) -> (r: clap::Arg)
    ensures
        arg_model(r) == bare_arg(id@),
{
    clap::Arg::new(id.to_string())
}

/// `clap::Arg::long`: sets the long name and keeps the rest.
#[verifier::external_body]
pub(crate) fn arg_long(arg: clap::Arg, long: &str) -> (r: clap::Arg)
    ensures
        arg_model(r) == (ArgModel { long: Some(long@), ..arg_model(arg) }),
{
    arg.long(long.to_string())
}

/// `clap::Arg::short`: sets the short name, which must not be `-`, and keeps the rest.
#[verifier::external_body]
pub(crate) fn arg_short(arg: clap::Arg, short: char) -> (r: clap::Arg)
    requires
        short != '-',
    ensures
        arg_model(r) == (ArgModel { short: Some(short), ..arg_model(arg) }),
{
    arg.short(short)
}

/// `clap::Arg::global` with `true`: subcommands accept the argument too.
#[verifier::external_body]
pub(crate) fn arg_global(arg: clap::Arg) -> (r: clap::Arg)
    ensures
        arg_model(r) == (ArgModel { global: true, ..arg_model(arg) }),
{
    arg.global(true)
}

/// `clap::Arg::required` with `true`: the argument has to be given.
#[verifier::external_body]
pub(crate) fn arg_required(arg: clap::Arg) -> (r: clap::Arg)
    ensures
        arg_model(r) == (ArgModel { required: true, ..arg_model(arg) }),
{
    arg.required(true)
}

/// `clap::Arg::action` with `ArgAction::SetTrue`: the argument is a flag.
#[verifier::external_body]
pub(crate) fn arg_set_true(arg: clap::Arg) -> (r: clap::Arg)
    ensures
        arg_model(r) == (ArgModel { set_true: true, ..arg_model(arg) }),
{
    arg.action(clap::ArgAction::SetTrue)
}

/// `clap::Arg::value_parser` with the parser for `clap_complete::Shell`: only the
/// names of shells are accepted as values.
#[verifier::external_body]
pub(crate) fn arg_shell_value(arg: clap::Arg) -> (r: clap::Arg)
    ensures
        arg_model(r) == (ArgModel { shell_value: true, ..arg_model(arg) }),
{
    arg.value_parser(clap::builder::EnumValueParser::<clap_complete::Shell>::new())
}

/// `clap::Arg::default_value`: the given value becomes the only default.
#[verifier::external_body]
pub(crate) fn arg_default(arg: clap::Arg, value: &str) -> (r: clap::Arg)
    ensures
        arg_model(r) == (ArgModel { defaults: seq![value@], ..arg_model(arg) }),
{
    arg.default_value(value.to_string())
}

/// `clap::Arg::help`: sets the help text and keeps the rest.
#[verifier::external_body]
pub(crate) fn arg_help(arg: clap::Arg, help: &str) -> (r: clap::Arg)
    ensures
        arg_model(r) == (ArgModel { help: Some(help@), ..arg_model(arg) }),
{
    arg.help(help.to_string())
}

/// `clap::Command::new`: a command that holds its name and nothing else.
#[verifier::external_body]
pub(crate) fn command_new(name: &str) -> (r: clap::Command)
    ensures
        command_model(r) == bare_command(name@),
{
    clap::Command::new(name.to_string())
}

/// `clap::Command::version`: sets the version and keeps the rest.
#[verifier::external_body]
pub(crate) fn command_version(command: clap::Command, version: &str) -> (r: clap::Command)
    ensures
        command_model(r) == (CommandModel { version: Some(version@), ..command_model(command) }),
{
    command.version(version.to_string())
}

/// `clap::Command::about`: sets the description and keeps the rest.
#[verifier::external_body]
pub(crate) fn command_about(command: clap::Command, about: &str) -> (r: clap::Command)
    ensures
        command_model(r) == (CommandModel { about: Some(about@), ..command_model(command) }),
{
    command.about(about.to_string())
}

/// `clap::Command::arg`: adds the argument after those that are there.
#[verifier::external_body]
pub(crate) fn command_arg(command: clap::Command, arg: clap::Arg) -> (r: clap::Command)
    ensures
        command_model(r) == (CommandModel {
            args: command_model(command).args.push(arg_model(arg)),
            ..command_model(command)
        }),
{
    command.arg(arg)
}

/// `clap::Command::subcommand`: adds the subcommand after those that are there.
#[verifier::external_body]
pub(crate) fn command_subcommand(command: clap::Command, sub: clap::Command) -> (r: clap::Command)
    ensures
        command_model(r) == (CommandModel {
            subcommands: command_model(command).subcommands.push(command_model(sub)),
            ..command_model(command)
        }),
{
    command.subcommand(sub)
}

/// `clap::Command::allow_external_subcommands` with `true`: subcommands other than
/// the command's own are accepted.
#[verifier::external_body]
pub(crate) fn command_external_subcommands(command: clap::Command) -> (r: clap::Command)
    ensures
        command_model(r) == (CommandModel { external_subcommands: true, ..command_model(command) }),
{
    command.allow_external_subcommands(true)
}

/// The text under `id`, if there is one.
pub open spec fn text_under(map: Map<Seq<char>, Seq<char>>, id: Seq<char>) -> Option<Seq<char>> {
    if map.contains_key(id) {
        Some(map[id])
    } else {
        None
    }
}

/// `clap::ArgMatches::try_get_one` at the type `String`: the first value of an
/// argument with text values; nothing where the argument has no value, does not
/// exist or has values of another type.
#[verifier::external_body]
pub(crate) fn matched_string(matches: &clap::ArgMatches, id: &str) -> (r: Option<String>)
    ensures
        crate::text::opt_text(r) == text_under(matches_model(*matches).strings, id@),
{
    matches.try_get_one::<String>(id).ok().flatten().cloned()
}

/// `clap::ArgMatches::try_get_one` at the type `bool`: the state of a flag; nothing
/// where the argument does not exist or is no flag.
#[verifier::external_body]
pub(crate) fn matched_flag(matches: &clap::ArgMatches, id: &str) -> (r: Option<bool>)
    ensures
        r == (if matches_model(*matches).flags.contains_key(id@) {
            Some(matches_model(*matches).flags[id@])
        } else {
            None
        }),
{
    matches.try_get_one::<bool>(id).ok().flatten().copied()
}

/// `clap::ArgMatches::try_get_one` at the type `clap_complete::Shell`: the name of
/// the shell that was given; nothing where none was, or the argument takes none.
#[verifier::external_body]
pub(crate) fn matched_shell(matches: &clap::ArgMatches, id: &str) -> (r: Option<String>)
    ensures
        crate::text::opt_text(r) == text_under(matches_model(*matches).shells, id@),
{
    matches.try_get_one::<clap_complete::Shell>(id).ok().flatten().map(|s| s.to_string())
}

/// `clap::ArgMatches::try_get_raw` at the empty name, under which `clap` keeps what
/// follows the name of an external subcommand; each value as text, with what is not
/// Unicode replaced.
#[verifier::external_body]
pub(crate) fn matched_rest(matches: &clap::ArgMatches) -> (r: Vec<String>)
    ensures
        crate::text::texts(r@) == matches_model(*matches).rest,
{
    let values = matches.try_get_raw("").ok().flatten();
    values.into_iter().flatten().map(|v| v.to_string_lossy().to_string()).collect()
}

/// `clap::ArgMatches::subcommand`: the subcommand that was called and what was
/// parsed after it.
#[verifier::external_body]
pub(crate) fn matched_subcommand(matches: &clap::ArgMatches) -> (r: Option<(&str, &clap::ArgMatches)>)
    ensures
        match r {
            Some((name, rest)) => matches_model(*matches).sub == Some(
                (name@, Box::new(matches_model(*rest))),
            ),
            None => matches_model(*matches).sub is None,
        },
{
    matches.subcommand()
}

} // verus!
