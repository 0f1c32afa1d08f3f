//! The command line that the program offers.
use vstd::prelude::*;
use vstd::string::*;
use crate::catalog::{
    external_views, ArgDef, ArgDefView, CliCommand, CliCommandView, ExternalCli, ExternalCliView,
    Registry, Site, SiteView,
};
use crate::command_line::{
    arg_default, arg_global, arg_help, arg_long, arg_model, arg_new, arg_required, arg_set_true,
    arg_shell_value, arg_short, bare_arg, bare_command, command_about, command_arg,
    command_external_subcommands, command_model, command_new, command_subcommand, command_version,
    ArgModel, CommandModel, MatchesModel,
};
use crate::dispatch::{is_builtin, request};
use crate::json::{json_text, plain_text, value_plain_text, Json};

verus! {

/// A flag of the given name.
pub open spec fn flag_model(name: Seq<char>, help: Seq<char>) -> ArgModel {
    ArgModel { long: Some(name), set_true: true, help: Some(help), ..bare_arg(name) }
}

/// An option of the given name.
pub open spec fn option_model(name: Seq<char>, help: Seq<char>) -> ArgModel {
    ArgModel { long: Some(name), help: Some(help), ..bare_arg(name) }
}

/// A positional argument of the given name that has to be given.
pub open spec fn positional_model(name: Seq<char>, help: Seq<char>) -> ArgModel {
    ArgModel { required: true, help: Some(help), ..bare_arg(name) }
}

/// A subcommand of the given name with the given arguments.
pub open spec fn subcommand_model(
    name: Seq<char>,
    about: Seq<char>,
    args: Seq<ArgModel>,
) -> CommandModel {
    CommandModel { about: Some(about), args, ..bare_command(name) }
}

/// The argument that selects the output format.
pub open spec fn format_model() -> ArgModel {
    ArgModel {
        long: Some("format"@),
        short: Some('f'),
        global: true,
        defaults: seq!["table"@],
        help: Some("Output format: table, json, yaml, csv, md"@),
        ..bare_arg("format"@)
    }
}

/// The argument that asks for more output.
pub open spec fn verbose_model() -> ArgModel {
    ArgModel {
        long: Some("verbose"@),
        short: Some('v'),
        global: true,
        set_true: true,
        help: Some("Enable verbose output"@),
        ..bare_arg("verbose"@)
    }
}

/// The argument that stands for an argument of a site command: positional, or an
/// option under its own name; with its description, and with its default as it
/// stands on a command line.
pub open spec fn site_arg_model(def: ArgDefView) -> ArgModel {
    ArgModel {
        long: if def.positional {
            None
        } else {
            Some(def.name)
        },
        required: def.required,
        defaults: match def.default {
            Some(json) => seq![plain_text(json)],
            None => Seq::empty(),
        },
        help: def.description,
        ..bare_arg(def.name)
    }
}

/// The subcommand that stands for a command of a site.
pub open spec fn site_command_model(cmd: CliCommandView) -> CommandModel {
    subcommand_model(
        cmd.name,
        cmd.description,
        cmd.args.map_values(|d: ArgDefView| site_arg_model(d)),
    )
}

/// The subcommand that stands for a site.
pub open spec fn site_model(site: SiteView) -> CommandModel {
    CommandModel {
        subcommands: site.commands.map_values(|c: CliCommandView| site_command_model(c)),
        ..bare_command(site.name)
    }
}

/// The subcommand that stands for an external program.
pub open spec fn external_model(ext: ExternalCliView) -> CommandModel {
    CommandModel {
        about: Some(ext.description),
        external_subcommands: true,
        ..bare_command(ext.name)
    }
}

/// The subcommand `doctor`.
pub open spec fn doctor_model() -> CommandModel {
    subcommand_model("doctor"@, "Run diagnostics checks"@, Seq::empty())
}

/// The subcommand `completion`.
pub open spec fn completion_model() -> CommandModel {
    subcommand_model(
        "completion"@,
        "Generate shell completions"@,
        seq![
            ArgModel {
                shell_value: true,
                ..positional_model("shell"@, "Target shell: bash, zsh, fish, powershell"@)
            },
        ],
    )
}

/// The subcommand `explore`.
pub open spec fn explore_model() -> CommandModel {
    subcommand_model(
        "explore"@,
        "Explore a website's API surface and discover endpoints"@,
        seq![
            positional_model("url"@, "URL to explore"@),
            option_model("site"@, "Override site name"@),
            option_model("goal"@, "Hint for capability naming (e.g. search, hot)"@),
            ArgModel { defaults: seq!["3"@], ..option_model("wait"@, "Initial wait seconds"@) },
            flag_model(
                "auto"@,
                "Enable interactive fuzzing (click buttons/tabs to trigger hidden APIs)"@,
            ),
            option_model(
                "click"@,
                "Comma-separated labels to click before fuzzing (e.g. 'Comments,CC,字幕')"@,
            ),
        ],
    )
}

/// The subcommand `cascade`.
pub open spec fn cascade_model() -> CommandModel {
    subcommand_model(
        "cascade"@,
        "Auto-detect authentication strategy for an API endpoint"@,
        seq![positional_model("url"@, "API endpoint URL to probe"@)],
    )
}

/// The subcommand `generate`.
pub open spec fn generate_model() -> CommandModel {
    subcommand_model(
        "generate"@,
        "One-shot: explore + synthesize + select best adapter"@,
        seq![
            positional_model("url"@, "URL to generate adapter for"@),
            option_model("goal"@, "What you want (e.g. hot, search, trending)"@),
            option_model("site"@, "Override site name"@),
            flag_model(
                "ai"@,
                "Use AI (LLM) to analyze and generate adapter (requires ~/.opencli-rs/config.json)"@,
            ),
        ],
    )
}

/// The subcommand `auth`.
pub open spec fn auth_model() -> CommandModel {
    subcommand_model(
        "auth"@,
        "Save authentication token to config"@,
        seq![
            ArgModel {
                required: true,
                ..option_model("token"@, "AutoCLI token (e.g. acli_xxxx)"@)
            },
        ],
    )
}

/// The subcommands that are always there.
pub open spec fn builtin_models() -> Seq<CommandModel> {
    seq![
        doctor_model(),
        completion_model(),
        explore_model(),
        cascade_model(),
        generate_model(),
        auth_model(),
    ]
}

/// The whole command line: the two arguments that hold everywhere; a subcommand for
/// each site, one for each external program, and those that are always there.
pub open spec fn cli_model(
    version: Seq<char>,
    sites: Seq<SiteView>,
    externals: Seq<ExternalCliView>,
) -> CommandModel {
    CommandModel {
        version: Some(version),
        about: Some("AI-driven CLI tool — turns websites into command-line interfaces"@),
        args: seq![format_model(), verbose_model()],
        subcommands: sites.map_values(|s: SiteView| site_model(s)) + externals.map_values(
            |e: ExternalCliView| external_model(e),
        ) + builtin_models(),
        ..bare_command("opencli-rs"@)
    }
}

fn flag(name: &str, help: &str) -> (r: clap::Arg)
    ensures
        arg_model(r) == flag_model(name@, help@),
{
    arg_help(arg_set_true(arg_long(arg_new(name), name)), help)
}

fn option(name: &str, help: &str) -> (r: clap::Arg)
    ensures
        arg_model(r) == option_model(name@, help@),
{
    arg_help(arg_long(arg_new(name), name), help)
}

fn positional(name: &str, help: &str) -> (r: clap::Arg)
    ensures
        arg_model(r) == positional_model(name@, help@),
{
    arg_help(arg_required(arg_new(name)), help)
}

fn subcommand(name: &str, about: &str) -> (r: clap::Command)
    ensures
        command_model(r) == subcommand_model(name@, about@, Seq::empty()),
{
    command_about(command_new(name), about)
}

/// The argument for an argument of a site command.
fn site_arg(def: &ArgDef) -> (r: clap::Arg)
    ensures
        arg_model(r) == site_arg_model(def@),
{
    let mut arg = arg_new(def.name.as_str());
    if !def.positional {
        arg = arg_long(arg, def.name.as_str());
    }
    if let Some(desc) = &def.description {
        arg = arg_help(arg, desc.as_str());
    }
    if def.required {
        arg = arg_required(arg);
    }
    if let Some(default) = &def.default {
        arg = arg_default(arg, value_plain_text(default).as_str());
    }
    arg
}

/// The subcommand for a command of a site.
fn site_command(cmd: &CliCommand) -> (r: clap::Command)
    ensures
        command_model(r) == site_command_model(cmd@),
{
    let mut sub = subcommand(cmd.name.as_str(), cmd.description.as_str());
    for k in 0..cmd.args.len()
        invariant
            command_model(sub) == subcommand_model(
                cmd.name@,
                cmd.description@,
                Seq::new(k as nat, |i: int| site_arg_model(cmd@.args[i])),
            ),
    {
        sub = command_arg(sub, site_arg(&cmd.args[k]));
        assert(command_model(sub).args =~= Seq::new(
            (k + 1) as nat,
            |i: int| site_arg_model(cmd@.args[i]),
        ));
    }
    assert(command_model(sub).args =~= site_command_model(cmd@).args);
    sub
}

/// The subcommand for a site.
fn site_subcommand(site: &Site) -> (r: clap::Command)
    ensures
        command_model(r) == site_model(site@),
{
    let mut r = command_new(site.name.as_str());
    assert(command_model(r).subcommands =~= Seq::new(
        0,
        |i: int| site_command_model(site@.commands[i]),
    ));
    for k in 0..site.commands.len()
        invariant
            command_model(r) == (CommandModel {
                subcommands: Seq::new(k as nat, |i: int| site_command_model(site@.commands[i])),
                ..bare_command(site.name@)
            }),
    {
        r = command_subcommand(r, site_command(&site.commands[k]));
        assert(command_model(r).subcommands =~= Seq::new(
            (k + 1) as nat,
            |i: int| site_command_model(site@.commands[i]),
        ));
    }
    assert(command_model(r).subcommands =~= site_model(site@).subcommands);
    r
}

fn completion() -> (r: clap::Command)
    ensures
        command_model(r) == completion_model(),
{
    let shell = arg_shell_value(
        positional("shell", "Target shell: bash, zsh, fish, powershell"),
    );
    let r = command_arg(subcommand("completion", "Generate shell completions"), shell);
    assert(command_model(r).args =~= completion_model().args);
    r
}

fn explore() -> (r: clap::Command)
    ensures
        command_model(r) == explore_model(),
{
    let r = subcommand("explore", "Explore a website's API surface and discover endpoints");
    let r = command_arg(r, positional("url", "URL to explore"));
    let r = command_arg(r, option("site", "Override site name"));
    let r = command_arg(r, option("goal", "Hint for capability naming (e.g. search, hot)"));
    let r = command_arg(r, arg_default(option("wait", "Initial wait seconds"), "3"));
    let r = command_arg(
        r,
        flag("auto", "Enable interactive fuzzing (click buttons/tabs to trigger hidden APIs)"),
    );
    let r = command_arg(
        r,
        option("click", "Comma-separated labels to click before fuzzing (e.g. 'Comments,CC,字幕')"),
    );
    assert(command_model(r).args =~= explore_model().args);
    r
}

fn cascade() -> (r: clap::Command)
    ensures
        command_model(r) == cascade_model(),
{
    let r = subcommand("cascade", "Auto-detect authentication strategy for an API endpoint");
    let r = command_arg(r, positional("url", "API endpoint URL to probe"));
    assert(command_model(r).args =~= cascade_model().args);
    r
}

fn generate() -> (r: clap::Command)
    ensures
        command_model(r) == generate_model(),
{
    let r = subcommand("generate", "One-shot: explore + synthesize + select best adapter");
    let r = command_arg(r, positional("url", "URL to generate adapter for"));
    let r = command_arg(r, option("goal", "What you want (e.g. hot, search, trending)"));
    let r = command_arg(r, option("site", "Override site name"));
    let r = command_arg(
        r,
        flag(
            "ai",
            "Use AI (LLM) to analyze and generate adapter (requires ~/.opencli-rs/config.json)",
        ),
    );
    assert(command_model(r).args =~= generate_model().args);
    r
}

fn auth() -> (r: clap::Command)
    ensures
        command_model(r) == auth_model(),
{
    let r = subcommand("auth", "Save authentication token to config");
    let r = command_arg(r, arg_required(option("token", "AutoCLI token (e.g. acli_xxxx)")));
    assert(command_model(r).args =~= auth_model().args);
    r
}

/// The command line for the registered sites and the external programs.
pub fn build_cli(version: &str, registry: &Registry, externals: &Vec<ExternalCli>) -> (r:
    clap::Command)
    ensures
        command_model(r) == cli_model(version@, registry@, external_views(externals@)),
{
    let format = arg_help(
        arg_default(
            arg_global(arg_short(arg_long(arg_new("format"), "format"), 'f')),
            "table",
        ),
        "Output format: table, json, yaml, csv, md",
    );
    let verbose = arg_help(
        arg_set_true(arg_global(arg_short(arg_long(arg_new("verbose"), "verbose"), 'v'))),
        "Enable verbose output",
    );
    let app = command_about(
        command_version(command_new("opencli-rs"), version),
        "AI-driven CLI tool — turns websites into command-line interfaces",
    );
    let mut app = command_arg(command_arg(app, format), verbose);
    let ghost top = command_model(app);
    assert(top.args =~= seq![format_model(), verbose_model()]);

    let ghost sites = registry@;
    assert(top.subcommands =~= Seq::new(0, |i: int| site_model(sites[i])));
    for k in 0..registry.sites.len()
        invariant
            sites == registry@,
            command_model(app) == (CommandModel {
                subcommands: Seq::new(k as nat, |i: int| site_model(sites[i])),
                ..top
            }),
    {
        app = command_subcommand(app, site_subcommand(&registry.sites[k]));
        assert(command_model(app).subcommands =~= Seq::new(
            (k + 1) as nat,
            |i: int| site_model(sites[i]),
        ));
    }
    let ghost of_sites = sites.map_values(|s: SiteView| site_model(s));
    assert(command_model(app).subcommands =~= of_sites);

    let ghost exts = external_views(externals@);
    assert(of_sites =~= of_sites + Seq::new(0, |i: int| external_model(exts[i])));
    for k in 0..externals.len()
        invariant
            exts == external_views(externals@),
            command_model(app) == (CommandModel {
                subcommands: of_sites + Seq::new(k as nat, |i: int| external_model(exts[i])),
                ..top
            }),
    {
        let ext = &externals[k];
        app = command_subcommand(
            app,
            command_external_subcommands(subcommand(ext.name.as_str(), ext.description.as_str())),
        );
        assert(command_model(app).subcommands =~= of_sites + Seq::new(
            (k + 1) as nat,
            |i: int| external_model(exts[i]),
        ));
    }

    let app = command_subcommand(app, subcommand("doctor", "Run diagnostics checks"));
    let app = command_subcommand(app, completion());
    let app = command_subcommand(app, explore());
    let app = command_subcommand(app, cascade());
    let app = command_subcommand(app, generate());
    let app = command_subcommand(app, auth());
    assert(command_model(app).subcommands =~= cli_model(version@, sites, exts).subcommands);
    app
}

/// Every registered command is offered under its site, with an argument for each of
/// its own: under the same name, and positional exactly where that one is.
pub proof fn law_registered_commands_are_offered(
    version: Seq<char>,
    sites: Seq<SiteView>,
    externals: Seq<ExternalCliView>,
    i: int,
    j: int,
)
    requires
        0 <= i < sites.len(),
        0 <= j < sites[i].commands.len(),
    ensures
        ({
            let of_site = cli_model(version, sites, externals).subcommands[i];
            let offered = of_site.subcommands[j];
            let command = sites[i].commands[j];
            &&& i < cli_model(version, sites, externals).subcommands.len()
            &&& j < of_site.subcommands.len()
            &&& of_site.name == sites[i].name
            &&& offered.name == command.name
            &&& offered.about == Some(command.description)
            &&& offered.args.len() == command.args.len()
            &&& forall|k: int| 0 <= k < command.args.len() ==> {
                &&& (#[trigger] offered.args[k]).id == command.args[k].name
                &&& offered.args[k].required == command.args[k].required
                &&& offered.args[k].long == (if command.args[k].positional {
                    None
                } else {
                    Some(command.args[k].name)
                })
                &&& offered.args[k].short is None
                &&& !offered.args[k].set_true
                &&& !offered.args[k].global
                &&& !offered.args[k].shell_value
                &&& offered.args[k].help == command.args[k].description
                &&& offered.args[k].defaults.len() == (if command.args[k].default is Some {
                    1nat
                } else {
                    0
                })
                &&& command.args[k].default matches Some(json) ==> offered.args[k].defaults[0] == (
                match json {
                    Json::Str(s) => s,
                    other => json_text(other),
                })
            }
        }),
{
}

/// A site is offered with its commands and nothing more, a command with its arguments and
/// nothing more: no version, no arguments of the site's own, no commands within commands,
/// and nothing from outside.
pub proof fn law_sites_offer_their_commands_only(
    version: Seq<char>,
    sites: Seq<SiteView>,
    externals: Seq<ExternalCliView>,
    i: int,
)
    requires
        0 <= i < sites.len(),
    ensures
        ({
            let of_site = cli_model(version, sites, externals).subcommands[i];
            &&& of_site.name == sites[i].name
            &&& of_site.version is None
            &&& of_site.about is None
            &&& !of_site.external_subcommands
            &&& of_site.args.len() == 0
            &&& of_site.subcommands.len() == sites[i].commands.len()
            &&& forall|j: int| 0 <= j < of_site.subcommands.len() ==> {
                &&& (#[trigger] of_site.subcommands[j]).name == sites[i].commands[j].name
                &&& of_site.subcommands[j].version is None
                &&& of_site.subcommands[j].about == Some(sites[i].commands[j].description)
                &&& !of_site.subcommands[j].external_subcommands
                &&& of_site.subcommands[j].args.len() == sites[i].commands[j].args.len()
                &&& of_site.subcommands[j].subcommands.len() == 0
            }
        }),
{
}

/// The program is offered under its name and version, with two arguments that hold
/// everywhere: the output format, which is a table where none is given, and a flag for
/// more output; and with a subcommand for each site, each external program and each of
/// the six that are always there.
pub proof fn law_the_program_is_offered_whole(
    version: Seq<char>,
    sites: Seq<SiteView>,
    externals: Seq<ExternalCliView>,
)
    ensures
        ({
            let app = cli_model(version, sites, externals);
            &&& app.name == "opencli-rs"@
            &&& app.version == Some(version)
            &&& app.about == Some(
                "AI-driven CLI tool — turns websites into command-line interfaces"@,
            )
            &&& !app.external_subcommands
            &&& app.args.len() == 2
            &&& app.args[0].id == "format"@
            &&& app.args[0].long == Some("format"@)
            &&& app.args[0].short == Some('f')
            &&& app.args[0].global
            &&& !app.args[0].required
            &&& !app.args[0].set_true
            &&& !app.args[0].shell_value
            &&& app.args[0].defaults == seq!["table"@]
            &&& app.args[0].help == Some("Output format: table, json, yaml, csv, md"@)
            &&& app.args[1].id == "verbose"@
            &&& app.args[1].long == Some("verbose"@)
            &&& app.args[1].short == Some('v')
            &&& app.args[1].global
            &&& !app.args[1].required
            &&& app.args[1].set_true
            &&& !app.args[1].shell_value
            &&& app.args[1].defaults.len() == 0
            &&& app.args[1].help == Some("Enable verbose output"@)
            &&& app.subcommands.len() == sites.len() + externals.len() + 6
        }),
{
}

/// `command` takes `args`, each with an ID and a help text, and nothing else: none of them
/// has a short name or holds in other commands.
pub open spec fn takes(command: CommandModel, args: Seq<(Seq<char>, Seq<char>)>) -> bool {
    &&& command.version is None
    &&& !command.external_subcommands
    &&& command.subcommands.len() == 0
    &&& command.args.len() == args.len()
    &&& forall|k: int| 0 <= k < args.len() ==> {
        &&& (#[trigger] command.args[k]).id == args[k].0
        &&& command.args[k].help == Some(args[k].1)
        &&& command.args[k].short is None
        &&& !command.args[k].global
    }
}

/// `arg` is positional and has to be given.
pub open spec fn has_to_stand(arg: ArgModel) -> bool {
    arg.long is None && arg.required && !arg.set_true && arg.defaults.len() == 0
}

/// `arg` stands under its own name and may be left out; it takes a text, without a default.
pub open spec fn may_be_named(arg: ArgModel) -> bool {
    arg.long == Some(arg.id) && !arg.required && !arg.set_true && !arg.shell_value
        && arg.defaults.len() == 0
}

/// `arg` is a flag under its own name.
pub open spec fn is_flag(arg: ArgModel) -> bool {
    arg.long == Some(arg.id) && !arg.required && arg.set_true && !arg.shell_value
        && arg.defaults.len() == 0
}

/// The six subcommands that are always there, with what each takes: a URL has to stand
/// there, a token has to be named, a shell has to stand there and be one; everything else
/// may be left out, and `--wait` is then 3.
pub proof fn law_the_builtins_take_their_arguments(
    version: Seq<char>,
    sites: Seq<SiteView>,
    externals: Seq<ExternalCliView>,
)
    ensures
        ({
            let app = cli_model(version, sites, externals);
            let first: int = (sites.len() + externals.len()) as int;
            let doctor = app.subcommands[first];
            let completion = app.subcommands[first + 1];
            let explore = app.subcommands[first + 2];
            let cascade = app.subcommands[first + 3];
            let generate = app.subcommands[first + 4];
            let auth = app.subcommands[first + 5];
            &&& doctor.name == "doctor"@
            &&& doctor.about == Some("Run diagnostics checks"@)
            &&& takes(doctor, Seq::empty())
            &&& completion.name == "completion"@
            &&& completion.about == Some("Generate shell completions"@)
            &&& takes(
                completion,
                seq![("shell"@, "Target shell: bash, zsh, fish, powershell"@)],
            )
            &&& has_to_stand(completion.args[0])
            &&& completion.args[0].shell_value
            &&& explore.name == "explore"@
            &&& explore.about == Some("Explore a website's API surface and discover endpoints"@)
            &&& takes(
                explore,
                seq![
                    ("url"@, "URL to explore"@),
                    ("site"@, "Override site name"@),
                    ("goal"@, "Hint for capability naming (e.g. search, hot)"@),
                    ("wait"@, "Initial wait seconds"@),
                    (
                        "auto"@,
                        "Enable interactive fuzzing (click buttons/tabs to trigger hidden APIs)"@,
                    ),
                    (
                        "click"@,
                        "Comma-separated labels to click before fuzzing (e.g. 'Comments,CC,字幕')"@,
                    ),
                ],
            )
            &&& has_to_stand(explore.args[0])
            &&& !explore.args[0].shell_value
            &&& may_be_named(explore.args[1])
            &&& may_be_named(explore.args[2])
            &&& explore.args[3].long == Some("wait"@)
            &&& !explore.args[3].required
            &&& !explore.args[3].set_true
            &&& !explore.args[3].shell_value
            &&& explore.args[3].defaults == seq!["3"@]
            &&& is_flag(explore.args[4])
            &&& may_be_named(explore.args[5])
            &&& cascade.name == "cascade"@
            &&& cascade.about == Some("Auto-detect authentication strategy for an API endpoint"@)
            &&& takes(cascade, seq![("url"@, "API endpoint URL to probe"@)])
            &&& has_to_stand(cascade.args[0])
            &&& !cascade.args[0].shell_value
            &&& generate.name == "generate"@
            &&& generate.about == Some("One-shot: explore + synthesize + select best adapter"@)
            &&& takes(
                generate,
                seq![
                    ("url"@, "URL to generate adapter for"@),
                    ("goal"@, "What you want (e.g. hot, search, trending)"@),
                    ("site"@, "Override site name"@),
                    (
                        "ai"@,
                        "Use AI (LLM) to analyze and generate adapter (requires ~/.opencli-rs/config.json)"@,
                    ),
                ],
            )
            &&& has_to_stand(generate.args[0])
            &&& !generate.args[0].shell_value
            &&& may_be_named(generate.args[1])
            &&& may_be_named(generate.args[2])
            &&& is_flag(generate.args[3])
            &&& auth.name == "auth"@
            &&& auth.about == Some("Save authentication token to config"@)
            &&& takes(auth, seq![("token"@, "AutoCLI token (e.g. acli_xxxx)"@)])
            &&& auth.args[0].long == Some("token"@)
            &&& auth.args[0].required
            &&& !auth.args[0].set_true
            &&& !auth.args[0].shell_value
            &&& auth.args[0].defaults.len() == 0
        }),
{
}

/// Every external program is offered under its name, and accepts whatever follows.
pub proof fn law_external_programs_are_offered(
    version: Seq<char>,
    sites: Seq<SiteView>,
    externals: Seq<ExternalCliView>,
    k: int,
)
    requires
        0 <= k < externals.len(),
    ensures
        ({
            let offered = cli_model(version, sites, externals).subcommands[sites.len() + k];
            &&& sites.len() + k < cli_model(version, sites, externals).subcommands.len()
            &&& offered.name == externals[k].name
            &&& offered.external_subcommands
            &&& offered.about == Some(externals[k].description)
            &&& offered.version is None
            &&& offered.args.len() == 0
            &&& offered.subcommands.len() == 0
        }),
{
}

/// The subcommands that are always there are offered last, whatever sites and
/// external programs there are; and these are the names that a command line is
/// looked up under first.
pub proof fn law_builtins_are_offered_and_understood(
    version: Seq<char>,
    sites: Seq<SiteView>,
    externals: Seq<ExternalCliView>,
    name: Seq<char>,
)
    ensures
        builtin_models().is_suffix_of(cli_model(version, sites, externals).subcommands),
        is_builtin(name) <==> exists|k: int|
            0 <= k < builtin_models().len() && #[trigger] builtin_models()[k].name == name,
{
    let all = cli_model(version, sites, externals).subcommands;
    assert(builtin_models() =~= all.subrange(all.len() - 6, all.len() as int));
    assert(builtin_models()[0].name == "doctor"@);
    assert(builtin_models()[1].name == "completion"@);
    assert(builtin_models()[2].name == "explore"@);
    assert(builtin_models()[3].name == "cascade"@);
    assert(builtin_models()[4].name == "generate"@);
    assert(builtin_models()[5].name == "auth"@);
}

/// `arg` has to be given, or is a flag, which always has a value.
pub open spec fn always_has_a_value(arg: ArgModel) -> bool {
    arg.required || arg.set_true
}

/// Where a command line lacks a value that is needed, it is the value of an argument
/// that the command line offered under that subcommand, and that has to be given or is
/// a flag.
pub proof fn law_needed_values_are_demanded(
    m: MatchesModel,
    sites: Seq<SiteView>,
    externals: Seq<ExternalCliView>,
)
    requires
        request(m, sites, externals) is Missing,
    ensures
        exists|b: int, a: int|
            0 <= b < builtin_models().len() && 0 <= a < builtin_models()[b].args.len()
                && builtin_models()[b].name == (m.sub->0).0
                && (#[trigger] builtin_models()[b].args[a]).id == request(
                m,
                sites,
                externals,
            )->Missing_id && always_has_a_value(builtin_models()[b].args[a]),
{
    let models = builtin_models();
    assert(models[1].args[0] == completion_model().args[0]);
    assert(models[2].args[0] == explore_model().args[0]);
    assert(models[2].args[4] == explore_model().args[4]);
    assert(models[3].args[0] == cascade_model().args[0]);
    assert(models[4].args[0] == generate_model().args[0]);
    assert(models[4].args[3] == generate_model().args[3]);
    assert(models[5].args[0] == auth_model().args[0]);
}

/// A default that is a string stands on the command line as it is, without quotes;
/// and an argument without a default has none there.
pub proof fn law_text_defaults_are_not_quoted(def: ArgDefView)
    ensures
        def.default matches Some(Json::Str(s)) ==> site_arg_model(def).defaults == seq![s],
        def.default is None <==> site_arg_model(def).defaults.len() == 0,
{
}

} // verus!
