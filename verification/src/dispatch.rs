//! What a parsed command line asks for.
use vstd::prelude::*;
use vstd::string::*;
use crate::catalog::{
    command_named, external_named, external_views, find_external,
    law_lookup_finds_registered_commands, ArgDef, ArgDefView, CliCommand, CliCommandView,
    ExternalCli, ExternalCliView, Registry, SiteView,
};
use crate::command_line::{
    matched_flag, matched_rest, matched_shell, matched_string, matched_subcommand, matches_model,
    text_under, MatchesModel,
};
use crate::number::{number_or, parse_or, parsed};
use crate::text::{
    clone_opt_text, clone_texts, opt_text, same_text, split_and_trim, split_trimmed, text_pairs,
    texts,
};

verus! {

/// How a site is explored.
pub struct ExplorePlan {
    pub url: String,
    pub site: Option<String>,
    pub goal: Option<String>,
    pub timeout_seconds: u64,
    pub max_scrolls: u64,
    pub capture_network: bool,
    pub wait_seconds: u64,
    pub auto_fuzz: bool,
    pub click_labels: Vec<String>,
}

/// What an [`ExplorePlan`] says.
pub struct ExplorePlanView {
    pub url: Seq<char>,
    pub site: Option<Seq<char>>,
    pub goal: Option<Seq<char>>,
    pub timeout_seconds: nat,
    pub max_scrolls: nat,
    pub capture_network: bool,
    pub wait_seconds: nat,
    pub auto_fuzz: bool,
    pub click_labels: Seq<Seq<char>>,
}

impl View for ExplorePlan {
    type V = ExplorePlanView;

    open spec fn view(&self) -> ExplorePlanView {
        ExplorePlanView {
            url: self.url@,
            site: opt_text(self.site),
            goal: opt_text(self.goal),
            timeout_seconds: self.timeout_seconds as nat,
            max_scrolls: self.max_scrolls as nat,
            capture_network: self.capture_network,
            wait_seconds: self.wait_seconds as nat,
            auto_fuzz: self.auto_fuzz,
            click_labels: texts(self.click_labels@),
        }
    }
}

impl ExplorePlan {
    /// A copy of the plan.
    pub fn copy(&self) -> (r: ExplorePlan)
        ensures
            r@ == self@,
    {
        ExplorePlan {
            url: self.url.clone(),
            site: clone_opt_text(&self.site),
            goal: clone_opt_text(&self.goal),
            timeout_seconds: self.timeout_seconds,
            max_scrolls: self.max_scrolls,
            capture_network: self.capture_network,
            wait_seconds: self.wait_seconds,
            auto_fuzz: self.auto_fuzz,
            click_labels: clone_texts(&self.click_labels),
        }
    }
}

/// What the program is asked to do.
pub enum Dispatch<'a> {
    /// No subcommand was given.
    NoCommand,
    /// Run the diagnostics.
    Doctor,
    /// Write the completions for the shell of that name.
    Completion { shell: String },
    /// Keep the token.
    Auth { token: String },
    /// Explore a site.
    Explore { plan: ExplorePlan },
    /// Find out how an endpoint authenticates.
    Cascade { url: String },
    /// Generate an adapter.
    Generate { url: String, goal: Option<String>, use_ai: bool },
    /// Run an external program.
    External { program: &'a ExternalCli, args: Vec<String> },
    /// Run a command of a site with the values that were given for its arguments.
    Run { site: String, command: &'a CliCommand, raw_args: Vec<(String, String)> },
    /// The site has no such command.
    UnknownCommand { site: String, name: String },
    /// A site without a command: its help is asked for.
    SiteHelp { site: String },
    /// An argument that the command line demands has no value after all.
    Missing { id: String },
}

/// What a [`Dispatch`] says.
pub enum DispatchView {
    NoCommand,
    Doctor,
    Completion { shell: Seq<char> },
    Auth { token: Seq<char> },
    Explore { plan: ExplorePlanView },
    Cascade { url: Seq<char> },
    Generate { url: Seq<char>, goal: Option<Seq<char>>, use_ai: bool },
    External { program: ExternalCliView, args: Seq<Seq<char>> },
    Run { site: Seq<char>, command: CliCommandView, raw_args: Seq<(Seq<char>, Seq<char>)> },
    UnknownCommand { site: Seq<char>, name: Seq<char> },
    SiteHelp { site: Seq<char> },
    Missing { id: Seq<char> },
}

impl<'a> View for Dispatch<'a> {
    type V = DispatchView;

    open spec fn view(&self) -> DispatchView {
        match *self {
            Dispatch::NoCommand => DispatchView::NoCommand,
            Dispatch::Doctor => DispatchView::Doctor,
            Dispatch::Completion { shell } => DispatchView::Completion { shell: shell@ },
            Dispatch::Auth { token } => DispatchView::Auth { token: token@ },
            Dispatch::Explore { plan } => DispatchView::Explore { plan: plan@ },
            Dispatch::Cascade { url } => DispatchView::Cascade { url: url@ },
            Dispatch::Generate { url, goal, use_ai } => DispatchView::Generate {
                url: url@,
                goal: opt_text(goal),
                use_ai,
            },
            Dispatch::External { program, args } => DispatchView::External {
                program: program@,
                args: texts(args@),
            },
            Dispatch::Run { site, command, raw_args } => DispatchView::Run {
                site: site@,
                command: command@,
                raw_args: text_pairs(raw_args@),
            },
            Dispatch::UnknownCommand { site, name } => DispatchView::UnknownCommand {
                site: site@,
                name: name@,
            },
            Dispatch::SiteHelp { site } => DispatchView::SiteHelp { site: site@ },
            Dispatch::Missing { id } => DispatchView::Missing { id: id@ },
        }
    }
}

/// The labels in a list with commas between them; none where there is no list.
pub open spec fn labels(list: Option<Seq<char>>) -> Seq<Seq<char>> {
    match list {
        Some(t) => split_trimmed(t, ','),
        None => Seq::empty(),
    }
}

/// What `explore` asks for.
pub open spec fn explore_request(m: MatchesModel) -> DispatchView {
    if !m.strings.contains_key("url"@) {
        DispatchView::Missing { id: "url"@ }
    } else if !m.flags.contains_key("auto"@) {
        DispatchView::Missing { id: "auto"@ }
    } else {
        DispatchView::Explore {
            plan: ExplorePlanView {
                url: m.strings["url"@],
                site: text_under(m.strings, "site"@),
                goal: text_under(m.strings, "goal"@),
                timeout_seconds: 120,
                max_scrolls: 3,
                capture_network: true,
                wait_seconds: number_or(text_under(m.strings, "wait"@), u64::MAX as nat, 3),
                auto_fuzz: m.flags["auto"@],
                click_labels: labels(text_under(m.strings, "click"@)),
            },
        }
    }
}

/// What `generate` asks for.
pub open spec fn generate_request(m: MatchesModel) -> DispatchView {
    if !m.strings.contains_key("url"@) {
        DispatchView::Missing { id: "url"@ }
    } else if !m.flags.contains_key("ai"@) {
        DispatchView::Missing { id: "ai"@ }
    } else {
        DispatchView::Generate {
            url: m.strings["url"@],
            goal: text_under(m.strings, "goal"@),
            use_ai: m.flags["ai"@],
        }
    }
}

/// The values that were given for the arguments of a command, by name, in the order
/// of the arguments; an argument without a value is left out.
pub open spec fn given_args(
    defs: Seq<ArgDefView>,
    strings: Map<Seq<char>, Seq<char>>,
) -> Seq<(Seq<char>, Seq<char>)>
    decreases defs.len(),
{
    if defs.len() == 0 {
        Seq::empty()
    } else {
        let before = given_args(defs.drop_last(), strings);
        let name = defs.last().name;
        if strings.contains_key(name) {
            before.push((name, strings[name]))
        } else {
            before
        }
    }
}

/// What is handed to an external program: the name of the subcommand and what
/// follows it.
pub open spec fn external_args(m: MatchesModel) -> Seq<Seq<char>> {
    match m.sub {
        Some((name, rest)) => seq![name] + rest.rest,
        None => Seq::empty(),
    }
}

/// What the subcommand `name` asks for, which has no meaning of its own: the first
/// external program of that name, or else a command of the site of that name.
pub open spec fn named_request(
    name: Seq<char>,
    m: MatchesModel,
    sites: Seq<SiteView>,
    externals: Seq<ExternalCliView>,
) -> DispatchView {
    match external_named(externals, name) {
        Some(program) => DispatchView::External { program, args: external_args(m) },
        None => match m.sub {
            Some((command_name, given)) => match command_named(sites, name, command_name) {
                Some(command) => DispatchView::Run {
                    site: name,
                    command,
                    raw_args: given_args(command.args, given.strings),
                },
                None => DispatchView::UnknownCommand { site: name, name: command_name },
            },
            None => DispatchView::SiteHelp { site: name },
        },
    }
}

/// What a parsed command line asks for. The subcommands that are always there come
/// first, then the external programs, then the sites.
pub open spec fn request(
    m: MatchesModel,
    sites: Seq<SiteView>,
    externals: Seq<ExternalCliView>,
) -> DispatchView {
    match m.sub {
        None => DispatchView::NoCommand,
        Some((name, given)) => {
            let strings = given.strings;
            if name == "doctor"@ {
                DispatchView::Doctor
            } else if name == "completion"@ {
                match text_under(given.shells, "shell"@) {
                    Some(shell) => DispatchView::Completion { shell },
                    None => DispatchView::Missing { id: "shell"@ },
                }
            } else if name == "auth"@ {
                match text_under(strings, "token"@) {
                    Some(token) => DispatchView::Auth { token },
                    None => DispatchView::Missing { id: "token"@ },
                }
            } else if name == "explore"@ {
                explore_request(*given)
            } else if name == "cascade"@ {
                match text_under(strings, "url"@) {
                    Some(url) => DispatchView::Cascade { url },
                    None => DispatchView::Missing { id: "url"@ },
                }
            } else if name == "generate"@ {
                generate_request(*given)
            } else {
                named_request(name, *given, sites, externals)
            }
        },
    }
}

fn missing<'a>(id: &str) -> (r: Dispatch<'a>)
    ensures
        r@ == (DispatchView::Missing { id: id@ }),
{
    Dispatch::Missing { id: id.to_owned() }
}

fn explore<'a>(m: &clap::ArgMatches) -> (r: Dispatch<'a>)
    ensures
        r@ == explore_request(matches_model(*m)),
{
    let url = match matched_string(m, "url") {
        Some(url) => url,
        None => {
            return missing("url");
        },
    };
    let auto_fuzz = match matched_flag(m, "auto") {
        Some(auto) => auto,
        None => {
            return missing("auto");
        },
    };
    let wait = matched_string(m, "wait");
    let wait_seconds = match &wait {
        Some(w) => parse_or(Some(w.as_str()), u64::MAX, 3),
        None => parse_or(None, u64::MAX, 3),
    };
    let click_labels = match matched_string(m, "click") {
        Some(list) => split_and_trim(list.as_str(), ','),
        None => Vec::new(),
    };
    assert(texts(click_labels@) =~= labels(text_under(matches_model(*m).strings, "click"@)));
    Dispatch::Explore {
        plan: ExplorePlan {
            url,
            site: matched_string(m, "site"),
            goal: matched_string(m, "goal"),
            timeout_seconds: 120,
            max_scrolls: 3,
            capture_network: true,
            wait_seconds,
            auto_fuzz,
            click_labels,
        },
    }
}

fn generate<'a>(m: &clap::ArgMatches) -> (r: Dispatch<'a>)
    ensures
        r@ == generate_request(matches_model(*m)),
{
    let url = match matched_string(m, "url") {
        Some(url) => url,
        None => {
            return missing("url");
        },
    };
    match matched_flag(m, "ai") {
        Some(use_ai) => Dispatch::Generate { url, goal: matched_string(m, "goal"), use_ai },
        None => missing("ai"),
    }
}

/// The values that were given for the arguments of a command.
fn collect_args(defs: &Vec<ArgDef>, m: &clap::ArgMatches) -> (r: Vec<(String, String)>)
    ensures
        text_pairs(r@) == given_args(
            defs@.map_values(|d: ArgDef| d@),
            matches_model(*m).strings,
        ),
{
    let ghost all = defs@.map_values(|d: ArgDef| d@);
    let ghost strings = matches_model(*m).strings;
    let mut r: Vec<(String, String)> = Vec::new();
    assert(text_pairs(r@) =~= given_args(all.take(0), strings));
    for i in 0..defs.len()
        invariant
            all == defs@.map_values(|d: ArgDef| d@),
            strings == matches_model(*m).strings,
            text_pairs(r@) == given_args(all.take(i as int), strings),
    {
        let ghost before = r@;
        assert(all.take(i + 1).drop_last() =~= all.take(i as int));
        if let Some(value) = matched_string(m, defs[i].name.as_str()) {
            r.push((defs[i].name.clone(), value));
            assert(text_pairs(r@) =~= text_pairs(before).push((defs[i as int].name@, value@)));
        }
    }
    assert(all.take(defs.len() as int) =~= all);
    r
}

fn external<'a>(program: &'a ExternalCli, m: &clap::ArgMatches) -> (r: Dispatch<'a>)
    ensures
        r@ == (DispatchView::External {
            program: program@,
            args: external_args(matches_model(*m)),
        }),
{
    let args = match matched_subcommand(m) {
        Some((name, rest)) => {
            let mut args: Vec<String> = Vec::new();
            args.push(name.to_owned());
            let mut tail = matched_rest(rest);
            let ghost follow = tail@;
            args.append(&mut tail);
            assert(texts(args@) =~= seq![name@] + texts(follow));
            args
        },
        None => Vec::new(),
    };
    assert(texts(args@) =~= external_args(matches_model(*m)));
    Dispatch::External { program, args }
}

/// What a parsed command line asks for.
pub fn dispatch<'a>(
    matches: &clap::ArgMatches,
    registry: &'a Registry,
    externals: &'a Vec<ExternalCli>,
) -> (r: Dispatch<'a>)
    ensures
        r@ == request(matches_model(*matches), registry@, external_views(externals@)),
{
    let (name, given) = match matched_subcommand(matches) {
        Some((name, given)) => (name, given),
        None => {
            return Dispatch::NoCommand;
        },
    };
    if same_text(name, "doctor") {
        return Dispatch::Doctor;
    }
    if same_text(name, "completion") {
        return match matched_shell(given, "shell") {
            Some(shell) => Dispatch::Completion { shell },
            None => missing("shell"),
        };
    }
    if same_text(name, "auth") {
        return match matched_string(given, "token") {
            Some(token) => Dispatch::Auth { token },
            None => missing("token"),
        };
    }
    if same_text(name, "explore") {
        return explore(given);
    }
    if same_text(name, "cascade") {
        return match matched_string(given, "url") {
            Some(url) => Dispatch::Cascade { url },
            None => missing("url"),
        };
    }
    if same_text(name, "generate") {
        return generate(given);
    }
    if let Some(program) = find_external(externals, name) {
        return external(program, given);
    }
    match matched_subcommand(given) {
        Some((command_name, values)) => match registry.get(name, command_name) {
            Some(command) => Dispatch::Run {
                site: name.to_owned(),
                command,
                raw_args: collect_args(&command.args, values),
            },
            None => Dispatch::UnknownCommand {
                site: name.to_owned(),
                name: command_name.to_owned(),
            },
        },
        None => Dispatch::SiteHelp { site: name.to_owned() },
    }
}

/// The output format that was selected; nothing where the command line has none.
pub fn selected_format(matches: &clap::ArgMatches) -> (r: Option<String>)
    ensures
        opt_text(r) == text_under(matches_model(*matches).strings, "format"@),
{
    matched_string(matches, "format")
}

/// Whether more output is asked for; nothing where the command line cannot ask.
pub fn wants_verbose(matches: &clap::ArgMatches) -> (r: Option<bool>)
    ensures
        match r {
            Some(b) => matches_model(*matches).flags.contains_pair("verbose"@, b),
            None => !matches_model(*matches).flags.contains_key("verbose"@),
        },
{
    matched_flag(matches, "verbose")
}

/// A name of a subcommand that is always there.
pub open spec fn is_builtin(name: Seq<char>) -> bool {
    ||| name == "doctor"@
    ||| name == "completion"@
    ||| name == "auth"@
    ||| name == "explore"@
    ||| name == "cascade"@
    ||| name == "generate"@
}

/// A subcommand that is always there asks for the same whatever sites and external
/// programs there are.
pub proof fn law_builtins_come_first(
    m: MatchesModel,
    sites: Seq<SiteView>,
    externals: Seq<ExternalCliView>,
    other_sites: Seq<SiteView>,
    other_externals: Seq<ExternalCliView>,
)
    requires
        m.sub is Some,
        is_builtin((m.sub->0).0),
    ensures
        request(m, sites, externals) == request(m, other_sites, other_externals),
{
}

/// An external program is run under its name whatever sites there are, unless its
/// name is that of a subcommand that is always there.
pub proof fn law_external_programs_come_before_sites(
    m: MatchesModel,
    sites: Seq<SiteView>,
    externals: Seq<ExternalCliView>,
)
    requires
        m.sub is Some,
        !is_builtin((m.sub->0).0),
        external_named(externals, (m.sub->0).0) is Some,
    ensures
        request(m, sites, externals) == (DispatchView::External {
            program: external_named(externals, (m.sub->0).0)->0,
            args: external_args(*(m.sub->0).1),
        }),
{
}

/// Each registered command is run under its site and name, unless its site has the
/// name of a subcommand that is always there or of an external program, and with the
/// values that were given; with two commands of one site and name, one of them is run.
pub proof fn law_registered_commands_are_run(
    m: MatchesModel,
    sites: Seq<SiteView>,
    externals: Seq<ExternalCliView>,
    i: int,
    j: int,
)
    requires
        0 <= i < sites.len(),
        0 <= j < sites[i].commands.len(),
        !is_builtin(sites[i].name),
        external_named(externals, sites[i].name) is None,
        m.sub is Some,
        (m.sub->0).0 == sites[i].name,
        (m.sub->0).1.sub is Some,
        ((m.sub->0).1.sub->0).0 == sites[i].commands[j].name,
    ensures
        request(m, sites, externals) matches DispatchView::Run { site, command, raw_args } && site
            == sites[i].name && command.name == sites[i].commands[j].name && raw_args
            == given_args(command.args, ((m.sub->0).1.sub->0).1.strings) && exists|k: int|
            0 <= k < sites.len() && (#[trigger] sites[k]).name == site
                && sites[k].commands.contains(command),
{
    law_lookup_finds_registered_commands(sites, sites[i].name, sites[i].commands[j].name);
}

/// The values that a command is run with are those that were given: each under the
/// name of an argument of the command, and one for every argument that has a value.
/// So a name that stands there twice has the same value both times.
pub proof fn law_given_args_are_those_with_values(
    defs: Seq<ArgDefView>,
    strings: Map<Seq<char>, Seq<char>>,
)
    ensures
        forall|k: int| 0 <= k < given_args(defs, strings).len() ==> {
            let pair = #[trigger] given_args(defs, strings)[k];
            strings.contains_pair(pair.0, pair.1)
        },
        forall|d: int|
            0 <= d < defs.len() && strings.contains_key((#[trigger] defs[d]).name)
                ==> given_args(defs, strings).contains((defs[d].name, strings[defs[d].name])),
    decreases defs.len(),
{
    if defs.len() > 0 {
        law_given_args_are_those_with_values(defs.drop_last(), strings);
        let before = given_args(defs.drop_last(), strings);
        let all = given_args(defs, strings);
        assert forall|d: int|
            0 <= d < defs.len() && strings.contains_key(
                (#[trigger] defs[d]).name,
            ) implies all.contains((defs[d].name, strings[defs[d].name])) by {
            let pair = (defs[d].name, strings[defs[d].name]);
            if d < defs.len() - 1 {
                assert(defs.drop_last()[d] == defs[d]);
                let k = choose|k: int| 0 <= k < before.len() && before[k] == pair;
                assert(all[k] == pair);
            } else {
                assert(all[all.len() - 1] == pair);
            }
        }
    }
}

/// The views hold every field.
pub proof fn law_views_hold_plans_and_requests<'a>(plan: ExplorePlan, d: Dispatch<'a>)
    ensures
        plan@.url == plan.url@,
        plan@.site is Some <==> plan.site is Some,
        plan.site is Some ==> plan@.site->0 == (plan.site->0)@,
        plan@.goal is Some <==> plan.goal is Some,
        plan.goal is Some ==> plan@.goal->0 == (plan.goal->0)@,
        plan@.timeout_seconds == plan.timeout_seconds,
        plan@.max_scrolls == plan.max_scrolls,
        plan@.capture_network == plan.capture_network,
        plan@.wait_seconds == plan.wait_seconds,
        plan@.auto_fuzz == plan.auto_fuzz,
        plan@.click_labels.len() == plan.click_labels.len(),
        forall|k: int|
            0 <= k < plan.click_labels.len() ==> #[trigger] plan@.click_labels[k]
                == plan.click_labels[k]@,
        match d {
            Dispatch::NoCommand => d@ is NoCommand,
            Dispatch::Doctor => d@ is Doctor,
            Dispatch::Completion { shell } => d@ == (DispatchView::Completion { shell: shell@ }),
            Dispatch::Auth { token } => d@ == (DispatchView::Auth { token: token@ }),
            Dispatch::Explore { plan } => d@ == (DispatchView::Explore { plan: plan@ }),
            Dispatch::Cascade { url } => d@ == (DispatchView::Cascade { url: url@ }),
            Dispatch::Generate { url, goal, use_ai } => d@ is Generate && d@->Generate_url == url@
                && d@->use_ai == use_ai && (d@->goal is Some <==> goal is Some) && (goal is Some
                ==> d@->goal->0 == (goal->0)@),
            Dispatch::External { program, args } => d@ is External && d@->program == program@
                && d@->args.len() == args.len() && (forall|k: int|
                0 <= k < args.len() ==> #[trigger] d@->args[k] == args[k]@),
            Dispatch::Run { site, command, raw_args } => d@ is Run && d@->Run_site == site@
                && d@->command == command@ && d@->raw_args.len() == raw_args.len() && (forall|
                k: int,
            |
                0 <= k < raw_args.len() ==> #[trigger] d@->raw_args[k] == (
                    raw_args[k].0@,
                    raw_args[k].1@,
                )),
            Dispatch::UnknownCommand { site, name } => d@ == (DispatchView::UnknownCommand {
                site: site@,
                name: name@,
            }),
            Dispatch::SiteHelp { site } => d@ == (DispatchView::SiteHelp { site: site@ }),
            Dispatch::Missing { id } => d@ == (DispatchView::Missing { id: id@ }),
        },
{
}

proof fn lemma_builtin_names_differ()
    ensures
        "doctor"@ != "completion"@,
        "doctor"@ != "auth"@,
        "doctor"@ != "explore"@,
        "doctor"@ != "cascade"@,
        "doctor"@ != "generate"@,
        "completion"@ != "auth"@,
        "completion"@ != "explore"@,
        "completion"@ != "cascade"@,
        "completion"@ != "generate"@,
        "auth"@ != "explore"@,
        "auth"@ != "cascade"@,
        "auth"@ != "generate"@,
        "explore"@ != "cascade"@,
        "explore"@ != "generate"@,
        "cascade"@ != "generate"@,
{
    reveal_strlit("doctor");
    reveal_strlit("completion");
    reveal_strlit("auth");
    reveal_strlit("explore");
    reveal_strlit("cascade");
    reveal_strlit("generate");
    assert("doctor"@.len() == 6);
    assert("completion"@.len() == 10);
    assert("auth"@.len() == 4);
    assert("explore"@.len() == 7);
    assert("cascade"@.len() == 7);
    assert("generate"@.len() == 8);
    assert("explore"@[0] != "cascade"@[0]);
}

/// A line on which the subcommand `name` was called with what `given` holds.
pub open spec fn called(m: MatchesModel, name: Seq<char>, given: MatchesModel) -> bool {
    m.sub == Some((name, Box::new(given)))
}

/// A line without a subcommand asks for nothing, and no other line does; `doctor` asks
/// for the diagnostics, and nothing else does.
pub proof fn law_nothing_and_doctor(
    m: MatchesModel,
    sites: Seq<SiteView>,
    externals: Seq<ExternalCliView>,
)
    ensures
        request(m, sites, externals) is NoCommand <==> m.sub is None,
        request(m, sites, externals) is Doctor <==> m.sub is Some && (m.sub->0).0 == "doctor"@,
{
}

/// `generate` asks to generate for the URL that was given, for the goal exactly where one
/// was given, and with the language model exactly where the flag is set. URL and goal do
/// not depend on the flag: of two lines that differ in the flag only, both ask for the
/// same, but for the language model. Without a URL or a flag, that is what is missing.
pub proof fn law_generate_asks_for_what_was_given(
    m: MatchesModel,
    given: MatchesModel,
    flag: bool,
    sites: Seq<SiteView>,
    externals: Seq<ExternalCliView>,
)
    requires
        called(m, "generate"@, given),
    ensures
        given.strings.contains_key("url"@) && given.flags.contains_key("ai"@) ==> request(
            m,
            sites,
            externals,
        ) == (DispatchView::Generate {
            url: given.strings["url"@],
            goal: if given.strings.contains_key("goal"@) {
                Some(given.strings["goal"@])
            } else {
                None
            },
            use_ai: given.flags["ai"@],
        }),
        given.strings.contains_key("url"@) ==> forall|other: MatchesModel| #[trigger]
            called(
                other,
                "generate"@,
                (MatchesModel { flags: given.flags.insert("ai"@, flag), ..given }),
            ) ==> request(other, sites, externals) == (DispatchView::Generate {
                url: given.strings["url"@],
                goal: if given.strings.contains_key("goal"@) {
                    Some(given.strings["goal"@])
                } else {
                    None
                },
                use_ai: flag,
            }),
        !given.strings.contains_key("url"@) ==> request(m, sites, externals) == (
        DispatchView::Missing { id: "url"@ }),
        given.strings.contains_key("url"@) && !given.flags.contains_key("ai"@) ==> request(
            m,
            sites,
            externals,
        ) == (DispatchView::Missing { id: "ai"@ }),
{
    lemma_builtin_names_differ();
}

/// `auth`, `cascade` and `completion` each ask for what was given: the token, the URL, the
/// shell; and where it was not given, it is what is missing.
pub proof fn law_auth_cascade_and_completion_ask_for_what_was_given(
    m: MatchesModel,
    given: MatchesModel,
    sites: Seq<SiteView>,
    externals: Seq<ExternalCliView>,
)
    ensures
        called(m, "auth"@, given) ==> request(m, sites, externals) == (
        if given.strings.contains_key("token"@) {
            DispatchView::Auth { token: given.strings["token"@] }
        } else {
            DispatchView::Missing { id: "token"@ }
        }),
        called(m, "cascade"@, given) ==> request(m, sites, externals) == (
        if given.strings.contains_key("url"@) {
            DispatchView::Cascade { url: given.strings["url"@] }
        } else {
            DispatchView::Missing { id: "url"@ }
        }),
        called(m, "completion"@, given) ==> request(m, sites, externals) == (
        if given.shells.contains_key("shell"@) {
            DispatchView::Completion { shell: given.shells["shell"@] }
        } else {
            DispatchView::Missing { id: "shell"@ }
        }),
{
    lemma_builtin_names_differ();
}

/// `explore` asks to explore the URL that was given, under the site's name and for the
/// goal exactly where these were given, with fuzzing exactly where its flag is set. It
/// waits as many seconds as were given, and 3 where none or no number was; it clicks the
/// labels between the commas, each trimmed, and none where no list was given. Two minutes,
/// three scrolls and the network are the same on every line.
pub proof fn law_explore_asks_for_what_was_given(
    m: MatchesModel,
    given: MatchesModel,
    sites: Seq<SiteView>,
    externals: Seq<ExternalCliView>,
)
    requires
        called(m, "explore"@, given),
    ensures
        !given.strings.contains_key("url"@) ==> request(m, sites, externals) == (
        DispatchView::Missing { id: "url"@ }),
        given.strings.contains_key("url"@) && !given.flags.contains_key("auto"@) ==> request(
            m,
            sites,
            externals,
        ) == (DispatchView::Missing { id: "auto"@ }),
        given.strings.contains_key("url"@) && given.flags.contains_key("auto"@) ==> (request(
            m,
            sites,
            externals,
        ) matches DispatchView::Explore { plan } && plan.url == given.strings["url"@] && plan.site
            == (if given.strings.contains_key("site"@) {
            Some(given.strings["site"@])
        } else {
            None
        }) && plan.goal == (if given.strings.contains_key("goal"@) {
            Some(given.strings["goal"@])
        } else {
            None
        }) && plan.timeout_seconds == 120 && plan.max_scrolls == 3 && plan.capture_network
            && plan.wait_seconds == (if given.strings.contains_key("wait"@) && parsed(
            given.strings["wait"@],
            u64::MAX as nat,
        ) is Some {
            parsed(given.strings["wait"@], u64::MAX as nat)->0
        } else {
            3
        }) && plan.auto_fuzz == given.flags["auto"@] && plan.click_labels == (
        if given.strings.contains_key("click"@) {
            split_trimmed(given.strings["click"@], ',')
        } else {
            Seq::empty()
        })),
{
    lemma_builtin_names_differ();
}

/// A name without a meaning of its own asks for the external program of that name, with
/// everything that follows it on the line, in order; else for the command of the site of
/// that name; else, if a command was named, says that it is unknown, and if none was,
/// asks for the help of the site.
pub proof fn law_other_names_ask_for_programs_and_sites(
    m: MatchesModel,
    name: Seq<char>,
    given: MatchesModel,
    sites: Seq<SiteView>,
    externals: Seq<ExternalCliView>,
)
    requires
        called(m, name, given),
        name != "doctor"@,
        name != "completion"@,
        name != "auth"@,
        name != "explore"@,
        name != "cascade"@,
        name != "generate"@,
    ensures
        external_named(externals, name) matches Some(p) ==> (request(
            m,
            sites,
            externals,
        ) matches DispatchView::External { program, args } && program == p && (match given.sub {
            None => args.len() == 0,
            Some((first, then)) => args.len() == then.rest.len() + 1 && args[0] == first && (
            forall|k: int| 0 <= k < then.rest.len() ==> args[k + 1] == #[trigger] then.rest[k]),
        })),
        external_named(externals, name) is None && given.sub is None ==> request(
            m,
            sites,
            externals,
        ) == (DispatchView::SiteHelp { site: name }),
        external_named(externals, name) is None && given.sub is Some ==> (match command_named(
            sites,
            name,
            (given.sub->0).0,
        ) {
            Some(c) => request(m, sites, externals) matches DispatchView::Run {
                site,
                command,
                raw_args,
            } && site == name && command == c && raw_args == given_args(
                c.args,
                (given.sub->0).1.strings,
            ),
            None => request(m, sites, externals) == (DispatchView::UnknownCommand {
                site: name,
                name: (given.sub->0).0,
            }),
        }),
{
}

/// The values for two lists of arguments together are those for each, one after the
/// other; an argument has its value under its name where one was given, and is left out
/// where none was.
pub proof fn law_given_args_add_up(
    a: Seq<ArgDefView>,
    b: Seq<ArgDefView>,
    def: ArgDefView,
    strings: Map<Seq<char>, Seq<char>>,
)
    ensures
        given_args(a + b, strings) == given_args(a, strings) + given_args(b, strings),
        given_args(seq![def], strings) == (if strings.contains_key(def.name) {
            seq![(def.name, strings[def.name])]
        } else {
            Seq::empty()
        }),
        given_args(Seq::empty(), strings).len() == 0,
    decreases b.len(),
{
    assert(seq![def].drop_last() =~= Seq::<ArgDefView>::empty());
    assert(given_args(seq![def].drop_last(), strings) =~= Seq::empty());
    assert(given_args(seq![def], strings) =~= (if strings.contains_key(def.name) {
        seq![(def.name, strings[def.name])]
    } else {
        Seq::empty()
    }));
    if b.len() == 0 {
        assert(a + b =~= a);
        assert(given_args(a + b, strings) =~= given_args(a, strings) + given_args(b, strings));
    } else {
        law_given_args_add_up(a, b.drop_last(), def, strings);
        assert((a + b).drop_last() =~= a + b.drop_last());
        assert((a + b).last() == b.last());
        assert(given_args(a + b, strings) =~= given_args(a, strings) + given_args(b, strings));
    }
}

} // verus!
