use clap::{ArgAction, Command};
use opencli_rs::catalog::{find_external, ArgDef, CliCommand, ExternalCli, Registry, Site};
use opencli_rs::cli::build_cli;
use opencli_rs::dispatch::{dispatch, selected_format, wants_verbose, Dispatch};
use serde_json::Value;

fn arg(name: &str, positional: bool, required: bool, default: Option<Value>) -> ArgDef {
    ArgDef {
        name: name.to_string(),
        positional,
        description: Some(format!("the {}", name)),
        required,
        default,
    }
}

fn command(site: &str, name: &str, args: Vec<ArgDef>) -> CliCommand {
    CliCommand {
        name: name.to_string(),
        full_name: format!("{} {}", site, name),
        description: format!("about {}", name),
        args,
        columns: vec![],
        domain: None,
        timeout_seconds: None,
        needs_browser: false,
        has_pipeline: true,
        has_func: false,
    }
}

fn registry() -> Registry {
    let top = command(
        "hackernews",
        "top",
        vec![
            arg("query", true, true, None),
            arg("limit", false, false, Some(Value::from(20))),
            arg("kind", false, false, Some(Value::from("story"))),
            arg("page", false, false, None),
        ],
    );
    let best = command("hackernews", "best", vec![]);
    let hot = command("zhihu", "hot", vec![]);
    Registry {
        sites: vec![
            Site { name: "hackernews".to_string(), commands: vec![top, best] },
            Site { name: "zhihu".to_string(), commands: vec![hot] },
        ],
    }
}

fn externals() -> Vec<ExternalCli> {
    vec![
        ExternalCli {
            name: "gh".to_string(),
            description: "GitHub".to_string(),
            binary: "gh-bin".to_string(),
        },
        ExternalCli {
            name: "docker".to_string(),
            description: "Containers".to_string(),
            binary: "docker".to_string(),
        },
    ]
}

fn parse(args: &[&str]) -> clap::ArgMatches {
    let mut line = vec!["opencli-rs"];
    line.extend_from_slice(args);
    build_cli("1.2.3", &registry(), &externals()).try_get_matches_from(line).unwrap()
}

fn sub<'a>(command: &'a Command, name: &str) -> &'a Command {
    command.get_subcommands().find(|c| c.get_name() == name).unwrap()
}

fn the_arg<'a>(command: &'a Command, id: &str) -> &'a clap::Arg {
    command.get_arguments().find(|a| a.get_id().as_str() == id).unwrap()
}

fn defaults(arg: &clap::Arg) -> Vec<String> {
    arg.get_default_values().iter().map(|v| v.to_str().unwrap().to_string()).collect()
}

fn help(arg: &clap::Arg) -> Option<String> {
    arg.get_help().map(|h| h.to_string())
}

#[test]
fn the_program_describes_itself() {
    let app = build_cli("1.2.3", &registry(), &externals());
    assert_eq!(app.get_name(), "opencli-rs");
    assert_eq!(app.get_version(), Some("1.2.3"));
    assert_eq!(
        app.get_about().unwrap().to_string(),
        "AI-driven CLI tool — turns websites into command-line interfaces"
    );
}

#[test]
fn two_arguments_hold_everywhere() {
    let app = build_cli("1.2.3", &registry(), &externals());
    assert_eq!(app.get_arguments().count(), 2);
    let format = the_arg(&app, "format");
    assert_eq!(format.get_long(), Some("format"));
    assert_eq!(format.get_short(), Some('f'));
    assert!(format.is_global_set());
    assert_eq!(defaults(format), vec!["table"]);
    assert_eq!(help(format).as_deref(), Some("Output format: table, json, yaml, csv, md"));
    let verbose = the_arg(&app, "verbose");
    assert_eq!(verbose.get_long(), Some("verbose"));
    assert_eq!(verbose.get_short(), Some('v'));
    assert!(verbose.is_global_set());
    assert!(matches!(verbose.get_action(), ArgAction::SetTrue));
    assert_eq!(help(verbose).as_deref(), Some("Enable verbose output"));
}

#[test]
fn the_subcommands_stand_in_order() {
    let app = build_cli("1.2.3", &registry(), &externals());
    let names: Vec<&str> = app.get_subcommands().map(|c| c.get_name()).collect();
    assert_eq!(
        names,
        vec![
            "hackernews", "zhihu", "gh", "docker", "doctor", "completion", "explore", "cascade",
            "generate", "auth",
        ]
    );
}

#[test]
fn without_sites_the_builtins_are_offered_alone() {
    let app = build_cli("1", &Registry { sites: vec![] }, &vec![]);
    let names: Vec<&str> = app.get_subcommands().map(|c| c.get_name()).collect();
    assert_eq!(names, vec!["doctor", "completion", "explore", "cascade", "generate", "auth"]);
}

#[test]
fn a_site_command_offers_its_arguments() {
    let app = build_cli("1.2.3", &registry(), &externals());
    let site = sub(&app, "hackernews");
    let names: Vec<&str> = site.get_subcommands().map(|c| c.get_name()).collect();
    assert_eq!(names, vec!["top", "best"]);
    let top = sub(site, "top");
    assert_eq!(top.get_about().unwrap().to_string(), "about top");
    let ids: Vec<&str> = top.get_arguments().map(|a| a.get_id().as_str()).collect();
    assert_eq!(ids, vec!["query", "limit", "kind", "page"]);
    let query = the_arg(top, "query");
    assert!(query.is_positional());
    assert!(query.is_required_set());
    assert_eq!(help(query).as_deref(), Some("the query"));
    let limit = the_arg(top, "limit");
    assert_eq!(limit.get_long(), Some("limit"));
    assert_eq!(limit.get_short(), None);
    assert!(!limit.is_required_set());
    assert_eq!(defaults(limit), vec!["20"]);
    assert!(defaults(the_arg(top, "page")).is_empty());
}

#[test]
fn a_text_default_has_no_quotes() {
    let app = build_cli("1.2.3", &registry(), &externals());
    let top = sub(sub(&app, "hackernews"), "top");
    assert_eq!(defaults(the_arg(top, "kind")), vec!["story"]);
}

#[test]
fn other_defaults_are_written_as_json() {
    let cases = [
        ("null", "null"),
        ("true", "true"),
        ("false", "false"),
        ("-3", "-3"),
        ("1.5", "1.5"),
        (" [ 1 , \"a\" , [ ] ] ", "[1,\"a\",[]]"),
        ("{ \"a\" : { \"b\" : null } }", "{\"a\":{\"b\":null}}"),
        ("\"q\\\"x\"", "q\"x"),
    ];
    for (json, text) in cases {
        let value: Value = serde_json::from_str(json).unwrap();
        let registry = Registry {
            sites: vec![Site {
                name: "s".to_string(),
                commands: vec![command("s", "c", vec![arg("a", false, false, Some(value))])],
            }],
        };
        let app = build_cli("1", &registry, &vec![]);
        assert_eq!(defaults(the_arg(sub(sub(&app, "s"), "c"), "a")), vec![text]);
    }
}

#[test]
fn an_argument_without_description_has_no_help() {
    let mut def = arg("a", false, false, None);
    def.description = None;
    let registry = Registry {
        sites: vec![Site {
            name: "s".to_string(),
            commands: vec![command("s", "c", vec![def])],
        }],
    };
    let app = build_cli("1", &registry, &vec![]);
    assert_eq!(help(the_arg(sub(sub(&app, "s"), "c"), "a")), None);
}

#[test]
fn external_programs_accept_what_follows() {
    let app = build_cli("1.2.3", &registry(), &externals());
    let gh = sub(&app, "gh");
    assert!(gh.is_allow_external_subcommands_set());
    assert_eq!(gh.get_about().unwrap().to_string(), "GitHub");
    assert!(!sub(&app, "doctor").is_allow_external_subcommands_set());
}

#[test]
fn the_builtins_offer_their_arguments() {
    let app = build_cli("1.2.3", &registry(), &externals());
    let explore = sub(&app, "explore");
    let ids: Vec<&str> = explore.get_arguments().map(|a| a.get_id().as_str()).collect();
    assert_eq!(ids, vec!["url", "site", "goal", "wait", "auto", "click"]);
    assert!(the_arg(explore, "url").is_required_set());
    assert!(the_arg(explore, "url").is_positional());
    assert_eq!(defaults(the_arg(explore, "wait")), vec!["3"]);
    assert!(matches!(the_arg(explore, "auto").get_action(), ArgAction::SetTrue));
    assert_eq!(
        help(the_arg(explore, "click")).as_deref(),
        Some("Comma-separated labels to click before fuzzing (e.g. 'Comments,CC,字幕')")
    );
    let generate = sub(&app, "generate");
    let ids: Vec<&str> = generate.get_arguments().map(|a| a.get_id().as_str()).collect();
    assert_eq!(ids, vec!["url", "goal", "site", "ai"]);
    let auth = sub(&app, "auth");
    assert!(the_arg(auth, "token").is_required_set());
    assert_eq!(the_arg(auth, "token").get_long(), Some("token"));
    assert!(the_arg(sub(&app, "cascade"), "url").is_required_set());
    assert_eq!(
        sub(&app, "doctor").get_about().unwrap().to_string(),
        "Run diagnostics checks"
    );
}

#[test]
fn completion_takes_shells_only() {
    let app = build_cli("1.2.3", &registry(), &externals());
    assert!(app.clone().try_get_matches_from(["opencli-rs", "completion", "zsh"]).is_ok());
    assert!(app.clone().try_get_matches_from(["opencli-rs", "completion", "cmd"]).is_err());
    assert!(app.try_get_matches_from(["opencli-rs", "completion"]).is_err());
}

#[test]
fn required_arguments_are_demanded() {
    for line in [
        vec!["opencli-rs", "auth"],
        vec!["opencli-rs", "explore"],
        vec!["opencli-rs", "cascade"],
        vec!["opencli-rs", "generate"],
        vec!["opencli-rs", "hackernews", "top"],
    ] {
        let app = build_cli("1.2.3", &registry(), &externals());
        assert!(app.try_get_matches_from(line).is_err());
    }
}

#[test]
fn format_and_verbosity_are_read() {
    let m = parse(&[]);
    assert_eq!(selected_format(&m).as_deref(), Some("table"));
    assert_eq!(wants_verbose(&m), Some(false));
    let m = parse(&["zhihu", "hot", "--format", "json", "-v"]);
    assert_eq!(selected_format(&m).as_deref(), Some("json"));
    assert_eq!(wants_verbose(&m), Some(true));
    let m = parse(&["-f", "csv", "doctor"]);
    assert_eq!(selected_format(&m).as_deref(), Some("csv"));
}

#[test]
fn a_command_line_without_these_arguments_gives_nothing() {
    let m = Command::new("x").try_get_matches_from(["x"]).unwrap();
    assert_eq!(selected_format(&m), None);
    assert_eq!(wants_verbose(&m), None);
}

#[test]
fn no_subcommand_asks_for_nothing() {
    let (reg, ext) = (registry(), externals());
    assert!(matches!(dispatch(&parse(&[]), &reg, &ext), Dispatch::NoCommand));
}

#[test]
fn builtins_are_dispatched() {
    let (reg, ext) = (registry(), externals());
    assert!(matches!(dispatch(&parse(&["doctor"]), &reg, &ext), Dispatch::Doctor));
    match dispatch(&parse(&["completion", "fish"]), &reg, &ext) {
        Dispatch::Completion { shell } => assert_eq!(shell, "fish"),
        _ => panic!("completion expected"),
    }
    match dispatch(&parse(&["auth", "--token", "acli_x"]), &reg, &ext) {
        Dispatch::Auth { token } => assert_eq!(token, "acli_x"),
        _ => panic!("auth expected"),
    }
    match dispatch(&parse(&["cascade", "https://x.com/api"]), &reg, &ext) {
        Dispatch::Cascade { url } => assert_eq!(url, "https://x.com/api"),
        _ => panic!("cascade expected"),
    }
}

#[test]
fn generate_is_dispatched() {
    let (reg, ext) = (registry(), externals());
    match dispatch(&parse(&["generate", "u", "--goal", "hot", "--ai"]), &reg, &ext) {
        Dispatch::Generate { url, goal, use_ai } => {
            assert_eq!(url, "u");
            assert_eq!(goal.as_deref(), Some("hot"));
            assert!(use_ai);
        }
        _ => panic!("generate expected"),
    }
    match dispatch(&parse(&["generate", "u", "--site", "s"]), &reg, &ext) {
        Dispatch::Generate { goal, use_ai, .. } => {
            assert_eq!(goal, None);
            assert!(!use_ai);
        }
        _ => panic!("generate expected"),
    }
}

#[test]
fn explore_is_dispatched() {
    let (reg, ext) = (registry(), externals());
    let line = [
        "explore", "https://x.com", "--site", "x", "--goal", "search", "--wait", "7", "--auto",
        "--click", "Comments, CC ,字幕",
    ];
    match dispatch(&parse(&line), &reg, &ext) {
        Dispatch::Explore { plan } => {
            assert_eq!(plan.url, "https://x.com");
            assert_eq!(plan.site.as_deref(), Some("x"));
            assert_eq!(plan.goal.as_deref(), Some("search"));
            assert_eq!(plan.timeout_seconds, 120);
            assert_eq!(plan.max_scrolls, 3);
            assert!(plan.capture_network);
            assert_eq!(plan.wait_seconds, 7);
            assert!(plan.auto_fuzz);
            assert_eq!(plan.click_labels, vec!["Comments", "CC", "字幕"]);
        }
        _ => panic!("explore expected"),
    }
}

#[test]
fn explore_has_defaults() {
    let (reg, ext) = (registry(), externals());
    for line in [vec!["explore", "u"], vec!["explore", "u", "--wait", "soon"]] {
        match dispatch(&parse(&line), &reg, &ext) {
            Dispatch::Explore { plan } => {
                assert_eq!(plan.wait_seconds, 3);
                assert_eq!(plan.site, None);
                assert_eq!(plan.goal, None);
                assert!(!plan.auto_fuzz);
                assert!(plan.click_labels.is_empty());
            }
            _ => panic!("explore expected"),
        }
    }
}

#[test]
fn external_programs_are_dispatched() {
    let (reg, ext) = (registry(), externals());
    match dispatch(&parse(&["gh", "pr", "list", "--json", "字"]), &reg, &ext) {
        Dispatch::External { program, args } => {
            assert_eq!(program.binary, "gh-bin");
            assert_eq!(args, vec!["pr", "list", "--json", "字"]);
        }
        _ => panic!("external program expected"),
    }
    match dispatch(&parse(&["docker"]), &reg, &ext) {
        Dispatch::External { program, args } => {
            assert_eq!(program.name, "docker");
            assert!(args.is_empty());
        }
        _ => panic!("external program expected"),
    }
}

#[test]
fn registered_commands_are_dispatched_with_given_values() {
    let (reg, ext) = (registry(), externals());
    match dispatch(&parse(&["hackernews", "top", "rust", "--kind", "job"]), &reg, &ext) {
        Dispatch::Run { site, command, raw_args } => {
            assert_eq!(site, "hackernews");
            assert_eq!(command.full_name, "hackernews top");
            let pairs: Vec<(&str, &str)> =
                raw_args.iter().map(|(k, v)| (k.as_str(), v.as_str())).collect();
            assert_eq!(pairs, vec![("query", "rust"), ("limit", "20"), ("kind", "job")]);
        }
        _ => panic!("command expected"),
    }
}

#[test]
fn a_site_alone_asks_for_its_help() {
    let (reg, ext) = (registry(), externals());
    match dispatch(&parse(&["hackernews"]), &reg, &ext) {
        Dispatch::SiteHelp { site } => assert_eq!(site, "hackernews"),
        _ => panic!("help expected"),
    }
}

#[test]
fn a_command_that_is_not_registered_is_unknown() {
    let m = parse(&["zhihu", "hot"]);
    let (none, ext) = (Registry { sites: vec![] }, externals());
    match dispatch(&m, &none, &ext) {
        Dispatch::UnknownCommand { site, name } => {
            assert_eq!(site, "zhihu");
            assert_eq!(name, "hot");
        }
        _ => panic!("unknown command expected"),
    }
}

#[test]
fn builtins_come_before_external_programs_and_sites() {
    let m = parse(&["doctor"]);
    let ext = vec![ExternalCli {
        name: "doctor".to_string(),
        description: String::new(),
        binary: String::new(),
    }];
    let reg = Registry { sites: vec![Site { name: "doctor".to_string(), commands: vec![] }] };
    assert!(matches!(dispatch(&m, &reg, &ext), Dispatch::Doctor));
}

#[test]
fn external_programs_come_before_sites() {
    let m = parse(&["zhihu", "hot"]);
    let ext = vec![ExternalCli {
        name: "zhihu".to_string(),
        description: String::new(),
        binary: "z".to_string(),
    }];
    let reg = registry();
    match dispatch(&m, &reg, &ext) {
        Dispatch::External { program, args } => {
            assert_eq!(program.binary, "z");
            assert_eq!(args, vec!["hot"]);
        }
        _ => panic!("external program expected"),
    }
}

#[test]
fn values_that_are_needed_are_missed() {
    let (reg, ext) = (registry(), externals());
    let cases = [
        ("auth", "token"),
        ("completion", "shell"),
        ("cascade", "url"),
        ("explore", "url"),
        ("generate", "url"),
    ];
    for (name, id) in cases {
        let bare = Command::new("x").subcommand(Command::new(name));
        let m = bare.try_get_matches_from(["x", name]).unwrap();
        match dispatch(&m, &reg, &ext) {
            Dispatch::Missing { id: missing } => assert_eq!(missing, id),
            _ => panic!("missing value expected"),
        }
    }
    for (name, id) in [("explore", "auto"), ("generate", "ai")] {
        let bare = Command::new("x").subcommand(Command::new(name).arg(clap::Arg::new("url")));
        let m = bare.try_get_matches_from(["x", name, "u"]).unwrap();
        match dispatch(&m, &reg, &ext) {
            Dispatch::Missing { id: missing } => assert_eq!(missing, id),
            _ => panic!("missing value expected"),
        }
    }
}

#[test]
fn the_first_of_a_name_is_found() {
    let reg = Registry {
        sites: vec![
            Site { name: "a".to_string(), commands: vec![] },
            Site {
                name: "a".to_string(),
                commands: vec![command("first", "x", vec![]), command("second", "x", vec![])],
            },
        ],
    };
    assert_eq!(reg.get("a", "x").unwrap().full_name, "first x");
    assert!(reg.get("a", "y").is_none());
    assert!(reg.get("b", "x").is_none());
    assert!(reg.sites[0].command("x").is_none());
    let ext = externals();
    assert_eq!(find_external(&ext, "docker").unwrap().binary, "docker");
    assert!(find_external(&ext, "dock").is_none());
}
