use opencli_rs::adapters::AdapterMatch;
use opencli_rs::dispatch::ExplorePlan;
use opencli_rs::report::{
    daemon_failure_line, default_log_filter, external_exit_code, no_command_lines, print_error,
    shown_columns, site_help_args, token_not_saved_line, token_saved_line, unknown_command_line,
    wants_daemon, ErrorReport,
};
use opencli_rs::session::{advance, generate_task, Effect, Event, State, Task};

fn generate_ai(goal: Option<&str>) -> Task {
    Task::GenerateAi { url: "u".to_string(), goal: goal.map(|g| g.to_string()) }
}

fn generate(goal: Option<&str>) -> Task {
    Task::Generate { url: "u".to_string(), goal: goal.map(|g| g.to_string()) }
}

fn explore() -> Task {
    Task::Explore {
        plan: ExplorePlan {
            url: "https://x.com".to_string(),
            site: Some("x".to_string()),
            goal: None,
            timeout_seconds: 120,
            max_scrolls: 3,
            capture_network: true,
            wait_seconds: 5,
            auto_fuzz: true,
            click_labels: vec!["CC".to_string()],
        },
    }
}

fn error() -> Event {
    Event::Failed {
        error: ErrorReport {
            icon: "❌".to_string(),
            message: "no page".to_string(),
            suggestions: vec!["try again".to_string()],
        },
    }
}

fn candidate() -> Event {
    Event::Candidate {
        site: "zhihu".to_string(),
        name: "hot".to_string(),
        yaml: "y".to_string(),
    }
}

fn offered(site: &str, cmd: &str) -> AdapterMatch {
    AdapterMatch {
        match_type: "exact".to_string(),
        site_name: site.to_string(),
        cmd_name: cmd.to_string(),
        description: String::new(),
        author: String::new(),
        config: format!("config of {} {}", site, cmd),
    }
}

fn config(token: Option<&str>, llm_configured: bool) -> Event {
    Event::Config { token: token.map(|t| t.to_string()), llm_configured }
}

/// The effects of all the events, each in a word or two.
fn run(task: &Task, events: Vec<Event>) -> (State, Vec<String>) {
    let mut state = State::Start;
    let mut log: Vec<String> = vec![];
    for event in events {
        let (next, effects) = advance(task, 19825, state, event);
        state = next;
        for effect in effects {
            log.push(match effect {
                Effect::Connect { port } => format!("connect {}", port),
                Effect::Explore { plan } => format!("explore {}", plan.url),
                Effect::Cascade { url } => format!("cascade {}", url),
                Effect::Generate { url, goal } => format!("generate {} for '{}'", url, goal),
                Effect::LoadConfig => "config".to_string(),
                Effect::Search { url, token } => format!("search {} as {}", url, token),
                Effect::Choose { message, lines } => format!("{} {}", message, lines.join("|")),
                Effect::GenerateAi { url, goal } => format!("ask {} for '{}'", url, goal),
                Effect::ClosePage => "close".to_string(),
                Effect::Save { site, name, yaml } => format!("save {} {}: {}", site, name, yaml),
                Effect::Upload { yaml } => format!("upload {}", yaml),
                Effect::Say { lines } => format!("say {}", lines.join("|")),
                Effect::Print { text } => format!("print {}", text),
                Effect::Exit { code } => format!("exit {}", code),
            });
        }
    }
    (state, log)
}

fn ended(task: &Task, events: Vec<Event>) -> Vec<String> {
    let (state, log) = run(task, events);
    assert!(matches!(state, State::Done));
    assert!(log.last().unwrap().starts_with("exit "));
    assert_eq!(log.iter().filter(|l| l.starts_with("exit ")).count(), 1);
    log
}

#[test]
fn exploring_prints_what_was_found() {
    let task = explore();
    let events =
        vec![Event::Begin, Event::Connected, Event::Output { text: "{}".to_string() }];
    assert_eq!(
        ended(&task, events),
        vec!["connect 19825", "explore https://x.com", "close", "print {}", "exit 0"]
    );
}

#[test]
fn the_plan_is_handed_on_whole() {
    let task = explore();
    let (_, effects) = advance(&task, 1, State::Connecting, Event::Connected);
    match &effects[0] {
        Effect::Explore { plan } => {
            assert_eq!(plan.url, "https://x.com");
            assert_eq!(plan.site.as_deref(), Some("x"));
            assert_eq!(plan.goal, None);
            assert_eq!(plan.timeout_seconds, 120);
            assert_eq!(plan.max_scrolls, 3);
            assert!(plan.capture_network);
            assert_eq!(plan.wait_seconds, 5);
            assert!(plan.auto_fuzz);
            assert_eq!(plan.click_labels, vec!["CC"]);
        }
        _ => panic!("plan expected"),
    }
}

#[test]
fn probing_closes_the_page_before_it_fails() {
    let task = Task::Cascade { url: "https://x.com/api".to_string() };
    assert_eq!(
        ended(&task, vec![Event::Begin, Event::Connected, error()]),
        vec![
            "connect 19825",
            "cascade https://x.com/api",
            "close",
            "say ❌ no page||  -> try again",
            "exit 1",
        ]
    );
}

#[test]
fn without_a_page_nothing_is_closed() {
    assert_eq!(
        ended(&explore(), vec![Event::Begin, error()]),
        vec!["connect 19825", "say ❌ no page||  -> try again", "exit 1"]
    );
}

#[test]
fn generating_by_rules_keeps_the_adapter() {
    assert_eq!(
        ended(&generate(Some("top")), vec![Event::Begin, Event::Connected, candidate()]),
        vec![
            "connect 19825",
            "generate u for 'top'",
            "close",
            "save zhihu hot: y",
            "exit 0",
        ]
    );
    let (_, log) = run(&generate(None), vec![Event::Begin, Event::Connected]);
    assert_eq!(log, vec!["connect 19825", "generate u for ''"]);
}

#[test]
fn the_flag_selects_how_an_adapter_is_generated() {
    match generate_task("u".to_string(), Some("top".to_string()), true) {
        Task::GenerateAi { url, goal } => {
            assert_eq!(url, "u");
            assert_eq!(goal.as_deref(), Some("top"));
        }
        _ => panic!("the language model expected"),
    }
    match generate_task("u".to_string(), None, false) {
        Task::Generate { url, goal } => {
            assert_eq!(url, "u");
            assert_eq!(goal, None);
        }
        _ => panic!("rules expected"),
    }
}

#[test]
fn the_language_model_needs_a_token() {
    let events = vec![Event::Begin, Event::Connected, config(None, true)];
    assert_eq!(
        ended(&generate_ai(None), events),
        vec![
            "connect 19825",
            "config",
            "say ❌ 未认证，请先运行: opencli-rs auth --token <token>",
            "close",
            "exit 1",
        ]
    );
}

#[test]
fn a_failed_search_ends_the_session() {
    let events = vec![
        Event::Begin,
        Event::Connected,
        config(Some("t"), true),
        Event::Found { result: Err("down".to_string()) },
    ];
    assert_eq!(
        ended(&generate_ai(None), events),
        vec![
            "connect 19825",
            "config",
            "say 🔍 Searching for existing adapters...",
            "search u as t",
            "say down",
            "close",
            "exit 1",
        ]
    );
}

#[test]
fn an_offered_adapter_is_kept_and_not_sent_back() {
    let events = vec![
        Event::Begin,
        Event::Connected,
        config(Some("t"), false),
        Event::Found { result: Ok(vec![offered("zhihu", "hot"), offered("zhihu", "new")]) },
        Event::Chosen { line: "[exact]   zhihu new".to_string() },
    ];
    let log = ended(&generate_ai(None), events);
    assert_eq!(
        log[4],
        "找到以下已有配置，请选择: [exact]   zhihu hot|[exact]   zhihu new|🔄 重新生成 (使用 AI 分析)"
    );
    assert_eq!(log[5..], ["save zhihu new: config of zhihu new", "close", "exit 0"]);
}

#[test]
fn the_user_may_cancel() {
    let events = vec![
        Event::Begin,
        Event::Connected,
        config(Some("t"), true),
        Event::Found { result: Ok(vec![offered("zhihu", "hot")]) },
        Event::Cancelled,
    ];
    let log = ended(&generate_ai(None), events);
    assert_eq!(log[5..], ["say 已取消", "close", "exit 0"]);
}

#[test]
fn a_new_adapter_is_kept_and_sent() {
    let events = vec![
        Event::Begin,
        Event::Connected,
        config(Some("t"), true),
        Event::Found { result: Ok(vec![]) },
        candidate(),
    ];
    let log = ended(&generate_ai(Some("search")), events);
    assert_eq!(
        log[4..],
        [
            "say 📭 未找到已有配置，开始 AI 生成...",
            "ask u for 'search'",
            "close",
            "save zhihu hot: y",
            "upload y",
            "exit 0",
        ]
    );
}

#[test]
fn a_new_adapter_can_be_chosen() {
    for line in ["🔄 重新生成 (使用 AI 分析)", "no such line"] {
        let events = vec![
            Event::Begin,
            Event::Connected,
            config(Some("t"), true),
            Event::Found { result: Ok(vec![offered("zhihu", "hot")]) },
            Event::Chosen { line: line.to_string() },
            error(),
        ];
        let log = ended(&generate_ai(None), events);
        assert_eq!(
            log[5..],
            ["ask u for 'hot'", "close", "say ❌ no page||  -> try again", "exit 1"]
        );
    }
}

#[test]
fn the_language_model_has_to_be_configured() {
    let events = vec![
        Event::Begin,
        Event::Connected,
        config(Some("t"), false),
        Event::Found { result: Ok(vec![]) },
    ];
    let log = ended(&generate_ai(None), events);
    assert_eq!(log[4], "say 📭 未找到已有配置，开始 AI 生成...");
    assert_eq!(
        log[5],
        "say ❌ LLM not configured. Create ~/.opencli-rs/config.json:|   {|     \"llm\": {|       \"endpoint\": \"https://api.openai.com/v1/chat/completions\",|       \"apikey\": \"sk-...\",|       \"modelname\": \"gpt-4o\"|     }|   }"
    );
    assert_eq!(log[6..], ["close", "exit 1"]);
}

#[test]
fn nothing_is_done_after_the_end() {
    let (state, effects) = advance(&explore(), 1, State::Done, Event::Begin);
    assert!(matches!(state, State::Done));
    assert!(effects.is_empty());
}

#[test]
fn events_that_were_not_waited_for_change_nothing() {
    let (state, log) = run(&generate(None), vec![
        Event::Begin,
        Event::Begin,
        Event::Connected,
        Event::Connected,
        Event::Output { text: "x".to_string() },
        Event::Cancelled,
        config(Some("t"), true),
    ]);
    assert!(matches!(state, State::Working));
    assert_eq!(log, vec!["connect 19825", "generate u for ''"]);
    let (state, effects) = advance(&explore(), 1, State::Working, candidate());
    assert!(matches!(state, State::Working));
    assert!(effects.is_empty());
}

#[test]
fn the_page_is_closed_once() {
    let sessions = vec![
        (explore(), vec![Event::Begin, Event::Connected, error(), error()], 1),
        (explore(), vec![Event::Begin, error(), Event::Connected], 0),
        (explore(), vec![Event::Begin, Event::Connected], 0),
        (generate(None), vec![Event::Begin, Event::Connected, candidate(), candidate()], 1),
    ];
    for (task, events, times) in sessions {
        let (_, log) = run(&task, events);
        assert_eq!(log.iter().filter(|l| *l == "close").count(), times);
    }
}

#[test]
fn errors_are_shown_with_what_may_help() {
    let mut err = ErrorReport {
        icon: "🔌".to_string(),
        message: "gone".to_string(),
        suggestions: vec![],
    };
    assert_eq!(print_error(&err), vec!["🔌 gone"]);
    err.suggestions = vec!["one".to_string(), "two".to_string()];
    assert_eq!(print_error(&err), vec!["🔌 gone", "", "  -> one", "  -> two"]);
}

#[test]
fn lines_for_the_user_are_exact() {
    assert_eq!(
        no_command_lines("1.2.3"),
        vec!["opencli-rs v1.2.3", "No command specified. Use --help for usage."]
    );
    assert_eq!(unknown_command_line("zhihu", "hot"), "Unknown command: zhihu hot");
    assert_eq!(site_help_args("zhihu"), vec!["opencli-rs", "zhihu", "--help"]);
    assert_eq!(token_saved_line("/h/config.json"), "✅ Token saved to /h/config.json");
    assert_eq!(token_not_saved_line("full"), "❌ Failed to save token: full");
    assert_eq!(daemon_failure_line("in use"), "Failed to start daemon: in use");
}

#[test]
fn the_program_ends_as_the_external_one() {
    assert_eq!(external_exit_code(Some(0)), 0);
    assert_eq!(external_exit_code(Some(7)), 7);
    assert_eq!(external_exit_code(None), 1);
}

#[test]
fn settings_of_the_program() {
    assert_eq!(default_log_filter(true), "debug");
    assert_eq!(default_log_filter(false), "warn");
    let args = |list: &[&str]| list.iter().map(|s| s.to_string()).collect::<Vec<String>>();
    assert!(wants_daemon(&args(&["opencli-rs", "--daemon"])));
    assert!(!wants_daemon(&args(&["opencli-rs", "--daemons", "daemon"])));
    assert!(!wants_daemon(&args(&[])));
    assert_eq!(shown_columns(&args(&[])), None);
    assert_eq!(shown_columns(&args(&["a", "b"])), Some(args(&["a", "b"])));
}

#[test]
fn a_session_takes_six_steps_at_most() {
    let events = vec![
        Event::Begin,
        Event::Begin,
        Event::Connected,
        Event::Cancelled,
        config(Some("t"), true),
        Event::Found { result: Ok(vec![offered("zhihu", "hot")]) },
        Event::Found { result: Ok(vec![]) },
        Event::Chosen { line: "🔄".to_string() },
        candidate(),
        candidate(),
        error(),
    ];
    let task = generate_ai(None);
    let mut state = State::Start;
    let mut steps = 0;
    for event in events {
        let (next, effects) = advance(&task, 1, state, event);
        state = next;
        if !effects.is_empty() {
            steps += 1;
        }
    }
    assert_eq!(steps, 6);
    assert!(matches!(state, State::Done));
}

#[test]
fn the_page_is_used_before_it_is_closed() {
    let events = vec![
        Event::Begin,
        Event::Connected,
        config(Some("t"), true),
        Event::Found { result: Ok(vec![]) },
        candidate(),
    ];
    let (_, log) = run(&generate_ai(None), events);
    let used = log.iter().position(|l| l == "ask u for 'hot'").unwrap();
    let closed = log.iter().position(|l| l == "close").unwrap();
    assert!(used < closed);
}
