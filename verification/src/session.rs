//! A session with the browser: exploring a site, probing an endpoint, generating an
//! adapter.
//!
//! [`advance`] decides; the program around the library does what each [`Effect`]
//! says, in order, and hands back what came of the last one as an [`Event`].
use vstd::prelude::*;
use vstd::string::*;
use crate::adapters::{
    choice_lines, choices, choose_adapter, chosen_adapter, law_both_names_stand_in_the_chosen_line,
    match_views, AdapterMatch, AdapterMatchView,
};
use crate::dispatch::{ExplorePlan, ExplorePlanView};
use crate::report::{error_lines, print_error, ErrorReport, ErrorReportView};
use crate::text::{contains_text, opt_text, text_or, texts};

verus! {

/// What a session is for.
pub enum Task {
    /// Explore a site.
    Explore { plan: ExplorePlan },
    /// Find out how an endpoint authenticates.
    Cascade { url: String },
    /// Generate an adapter by rules.
    Generate { url: String, goal: Option<String> },
    /// Take an adapter from the server, or generate one with a language model.
    GenerateAi { url: String, goal: Option<String> },
}

/// What a [`Task`] says.
pub enum TaskView {
    Explore { plan: ExplorePlanView },
    Cascade { url: Seq<char> },
    Generate { url: Seq<char>, goal: Option<Seq<char>> },
    GenerateAi { url: Seq<char>, goal: Option<Seq<char>> },
}

impl View for Task {
    type V = TaskView;

    open spec fn view(&self) -> TaskView {
        match *self {
            Task::Explore { plan } => TaskView::Explore { plan: plan@ },
            Task::Cascade { url } => TaskView::Cascade { url: url@ },
            Task::Generate { url, goal } => TaskView::Generate { url: url@, goal: opt_text(goal) },
            Task::GenerateAi { url, goal } => TaskView::GenerateAi {
                url: url@,
                goal: opt_text(goal),
            },
        }
    }
}

/// The task of generating an adapter: with the language model where the user asks for
/// it, by rules otherwise.
pub fn generate_task(url: String, goal: Option<String>, use_ai: bool) -> (r: Task)
    ensures
        r@ == (if use_ai {
            TaskView::GenerateAi { url: url@, goal: opt_text(goal) }
        } else {
            TaskView::Generate { url: url@, goal: opt_text(goal) }
        }),
        use_ai ==> r == (Task::GenerateAi { url, goal }),
        !use_ai ==> r == (Task::Generate { url, goal }),
{
    if use_ai {
        Task::GenerateAi { url, goal }
    } else {
        Task::Generate { url, goal }
    }
}

/// How far a session has got.
pub enum State {
    /// Nothing was done yet.
    Start,
    /// A browser page is asked for.
    Connecting,
    /// The task runs in the page.
    Working,
    /// The configuration is asked for.
    LoadingConfig,
    /// The server is asked for adapters.
    Searching { llm_configured: bool },
    /// The user is asked which adapter to use.
    Choosing { llm_configured: bool, matches: Vec<AdapterMatch> },
    /// The language model generates an adapter.
    Generating,
    /// The session is over.
    Done,
}

/// What a [`State`] says.
pub enum StateView {
    Start,
    Connecting,
    Working,
    LoadingConfig,
    Searching { llm_configured: bool },
    Choosing { llm_configured: bool, matches: Seq<AdapterMatchView> },
    Generating,
    Done,
}

impl View for State {
    type V = StateView;

    open spec fn view(&self) -> StateView {
        match *self {
            State::Start => StateView::Start,
            State::Connecting => StateView::Connecting,
            State::Working => StateView::Working,
            State::LoadingConfig => StateView::LoadingConfig,
            State::Searching { llm_configured } => StateView::Searching { llm_configured },
            State::Choosing { llm_configured, matches } => StateView::Choosing {
                llm_configured,
                matches: match_views(matches@),
            },
            State::Generating => StateView::Generating,
            State::Done => StateView::Done,
        }
    }
}

/// What came of an effect.
pub enum Event {
    /// The session is to begin.
    Begin,
    /// The browser page is there.
    Connected,
    /// The task has a result to print.
    Output { text: String },
    /// An adapter was generated.
    Candidate { site: String, name: String, yaml: String },
    /// Connecting, the task or the language model has failed.
    Failed { error: ErrorReport },
    /// The configuration.
    Config { token: Option<String>, llm_configured: bool },
    /// The server has answered.
    Found { result: Result<Vec<AdapterMatch>, String> },
    /// The user has chosen a line.
    Chosen { line: String },
    /// The user has not chosen.
    Cancelled,
}

/// What an [`Event`] says.
pub enum EventView {
    Begin,
    Connected,
    Output { text: Seq<char> },
    Candidate { site: Seq<char>, name: Seq<char>, yaml: Seq<char> },
    Failed { error: ErrorReportView },
    Config { token: Option<Seq<char>>, llm_configured: bool },
    Found { result: Result<Seq<AdapterMatchView>, Seq<char>> },
    Chosen { line: Seq<char> },
    Cancelled,
}

impl View for Event {
    type V = EventView;

    open spec fn view(&self) -> EventView {
        match *self {
            Event::Begin => EventView::Begin,
            Event::Connected => EventView::Connected,
            Event::Output { text } => EventView::Output { text: text@ },
            Event::Candidate { site, name, yaml } => EventView::Candidate {
                site: site@,
                name: name@,
                yaml: yaml@,
            },
            Event::Failed { error } => EventView::Failed { error: error@ },
            Event::Config { token, llm_configured } => EventView::Config {
                token: opt_text(token),
                llm_configured,
            },
            Event::Found { result: Ok(list) } => EventView::Found {
                result: Ok(match_views(list@)),
            },
            Event::Found { result: Err(message) } => EventView::Found { result: Err(message@) },
            Event::Chosen { line } => EventView::Chosen { line: line@ },
            Event::Cancelled => EventView::Cancelled,
        }
    }
}

/// Something to do.
pub enum Effect {
    /// Ask the daemon at the port for a browser page.
    Connect { port: u16 },
    /// Explore a site.
    Explore { plan: ExplorePlan },
    /// Probe an endpoint.
    Cascade { url: String },
    /// Generate an adapter by rules, for the goal.
    Generate { url: String, goal: String },
    /// Read the configuration.
    LoadConfig,
    /// Ask the server for adapters for the URL.
    Search { url: String, token: String },
    /// Ask the user to choose a line.
    Choose { message: String, lines: Vec<String> },
    /// Generate an adapter with the language model, for the goal.
    GenerateAi { url: String, goal: String },
    /// Close the page.
    ClosePage,
    /// Keep an adapter.
    Save { site: String, name: String, yaml: String },
    /// Send an adapter to the server.
    Upload { yaml: String },
    /// Say something to the user, line by line.
    Say { lines: Vec<String> },
    /// Print output.
    Print { text: String },
    /// End the program with the code.
    Exit { code: i32 },
}

/// What an [`Effect`] says.
pub enum EffectView {
    Connect { port: nat },
    Explore { plan: ExplorePlanView },
    Cascade { url: Seq<char> },
    Generate { url: Seq<char>, goal: Seq<char> },
    LoadConfig,
    Search { url: Seq<char>, token: Seq<char> },
    Choose { message: Seq<char>, lines: Seq<Seq<char>> },
    GenerateAi { url: Seq<char>, goal: Seq<char> },
    ClosePage,
    Save { site: Seq<char>, name: Seq<char>, yaml: Seq<char> },
    Upload { yaml: Seq<char> },
    Say { lines: Seq<Seq<char>> },
    Print { text: Seq<char> },
    Exit { code: int },
}

impl View for Effect {
    type V = EffectView;

    open spec fn view(&self) -> EffectView {
        match *self {
            Effect::Connect { port } => EffectView::Connect { port: port as nat },
            Effect::Explore { plan } => EffectView::Explore { plan: plan@ },
            Effect::Cascade { url } => EffectView::Cascade { url: url@ },
            Effect::Generate { url, goal } => EffectView::Generate { url: url@, goal: goal@ },
            Effect::LoadConfig => EffectView::LoadConfig,
            Effect::Search { url, token } => EffectView::Search { url: url@, token: token@ },
            Effect::Choose { message, lines } => EffectView::Choose {
                message: message@,
                lines: texts(lines@),
            },
            Effect::GenerateAi { url, goal } => EffectView::GenerateAi { url: url@, goal: goal@ },
            Effect::ClosePage => EffectView::ClosePage,
            Effect::Save { site, name, yaml } => EffectView::Save {
                site: site@,
                name: name@,
                yaml: yaml@,
            },
            Effect::Upload { yaml } => EffectView::Upload { yaml: yaml@ },
            Effect::Say { lines } => EffectView::Say { lines: texts(lines@) },
            Effect::Print { text } => EffectView::Print { text: text@ },
            Effect::Exit { code } => EffectView::Exit { code: code as int },
        }
    }
}

/// What a list of effects says.
pub open spec fn effect_views(list: Seq<Effect>) -> Seq<EffectView> {
    list.map_values(|e: Effect| e@)
}

/// What is said where there is no token.
pub open spec fn no_token_line() -> Seq<char> {
    "❌ 未认证，请先运行: opencli-rs auth --token <token>"@
}

/// What is said where the language model is not configured.
pub open spec fn no_llm_lines() -> Seq<Seq<char>> {
    seq![
        "❌ LLM not configured. Create ~/.opencli-rs/config.json:"@,
        "   {"@,
        "     \"llm\": {"@,
        "       \"endpoint\": \"https://api.openai.com/v1/chat/completions\","@,
        "       \"apikey\": \"sk-...\","@,
        "       \"modelname\": \"gpt-4o\""@,
        "     }"@,
        "   }"@,
    ]
}

/// The URL that the task is about.
pub open spec fn url_of(task: TaskView) -> Seq<char> {
    match task {
        TaskView::Explore { plan } => plan.url,
        TaskView::Cascade { url } => url,
        TaskView::Generate { url, .. } => url,
        TaskView::GenerateAi { url, .. } => url,
    }
}

/// The goal that an adapter is generated for where the user names none.
pub open spec fn default_goal(task: TaskView) -> Seq<char> {
    if task is GenerateAi {
        "hot"@
    } else {
        Seq::empty()
    }
}

/// The goal that an adapter is generated for.
pub open spec fn goal_of(task: TaskView) -> Seq<char> {
    match task {
        TaskView::Generate { goal, .. } | TaskView::GenerateAi { goal, .. } => text_or(
            goal,
            default_goal(task),
        ),
        _ => Seq::empty(),
    }
}

/// What is done once the page is there.
pub open spec fn first_work(task: TaskView) -> (StateView, EffectView) {
    match task {
        TaskView::Explore { plan } => (StateView::Working, EffectView::Explore { plan }),
        TaskView::Cascade { url } => (StateView::Working, EffectView::Cascade { url }),
        TaskView::Generate { url, .. } => (
            StateView::Working,
            EffectView::Generate { url, goal: goal_of(task) },
        ),
        TaskView::GenerateAi { .. } => (StateView::LoadingConfig, EffectView::LoadConfig),
    }
}

/// What is done where a new adapter is wanted: the language model generates one, if
/// it is configured.
pub open spec fn new_adapter(task: TaskView, llm_configured: bool) -> (StateView, Seq<EffectView>) {
    if llm_configured {
        (
            StateView::Generating,
            seq![EffectView::GenerateAi { url: url_of(task), goal: goal_of(task) }],
        )
    } else {
        (
            StateView::Done,
            seq![
                EffectView::Say { lines: no_llm_lines() },
                EffectView::ClosePage,
                EffectView::Exit { code: 1 },
            ],
        )
    }
}

/// What is done after the server has answered.
pub open spec fn after_search(
    task: TaskView,
    llm_configured: bool,
    result: Result<Seq<AdapterMatchView>, Seq<char>>,
) -> (StateView, Seq<EffectView>) {
    match result {
        Err(message) => (
            StateView::Done,
            seq![
                EffectView::Say { lines: seq![message] },
                EffectView::ClosePage,
                EffectView::Exit { code: 1 },
            ],
        ),
        Ok(matches) => if matches.len() == 0 {
            let (next, effects) = new_adapter(task, llm_configured);
            (
                next,
                seq![EffectView::Say { lines: seq!["📭 未找到已有配置，开始 AI 生成..."@] }]
                    + effects,
            )
        } else {
            (
                StateView::Choosing { llm_configured, matches },
                seq![
                    EffectView::Choose {
                        message: "找到以下已有配置，请选择:"@,
                        lines: choices(matches),
                    },
                ],
            )
        },
    }
}

/// What is done after the user has chosen a line.
pub open spec fn after_choice(
    task: TaskView,
    llm_configured: bool,
    matches: Seq<AdapterMatchView>,
    line: Seq<char>,
) -> (StateView, Seq<EffectView>) {
    match chosen_adapter(matches, line) {
        Some(i) => (
            StateView::Done,
            seq![
                EffectView::Save {
                    site: matches[i].site_name,
                    name: matches[i].cmd_name,
                    yaml: matches[i].config,
                },
                EffectView::ClosePage,
                EffectView::Exit { code: 0 },
            ],
        ),
        None => new_adapter(task, llm_configured),
    }
}

/// What is done after the work in the page has failed.
pub open spec fn after_failure(error: ErrorReportView) -> (StateView, Seq<EffectView>) {
    (
        StateView::Done,
        seq![
            EffectView::ClosePage,
            EffectView::Say { lines: error_lines(error) },
            EffectView::Exit { code: 1 },
        ],
    )
}

/// What comes of the task is printed.
pub open spec fn prints(task: TaskView) -> bool {
    task is Explore || task is Cascade
}

/// How far the session gets by an event, and what is done. An event that was not
/// waited for changes nothing.
pub open spec fn transition(
    task: TaskView,
    daemon: nat,
    state: StateView,
    event: EventView,
) -> (StateView, Seq<EffectView>) {
    match (state, event) {
        (StateView::Start, EventView::Begin) => (
            StateView::Connecting,
            seq![EffectView::Connect { port: daemon }],
        ),
        (StateView::Connecting, EventView::Connected) => {
            let (next, effect) = first_work(task);
            (next, seq![effect])
        },
        (StateView::Connecting, EventView::Failed { error }) => (
            StateView::Done,
            seq![EffectView::Say { lines: error_lines(error) }, EffectView::Exit { code: 1 }],
        ),
        (StateView::Working, EventView::Output { text }) if prints(task) => (
            StateView::Done,
            seq![
                EffectView::ClosePage,
                EffectView::Print { text },
                EffectView::Exit { code: 0 },
            ],
        ),
        (StateView::Working, EventView::Candidate { site, name, yaml }) if task is Generate => (
            StateView::Done,
            seq![
                EffectView::ClosePage,
                EffectView::Save { site, name, yaml },
                EffectView::Exit { code: 0 },
            ],
        ),
        (StateView::Working, EventView::Failed { error }) => after_failure(error),
        (StateView::LoadingConfig, EventView::Config { token, llm_configured }) => match token {
            Some(token) => (
                StateView::Searching { llm_configured },
                seq![
                    EffectView::Say { lines: seq!["🔍 Searching for existing adapters..."@] },
                    EffectView::Search { url: url_of(task), token },
                ],
            ),
            None => (
                StateView::Done,
                seq![
                    EffectView::Say { lines: seq![no_token_line()] },
                    EffectView::ClosePage,
                    EffectView::Exit { code: 1 },
                ],
            ),
        },
        (StateView::Searching { llm_configured }, EventView::Found { result }) => after_search(
            task,
            llm_configured,
            result,
        ),
        (StateView::Choosing { llm_configured, matches }, EventView::Chosen { line }) => after_choice(
            task,
            llm_configured,
            matches,
            line,
        ),
        (StateView::Choosing { .. }, EventView::Cancelled) => (
            StateView::Done,
            seq![
                EffectView::Say { lines: seq!["已取消"@] },
                EffectView::ClosePage,
                EffectView::Exit { code: 0 },
            ],
        ),
        (StateView::Generating, EventView::Candidate { site, name, yaml }) => (
            StateView::Done,
            seq![
                EffectView::ClosePage,
                EffectView::Save { site, name, yaml },
                EffectView::Upload { yaml },
                EffectView::Exit { code: 0 },
            ],
        ),
        (StateView::Generating, EventView::Failed { error }) => after_failure(error),
        _ => (state, Seq::empty()),
    }
}

fn one(effect: Effect) -> (r: Vec<Effect>)
    ensures
        effect_views(r@) == seq![effect@],
{
    let mut r: Vec<Effect> = Vec::new();
    r.push(effect);
    assert(effect_views(r@) =~= seq![effect@]);
    r
}

fn two(a: Effect, b: Effect) -> (r: Vec<Effect>)
    ensures
        effect_views(r@) == seq![a@, b@],
{
    let mut r: Vec<Effect> = Vec::new();
    r.push(a);
    r.push(b);
    assert(effect_views(r@) =~= seq![a@, b@]);
    r
}

fn three(a: Effect, b: Effect, c: Effect) -> (r: Vec<Effect>)
    ensures
        effect_views(r@) == seq![a@, b@, c@],
{
    let mut r: Vec<Effect> = Vec::new();
    r.push(a);
    r.push(b);
    r.push(c);
    assert(effect_views(r@) =~= seq![a@, b@, c@]);
    r
}

fn four(a: Effect, b: Effect, c: Effect, d: Effect) -> (r: Vec<Effect>)
    ensures
        effect_views(r@) == seq![a@, b@, c@, d@],
{
    let mut r: Vec<Effect> = Vec::new();
    r.push(a);
    r.push(b);
    r.push(c);
    r.push(d);
    assert(effect_views(r@) =~= seq![a@, b@, c@, d@]);
    r
}

fn say(line: &str) -> (r: Effect)
    ensures
        r@ == (EffectView::Say { lines: seq![line@] }),
{
    let mut lines: Vec<String> = Vec::new();
    lines.push(line.to_owned());
    assert(texts(lines@) =~= seq![line@]);
    Effect::Say { lines }
}

fn say_no_llm() -> (r: Effect)
    ensures
        r@ == (EffectView::Say { lines: no_llm_lines() }),
{
    let mut lines: Vec<String> = Vec::new();
    lines.push("❌ LLM not configured. Create ~/.opencli-rs/config.json:".to_owned());
    lines.push("   {".to_owned());
    lines.push("     \"llm\": {".to_owned());
    lines.push(
        "       \"endpoint\": \"https://api.openai.com/v1/chat/completions\",".to_owned(),
    );
    lines.push("       \"apikey\": \"sk-...\",".to_owned());
    lines.push("       \"modelname\": \"gpt-4o\"".to_owned());
    lines.push("     }".to_owned());
    lines.push("   }".to_owned());
    assert(texts(lines@) =~= no_llm_lines());
    Effect::Say { lines }
}

fn task_url(task: &Task) -> (r: String)
    ensures
        r@ == url_of(task@),
{
    match task {
        Task::Explore { plan } => plan.url.clone(),
        Task::Cascade { url } => url.clone(),
        Task::Generate { url, .. } => url.clone(),
        Task::GenerateAi { url, .. } => url.clone(),
    }
}

fn task_prints(task: &Task) -> (r: bool)
    ensures
        r == prints(task@),
{
    match task {
        Task::Explore { .. } => true,
        Task::Cascade { .. } => true,
        _ => false,
    }
}

fn task_generates(task: &Task) -> (r: bool)
    ensures
        r == (task@ is Generate),
{
    match task {
        Task::Generate { .. } => true,
        _ => false,
    }
}

fn task_goal(task: &Task) -> (r: String)
    ensures
        r@ == goal_of(task@),
{
    match task {
        Task::Generate { goal, .. } => match goal {
            Some(g) => g.clone(),
            None => String::new(),
        },
        Task::GenerateAi { goal, .. } => match goal {
            Some(g) => g.clone(),
            None => "hot".to_owned(),
        },
        _ => String::new(),
    }
}

fn start_work(task: &Task) -> (r: (State, Effect))
    ensures
        (r.0@, r.1@) == first_work(task@),
{
    match task {
        Task::Explore { plan } => (State::Working, Effect::Explore { plan: plan.copy() }),
        Task::Cascade { url } => (State::Working, Effect::Cascade { url: url.clone() }),
        Task::Generate { url, .. } => (
            State::Working,
            Effect::Generate { url: url.clone(), goal: task_goal(task) },
        ),
        Task::GenerateAi { .. } => (State::LoadingConfig, Effect::LoadConfig),
    }
}

fn generate_new(task: &Task, llm_configured: bool) -> (r: (State, Vec<Effect>))
    ensures
        (r.0@, effect_views(r.1@)) == new_adapter(task@, llm_configured),
{
    if llm_configured {
        (
            State::Generating,
            one(Effect::GenerateAi { url: task_url(task), goal: task_goal(task) }),
        )
    } else {
        (State::Done, three(say_no_llm(), Effect::ClosePage, Effect::Exit { code: 1 }))
    }
}

fn on_search(
    task: &Task,
    llm_configured: bool,
    result: Result<Vec<AdapterMatch>, String>,
) -> (r: (State, Vec<Effect>))
    ensures
        (r.0@, effect_views(r.1@)) == after_search(
            task@,
            llm_configured,
            match result {
                Ok(list) => Ok(match_views(list@)),
                Err(message) => Err(message@),
            },
        ),
{
    match result {
        Err(message) => (
            State::Done,
            three(say(message.as_str()), Effect::ClosePage, Effect::Exit { code: 1 }),
        ),
        Ok(matches) => {
            if matches.len() == 0 {
                let mut effects = one(say("📭 未找到已有配置，开始 AI 生成..."));
                let (next, mut then_do) = generate_new(task, llm_configured);
                let ghost before = effects@;
                let ghost after = then_do@;
                effects.append(&mut then_do);
                assert(effect_views(effects@) =~= effect_views(before) + effect_views(after));
                (next, effects)
            } else {
                let lines = choice_lines(&matches);
                let ask = Effect::Choose {
                    message: "找到以下已有配置，请选择:".to_owned(),
                    lines,
                };
                (State::Choosing { llm_configured, matches }, one(ask))
            }
        },
    }
}

fn on_choice(
    task: &Task,
    llm_configured: bool,
    matches: Vec<AdapterMatch>,
    line: String,
) -> (r: (State, Vec<Effect>))
    ensures
        (r.0@, effect_views(r.1@)) == after_choice(
            task@,
            llm_configured,
            match_views(matches@),
            line@,
        ),
{
    match choose_adapter(&matches, line.as_str()) {
        Some(i) => {
            let m = &matches[i];
            let save = Effect::Save {
                site: m.site_name.clone(),
                name: m.cmd_name.clone(),
                yaml: m.config.clone(),
            };
            (State::Done, three(save, Effect::ClosePage, Effect::Exit { code: 0 }))
        },
        None => generate_new(task, llm_configured),
    }
}

fn on_failure(error: ErrorReport) -> (r: (State, Vec<Effect>))
    ensures
        (r.0@, effect_views(r.1@)) == after_failure(error@),
{
    (
        State::Done,
        three(
            Effect::ClosePage,
            Effect::Say { lines: print_error(&error) },
            Effect::Exit { code: 1 },
        ),
    )
}

/// How far the session gets by an event, and what is to be done, in order.
pub fn advance(task: &Task, daemon: u16, state: State, event: Event) -> (r: (State, Vec<Effect>))
    ensures
        (r.0@, effect_views(r.1@)) == transition(task@, daemon as nat, state@, event@),
{
    match (state, event) {
        (State::Start, Event::Begin) => (
            State::Connecting,
            one(Effect::Connect { port: daemon }),
        ),
        (State::Connecting, Event::Connected) => {
            let (next, effect) = start_work(task);
            (next, one(effect))
        },
        (State::Connecting, Event::Failed { error }) => (
            State::Done,
            two(Effect::Say { lines: print_error(&error) }, Effect::Exit { code: 1 }),
        ),
        (State::Working, Event::Output { text }) if task_prints(task) => (
            State::Done,
            three(Effect::ClosePage, Effect::Print { text }, Effect::Exit { code: 0 }),
        ),
        (State::Working, Event::Candidate { site, name, yaml }) if task_generates(task) => (
            State::Done,
            three(
                Effect::ClosePage,
                Effect::Save { site, name, yaml },
                Effect::Exit { code: 0 },
            ),
        ),
        (State::Working, Event::Failed { error }) => on_failure(error),
        (State::LoadingConfig, Event::Config { token, llm_configured }) => match token {
            Some(token) => (
                State::Searching { llm_configured },
                two(
                    say("🔍 Searching for existing adapters..."),
                    Effect::Search { url: task_url(task), token },
                ),
            ),
            None => (
                State::Done,
                three(
                    say("❌ 未认证，请先运行: opencli-rs auth --token <token>"),
                    Effect::ClosePage,
                    Effect::Exit { code: 1 },
                ),
            ),
        },
        (State::Searching { llm_configured }, Event::Found { result }) => on_search(
            task,
            llm_configured,
            result,
        ),
        (State::Choosing { llm_configured, matches }, Event::Chosen { line }) => on_choice(
            task,
            llm_configured,
            matches,
            line,
        ),
        (State::Choosing { .. }, Event::Cancelled) => (
            State::Done,
            three(say("已取消"), Effect::ClosePage, Effect::Exit { code: 0 }),
        ),
        (State::Generating, Event::Candidate { site, name, yaml }) => {
            let upload = Effect::Upload { yaml: yaml.clone() };
            let save = Effect::Save { site, name, yaml };
            (State::Done, four(Effect::ClosePage, save, upload, Effect::Exit { code: 0 }))
        },
        (State::Generating, Event::Failed { error }) => on_failure(error),
        (state, _) => {
            let none: Vec<Effect> = Vec::new();
            assert(effect_views(none@) =~= Seq::empty());
            (state, none)
        },
    }
}

/// The page is open.
pub open spec fn page_open(state: StateView) -> bool {
    !(state is Start || state is Connecting || state is Done)
}

/// How often the page is closed.
pub open spec fn closings(effects: Seq<EffectView>) -> nat
    decreases effects.len(),
{
    if effects.len() == 0 {
        0
    } else {
        closings(effects.drop_last()) + (if effects.last() is ClosePage {
            1nat
        } else {
            0
        })
    }
}

proof fn lemma_closings_add(a: Seq<EffectView>, b: Seq<EffectView>)
    ensures
        closings(a + b) == closings(a) + closings(b),
    decreases b.len(),
{
    if b.len() == 0 {
        assert(a + b =~= a);
    } else {
        assert((a + b).drop_last() =~= a + b.drop_last());
        lemma_closings_add(a, b.drop_last());
    }
}

/// A step closes the page once if the session leaves it, and does not close it
/// otherwise.
pub proof fn law_a_step_closes_the_page_it_leaves(
    task: TaskView,
    daemon: nat,
    state: StateView,
    event: EventView,
)
    ensures
        ({
            let (next, effects) = transition(task, daemon, state, event);
            &&& closings(effects) == (if page_open(state) && !page_open(next) {
                1nat
            } else {
                0
            })
            &&& !page_open(state) && page_open(next) <==> state is Connecting && event is Connected
        }),
{
    let (next, effects) = transition(task, daemon, state, event);
    reveal_with_fuel(closings, 6);
    match (state, event) {
        (StateView::Searching { llm_configured }, EventView::Found { result: Ok(matches) }) => {
            if matches.len() == 0 {
                let say = seq![
                    EffectView::Say { lines: seq!["📭 未找到已有配置，开始 AI 生成..."@] },
                ];
                lemma_closings_add(say, new_adapter(task, llm_configured).1);
            }
        },
        _ => {},
    }
}

/// An effect that works with the page.
pub open spec fn uses_page(effect: EffectView) -> bool {
    ||| effect is Explore
    ||| effect is Cascade
    ||| effect is Generate
    ||| effect is GenerateAi
}

/// A step that works with the page leaves it open: nothing is done with a page that
/// was closed, or that is not there.
pub proof fn law_only_an_open_page_is_used(
    task: TaskView,
    daemon: nat,
    state: StateView,
    event: EventView,
    k: int,
)
    requires
        0 <= k < transition(task, daemon, state, event).1.len(),
        uses_page(transition(task, daemon, state, event).1[k]),
    ensures
        page_open(transition(task, daemon, state, event).0),
        closings(transition(task, daemon, state, event).1) == 0,
{
    law_a_step_closes_the_page_it_leaves(task, daemon, state, event);
}

/// How far a session has got after the given events.
pub open spec fn state_after(task: TaskView, daemon: nat, events: Seq<EventView>) -> StateView
    decreases events.len(),
{
    if events.len() == 0 {
        StateView::Start
    } else {
        transition(
            task,
            daemon,
            state_after(task, daemon, events.drop_last()),
            events.last(),
        ).0
    }
}

/// What is done after the event at position `k`.
pub open spec fn effects_at(task: TaskView, daemon: nat, events: Seq<EventView>, k: int) -> Seq<
    EffectView,
> {
    transition(task, daemon, state_after(task, daemon, events.take(k)), events[k]).1
}

/// All that is done in the course of the given events.
pub open spec fn all_effects(task: TaskView, daemon: nat, events: Seq<EventView>) -> Seq<EffectView>
    decreases events.len(),
{
    if events.len() == 0 {
        Seq::empty()
    } else {
        all_effects(task, daemon, events.drop_last()) + transition(
            task,
            daemon,
            state_after(task, daemon, events.drop_last()),
            events.last(),
        ).1
    }
}

/// The session has got a page from the daemon.
pub open spec fn got_page(task: TaskView, daemon: nat, events: Seq<EventView>) -> bool
    decreases events.len(),
{
    events.len() > 0 && (got_page(task, daemon, events.drop_last()) || (events.last() is Connected
        && state_after(task, daemon, events.drop_last()) is Connecting))
}

/// Whatever happens, a page is not closed while the session goes on, and once the
/// session is over, a page that it got was closed exactly once; without a page,
/// nothing is closed.
pub proof fn law_the_page_is_closed_exactly_once(
    task: TaskView,
    daemon: nat,
    events: Seq<EventView>,
)
    ensures
        page_open(state_after(task, daemon, events)) ==> got_page(task, daemon, events),
        closings(all_effects(task, daemon, events)) == (if state_after(
            task,
            daemon,
            events,
        ) is Done && got_page(task, daemon, events) {
            1nat
        } else {
            0
        }),
    decreases events.len(),
{
    if events.len() > 0 {
        let before = events.drop_last();
        let state = state_after(task, daemon, before);
        law_the_page_is_closed_exactly_once(task, daemon, before);
        law_a_step_closes_the_page_it_leaves(task, daemon, state, events.last());
        lemma_closings_add(
            all_effects(task, daemon, before),
            transition(task, daemon, state, events.last()).1,
        );
        lemma_page_was_got(task, daemon, before);
    }
}

proof fn lemma_page_was_got(task: TaskView, daemon: nat, events: Seq<EventView>)
    ensures
        state_after(task, daemon, events) is Start || state_after(task, daemon, events) is Connecting
            ==> !got_page(task, daemon, events),
    decreases events.len(),
{
    if events.len() > 0 {
        lemma_page_was_got(task, daemon, events.drop_last());
    }
}

/// The step in which a session ends, and only that one, ends the program, as the last
/// thing that it does, with the code 0 or 1; a session that is over does nothing more.
pub proof fn law_the_session_ends_the_program_once(
    task: TaskView,
    daemon: nat,
    state: StateView,
    event: EventView,
)
    ensures
        ({
            let (next, effects) = transition(task, daemon, state, event);
            &&& state is Done ==> next is Done && effects.len() == 0
            &&& state !is Done && next is Done ==> effects.len() > 0 && (
            effects.last() matches EffectView::Exit { code } && (code == 0 || code == 1))
            &&& forall|k: int|
                0 <= k < effects.len() && (#[trigger] effects[k]) is Exit ==> state !is Done
                    && next is Done && k == effects.len() - 1
        }),
{
}

/// An adapter is kept or output is printed.
pub open spec fn delivers(effects: Seq<EffectView>) -> bool {
    exists|k: int|
        0 <= k < effects.len() && (#[trigger] effects[k] is Save || effects[k] is Print)
}

/// The program ends with the code 0 where the session has delivered an adapter or
/// output, or was cancelled by the user; in every other case it ends with 1.
pub proof fn law_the_exit_code_tells_success(
    task: TaskView,
    daemon: nat,
    state: StateView,
    event: EventView,
)
    requires
        state !is Done,
        transition(task, daemon, state, event).0 is Done,
    ensures
        transition(task, daemon, state, event).1.last() == (EffectView::Exit {
            code: if delivers(transition(task, daemon, state, event).1) || event is Cancelled {
                0
            } else {
                1
            },
        }),
{
    let effects = transition(task, daemon, state, event).1;
    assert(effects[0] is Save || effects[1] is Save || effects[1] is Print ==> delivers(effects));
}

/// How many answers a session still waits for at most.
pub open spec fn steps_left(state: StateView) -> nat {
    match state {
        StateView::Start => 6,
        StateView::Connecting => 5,
        StateView::LoadingConfig => 4,
        StateView::Searching { .. } => 3,
        StateView::Choosing { .. } => 2,
        StateView::Working => 1,
        StateView::Generating => 1,
        StateView::Done => 0,
    }
}

/// Each step that does something brings the session nearer to its end; a step that
/// does nothing changes nothing.
pub proof fn law_a_step_gets_on(task: TaskView, daemon: nat, state: StateView, event: EventView)
    ensures
        ({
            let (next, effects) = transition(task, daemon, state, event);
            if effects.len() == 0 {
                next == state
            } else {
                steps_left(next) < steps_left(state)
            }
        }),
{
}

/// How many of the events made the session do something.
pub open spec fn steps_taken(task: TaskView, daemon: nat, events: Seq<EventView>) -> nat
    decreases events.len(),
{
    if events.len() == 0 {
        0
    } else {
        let before = events.drop_last();
        let effects = transition(task, daemon, state_after(task, daemon, before), events.last()).1;
        steps_taken(task, daemon, before) + (if effects.len() == 0 {
            0nat
        } else {
            1
        })
    }
}

/// A session takes six steps at most, whatever happens.
pub proof fn law_sessions_are_short(task: TaskView, daemon: nat, events: Seq<EventView>)
    ensures
        steps_taken(task, daemon, events) + steps_left(state_after(task, daemon, events)) <= 6,
    decreases events.len(),
{
    if events.len() > 0 {
        let before = events.drop_last();
        law_sessions_are_short(task, daemon, before);
        law_a_step_gets_on(task, daemon, state_after(task, daemon, before), events.last());
    }
}

/// A session that is not over waits for something: there is an event by which it
/// gets on.
pub proof fn law_sessions_can_go_on(task: TaskView, daemon: nat, state: StateView)
    requires
        state !is Done,
    ensures
        exists|event: EventView| #[trigger]
            transition(task, daemon, state, event).1.len() > 0,
{
    let error = ErrorReportView {
        icon: Seq::empty(),
        message: Seq::empty(),
        suggestions: Seq::empty(),
    };
    let event = match state {
        StateView::Start => EventView::Begin,
        StateView::Connecting => EventView::Connected,
        StateView::Working => EventView::Failed { error },
        StateView::LoadingConfig => EventView::Config { token: None, llm_configured: false },
        StateView::Searching { .. } => EventView::Found { result: Err(Seq::empty()) },
        StateView::Choosing { .. } => EventView::Cancelled,
        StateView::Generating => EventView::Failed { error },
        StateView::Done => EventView::Begin,
    };
    assert(transition(task, daemon, state, event).1.len() > 0);
}

/// The configuration that was read has a token and a language model.
pub open spec fn has_token_and_llm(events: Seq<EventView>) -> bool {
    exists|k: int|
        0 <= k < events.len() && (#[trigger] events[k] matches EventView::Config {
            token,
            llm_configured,
        } && token is Some && llm_configured)
}

proof fn lemma_config_was_read(task: TaskView, daemon: nat, events: Seq<EventView>)
    ensures
        match state_after(task, daemon, events) {
            StateView::Searching { llm_configured }
            | StateView::Choosing { llm_configured, .. } => llm_configured ==> has_token_and_llm(
                events,
            ),
            StateView::Generating => has_token_and_llm(events),
            _ => true,
        },
    decreases events.len(),
{
    if events.len() > 0 {
        let before = events.drop_last();
        lemma_config_was_read(task, daemon, before);
        if has_token_and_llm(before) {
            let k = choose|k: int|
                0 <= k < before.len() && (#[trigger] before[k] matches EventView::Config {
                    token,
                    llm_configured,
                } && token is Some && llm_configured);
            assert(events[k] == before[k]);
        }
        assert(events[events.len() - 1] == events.last());
    }
}

/// Whatever happens, the server is asked only with a token that the configuration
/// holds, and the language model is asked only where the configuration that was read
/// holds a token and the language model.
pub proof fn law_nothing_is_asked_without_its_configuration(
    task: TaskView,
    daemon: nat,
    events: Seq<EventView>,
    k: int,
    j: int,
)
    requires
        0 <= k < events.len(),
        0 <= j < effects_at(task, daemon, events, k).len(),
    ensures
        match effects_at(task, daemon, events, k)[j] {
            EffectView::Search { url, token } => url == url_of(task) && (
            events[k] matches EventView::Config { token: t, .. } && t == Some(token)),
            EffectView::GenerateAi { url, goal } => url == url_of(task) && goal == goal_of(task)
                && has_token_and_llm(events.take(k)),
            _ => true,
        },
{
    lemma_config_was_read(task, daemon, events.take(k));
}

/// What is kept was offered by the server and chosen, or was just generated; and only
/// what the language model has just generated is sent to the server.
pub proof fn law_what_is_kept_and_sent(
    task: TaskView,
    daemon: nat,
    state: StateView,
    event: EventView,
    j: int,
)
    requires
        0 <= j < transition(task, daemon, state, event).1.len(),
    ensures
        match transition(task, daemon, state, event).1[j] {
            EffectView::Save { site, name, yaml } => {
                ||| event == (EventView::Candidate { site, name, yaml })
                ||| (state matches StateView::Choosing { matches, .. } && exists|i: int|
                    0 <= i < matches.len() && (#[trigger] matches[i]).site_name == site
                        && matches[i].cmd_name == name && matches[i].config == yaml)
            },
            EffectView::Upload { yaml } => state is Generating && (
            event matches EventView::Candidate { yaml: y, .. } && y == yaml),
            _ => true,
        },
{
    match (state, event) {
        (StateView::Choosing { matches, .. }, EventView::Chosen { line }) => {
            crate::adapters::lemma_first_fit(matches, line, 0);
        },
        _ => {},
    }
}

/// Without the language model's flag the configuration is not read and the server is
/// not asked: neither a session that explores or probes, nor one that generates by
/// rules, gets there.
pub proof fn law_rules_need_no_configuration(
    task: TaskView,
    daemon: nat,
    events: Seq<EventView>,
)
    requires
        task !is GenerateAi,
    ensures
        ({
            let state = state_after(task, daemon, events);
            state is Start || state is Connecting || state is Working || state is Done
        }),
    decreases events.len(),
{
    if events.len() > 0 {
        law_rules_need_no_configuration(task, daemon, events.drop_last());
    }
}

/// The views hold what stands there.
pub proof fn law_views_hold_sessions(
    task: Task,
    state: State,
    event: Event,
    effect: Effect,
    effects: Seq<Effect>,
)
    ensures
        match task {
            Task::Explore { plan } => task@ == (TaskView::Explore { plan: plan@ }),
            Task::Cascade { url } => task@ == (TaskView::Cascade { url: url@ }),
            Task::Generate { url, goal } => task@ == (TaskView::Generate {
                url: url@,
                goal: opt_text(goal),
            }),
            Task::GenerateAi { url, goal } => task@ == (TaskView::GenerateAi {
                url: url@,
                goal: opt_text(goal),
            }),
        },
        match state {
            State::Start => state@ is Start,
            State::Connecting => state@ is Connecting,
            State::Working => state@ is Working,
            State::LoadingConfig => state@ is LoadingConfig,
            State::Searching { llm_configured } => state@ == (StateView::Searching {
                llm_configured,
            }),
            State::Choosing { llm_configured, matches } => state@ == (StateView::Choosing {
                llm_configured,
                matches: match_views(matches@),
            }),
            State::Generating => state@ is Generating,
            State::Done => state@ is Done,
        },
        match event {
            Event::Begin => event@ is Begin,
            Event::Connected => event@ is Connected,
            Event::Output { text } => event@ == (EventView::Output { text: text@ }),
            Event::Candidate { site, name, yaml } => event@ == (EventView::Candidate {
                site: site@,
                name: name@,
                yaml: yaml@,
            }),
            Event::Failed { error } => event@ == (EventView::Failed { error: error@ }),
            Event::Config { token, llm_configured } => event@ == (EventView::Config {
                token: opt_text(token),
                llm_configured,
            }),
            Event::Found { result: Ok(list) } => event@ == (EventView::Found {
                result: Ok(match_views(list@)),
            }),
            Event::Found { result: Err(message) } => event@ == (EventView::Found {
                result: Err(message@),
            }),
            Event::Chosen { line } => event@ == (EventView::Chosen { line: line@ }),
            Event::Cancelled => event@ is Cancelled,
        },
        match effect {
            Effect::Connect { port } => effect@ == (EffectView::Connect { port: port as nat }),
            Effect::Explore { plan } => effect@ == (EffectView::Explore { plan: plan@ }),
            Effect::Cascade { url } => effect@ == (EffectView::Cascade { url: url@ }),
            Effect::Generate { url, goal } => effect@ == (EffectView::Generate {
                url: url@,
                goal: goal@,
            }),
            Effect::LoadConfig => effect@ is LoadConfig,
            Effect::Search { url, token } => effect@ == (EffectView::Search {
                url: url@,
                token: token@,
            }),
            Effect::Choose { message, lines } => effect@ == (EffectView::Choose {
                message: message@,
                lines: texts(lines@),
            }),
            Effect::GenerateAi { url, goal } => effect@ == (EffectView::GenerateAi {
                url: url@,
                goal: goal@,
            }),
            Effect::ClosePage => effect@ is ClosePage,
            Effect::Save { site, name, yaml } => effect@ == (EffectView::Save {
                site: site@,
                name: name@,
                yaml: yaml@,
            }),
            Effect::Upload { yaml } => effect@ == (EffectView::Upload { yaml: yaml@ }),
            Effect::Say { lines } => effect@ == (EffectView::Say { lines: texts(lines@) }),
            Effect::Print { text } => effect@ == (EffectView::Print { text: text@ }),
            Effect::Exit { code } => effect@ == (EffectView::Exit { code: code as int }),
        },
        effect_views(effects).len() == effects.len(),
        forall|k: int| 0 <= k < effects.len() ==> #[trigger] effect_views(effects)[k] == effects[k]@,
{
}

/// A task is about the URL that it names. An adapter is generated for the goal that was
/// named, whichever way it is generated; where none was, by rules it is generated for no
/// goal in particular, and by the language model for what is hot.
pub proof fn law_tasks_keep_their_url_and_goal(
    plan: ExplorePlanView,
    url: Seq<char>,
    goal: Option<Seq<char>>,
)
    ensures
        url_of(TaskView::Explore { plan }) == plan.url,
        url_of(TaskView::Cascade { url }) == url,
        url_of(TaskView::Generate { url, goal }) == url,
        url_of(TaskView::GenerateAi { url, goal }) == url,
        goal matches Some(g) ==> goal_of(TaskView::Generate { url, goal }) == g && goal_of(
            TaskView::GenerateAi { url, goal },
        ) == g,
        goal is None ==> goal_of(TaskView::Generate { url, goal }) == Seq::<char>::empty()
            && goal_of(TaskView::GenerateAi { url, goal }) == "hot"@,
{
}

/// A session begins by asking the daemon for a page, and does nothing else before; once
/// the page is there, the task is set to work with all that it was given, except that
/// with the language model the configuration is read first; and where there is no page,
/// the error is shown and the program ends.
pub proof fn law_a_session_connects_and_sets_to_work(
    task: TaskView,
    daemon: nat,
    error: ErrorReportView,
)
    ensures
        transition(task, daemon, StateView::Start, EventView::Begin) == (
            StateView::Connecting,
            seq![EffectView::Connect { port: daemon }],
        ),
        transition(task, daemon, StateView::Connecting, EventView::Connected) == (match task {
            TaskView::Explore { plan } => (StateView::Working, seq![EffectView::Explore { plan }]),
            TaskView::Cascade { url } => (StateView::Working, seq![EffectView::Cascade { url }]),
            TaskView::Generate { url, goal: Some(goal) } => (
                StateView::Working,
                seq![EffectView::Generate { url, goal }],
            ),
            TaskView::Generate { url, goal: None } => (
                StateView::Working,
                seq![EffectView::Generate { url, goal: Seq::empty() }],
            ),
            TaskView::GenerateAi { .. } => (
                StateView::LoadingConfig,
                seq![EffectView::LoadConfig],
            ),
        }),
        transition(task, daemon, StateView::Connecting, EventView::Failed { error }) == (
            StateView::Done,
            seq![EffectView::Say { lines: error_lines(error) }, EffectView::Exit { code: 1 }],
        ),
{
}

/// What is printed is what the task came to: a step prints only the text that has just
/// come out, and exploring and probing alike print it, once the page is closed.
pub proof fn law_what_comes_out_is_printed(
    task: TaskView,
    daemon: nat,
    state: StateView,
    event: EventView,
    text: Seq<char>,
    k: int,
)
    ensures
        task is Explore || task is Cascade ==> transition(
            task,
            daemon,
            StateView::Working,
            EventView::Output { text },
        ) == (
            StateView::Done,
            seq![
                EffectView::ClosePage,
                EffectView::Print { text },
                EffectView::Exit { code: 0 },
            ],
        ),
        0 <= k < transition(task, daemon, state, event).1.len() && transition(
            task,
            daemon,
            state,
            event,
        ).1[k] == (EffectView::Print { text }) ==> event == (EventView::Output { text }) && state
            is Working,
{
}

/// A generated adapter is kept as it came, once the page is closed; what the language
/// model generated is also sent, after it is kept.
pub proof fn law_a_generated_adapter_is_kept(
    task: TaskView,
    daemon: nat,
    site: Seq<char>,
    name: Seq<char>,
    yaml: Seq<char>,
)
    ensures
        task is Generate ==> transition(
            task,
            daemon,
            StateView::Working,
            EventView::Candidate { site, name, yaml },
        ) == (
            StateView::Done,
            seq![
                EffectView::ClosePage,
                EffectView::Save { site, name, yaml },
                EffectView::Exit { code: 0 },
            ],
        ),
        transition(
            task,
            daemon,
            StateView::Generating,
            EventView::Candidate { site, name, yaml },
        ) == (
            StateView::Done,
            seq![
                EffectView::ClosePage,
                EffectView::Save { site, name, yaml },
                EffectView::Upload { yaml },
                EffectView::Exit { code: 0 },
            ],
        ),
{
}

/// Work that fails ends the session: the page is closed, the error is shown, and the
/// program ends with 1, whatever the task was.
pub proof fn law_failed_work_is_reported(
    task: TaskView,
    daemon: nat,
    state: StateView,
    error: ErrorReportView,
)
    requires
        state is Working || state is Generating,
    ensures
        transition(task, daemon, state, EventView::Failed { error }) == (
            StateView::Done,
            seq![
                EffectView::ClosePage,
                EffectView::Say { lines: error_lines(error) },
                EffectView::Exit { code: 1 },
            ],
        ),
{
}

/// With a token in the configuration the server is asked for adapters for the URL, under
/// that token; without one the session says so and ends.
pub proof fn law_a_token_opens_the_search(
    task: TaskView,
    daemon: nat,
    token: Seq<char>,
    llm_configured: bool,
)
    ensures
        transition(
            task,
            daemon,
            StateView::LoadingConfig,
            EventView::Config { token: Some(token), llm_configured },
        ) == (
            StateView::Searching { llm_configured },
            seq![
                EffectView::Say { lines: seq!["🔍 Searching for existing adapters..."@] },
                EffectView::Search { url: url_of(task), token },
            ],
        ),
        transition(
            task,
            daemon,
            StateView::LoadingConfig,
            EventView::Config { token: None, llm_configured },
        ) == (
            StateView::Done,
            seq![
                EffectView::Say {
                    lines: seq!["❌ 未认证，请先运行: opencli-rs auth --token <token>"@],
                },
                EffectView::ClosePage,
                EffectView::Exit { code: 1 },
            ],
        ),
{
}

/// The lines that say how the language model is configured.
pub proof fn law_the_configuration_is_explained()
    ensures
        no_llm_lines().len() == 8,
        no_llm_lines()[0] == "❌ LLM not configured. Create ~/.opencli-rs/config.json:"@,
        no_llm_lines()[1] == "   {"@,
        no_llm_lines()[2] == "     \"llm\": {"@,
        no_llm_lines()[3]
            == "       \"endpoint\": \"https://api.openai.com/v1/chat/completions\","@,
        no_llm_lines()[4] == "       \"apikey\": \"sk-...\","@,
        no_llm_lines()[5] == "       \"modelname\": \"gpt-4o\""@,
        no_llm_lines()[6] == "     }"@,
        no_llm_lines()[7] == "   }"@,
{
}

/// What the server answers decides: what went wrong is said, and the session ends; all
/// that it offers is offered to the user, who is asked to choose; and where it offers
/// nothing, a new adapter is generated for the URL and the goal, if the language model is
/// configured, and otherwise the session says how to configure it and ends.
pub proof fn law_the_answer_of_the_server_decides(
    task: TaskView,
    daemon: nat,
    llm_configured: bool,
    matches: Seq<AdapterMatchView>,
    message: Seq<char>,
)
    ensures
        transition(
            task,
            daemon,
            StateView::Searching { llm_configured },
            EventView::Found { result: Err(message) },
        ) == (
            StateView::Done,
            seq![
                EffectView::Say { lines: seq![message] },
                EffectView::ClosePage,
                EffectView::Exit { code: 1 },
            ],
        ),
        matches.len() > 0 ==> transition(
            task,
            daemon,
            StateView::Searching { llm_configured },
            EventView::Found { result: Ok(matches) },
        ) == (
            StateView::Choosing { llm_configured, matches },
            seq![
                EffectView::Choose {
                    message: "找到以下已有配置，请选择:"@,
                    lines: choices(matches),
                },
            ],
        ),
        transition(
            task,
            daemon,
            StateView::Searching { llm_configured: true },
            EventView::Found { result: Ok(Seq::empty()) },
        ) == (
            StateView::Generating,
            seq![
                EffectView::Say { lines: seq!["📭 未找到已有配置，开始 AI 生成..."@] },
                EffectView::GenerateAi { url: url_of(task), goal: goal_of(task) },
            ],
        ),
        transition(
            task,
            daemon,
            StateView::Searching { llm_configured: false },
            EventView::Found { result: Ok(Seq::empty()) },
        ) == (
            StateView::Done,
            seq![
                EffectView::Say { lines: seq!["📭 未找到已有配置，开始 AI 生成..."@] },
                EffectView::Say { lines: no_llm_lines() },
                EffectView::ClosePage,
                EffectView::Exit { code: 1 },
            ],
        ),
{
    assert(transition(
        task,
        daemon,
        StateView::Searching { llm_configured: true },
        EventView::Found { result: Ok(Seq::empty()) },
    ).1 =~= seq![
        EffectView::Say { lines: seq!["📭 未找到已有配置，开始 AI 生成..."@] },
        EffectView::GenerateAi { url: url_of(task), goal: goal_of(task) },
    ]);
    assert(transition(
        task,
        daemon,
        StateView::Searching { llm_configured: false },
        EventView::Found { result: Ok(Seq::empty()) },
    ).1 =~= seq![
        EffectView::Say { lines: seq!["📭 未找到已有配置，开始 AI 生成..."@] },
        EffectView::Say { lines: no_llm_lines() },
        EffectView::ClosePage,
        EffectView::Exit { code: 1 },
    ]);
}

/// The choice of the user decides: an adapter whose command and site both stand in the
/// chosen line, the first such one, is kept as the server offered it; else a new one is
/// generated for the URL and the goal, if the language model is configured. Who cancels
/// gets nothing, and ends the program without an error.
pub proof fn law_the_choice_of_the_user_decides(
    task: TaskView,
    daemon: nat,
    llm_configured: bool,
    matches: Seq<AdapterMatchView>,
    line: Seq<char>,
    i: int,
)
    ensures
        0 <= i < matches.len() && !"🔄"@.is_prefix_of(line) && contains_text(
            line,
            matches[i].cmd_name,
        ) && contains_text(line, matches[i].site_name) && (forall|j: int|
            0 <= j < i ==> !(contains_text(line, (#[trigger] matches[j]).cmd_name)
                && contains_text(line, matches[j].site_name))) ==> transition(
            task,
            daemon,
            StateView::Choosing { llm_configured, matches },
            EventView::Chosen { line },
        ) == (
            StateView::Done,
            seq![
                EffectView::Save {
                    site: matches[i].site_name,
                    name: matches[i].cmd_name,
                    yaml: matches[i].config,
                },
                EffectView::ClosePage,
                EffectView::Exit { code: 0 },
            ],
        ),
        "🔄"@.is_prefix_of(line) || (forall|j: int|
            0 <= j < matches.len() ==> !(contains_text(line, (#[trigger] matches[j]).cmd_name)
                && contains_text(line, matches[j].site_name))) ==> transition(
            task,
            daemon,
            StateView::Choosing { llm_configured, matches },
            EventView::Chosen { line },
        ) == (if llm_configured {
            (
                StateView::Generating,
                seq![EffectView::GenerateAi { url: url_of(task), goal: goal_of(task) }],
            )
        } else {
            (
                StateView::Done,
                seq![
                    EffectView::Say { lines: no_llm_lines() },
                    EffectView::ClosePage,
                    EffectView::Exit { code: 1 },
                ],
            )
        }),
        transition(
            task,
            daemon,
            StateView::Choosing { llm_configured, matches },
            EventView::Cancelled,
        ) == (
            StateView::Done,
            seq![
                EffectView::Say { lines: seq!["已取消"@] },
                EffectView::ClosePage,
                EffectView::Exit { code: 0 },
            ],
        ),
{
    law_both_names_stand_in_the_chosen_line(matches, line);
    match chosen_adapter(matches, line) {
        Some(c) => {
            assert(contains_text(line, matches[c].cmd_name));
            if 0 <= i < c {
                assert(!(contains_text(line, matches[i].cmd_name) && contains_text(
                    line,
                    matches[i].site_name,
                )));
            }
        },
        None => {},
    }
}

/// An event that does not answer what was last asked for changes nothing, and nothing is
/// done on it.
pub proof fn law_events_out_of_turn_change_nothing(
    task: TaskView,
    daemon: nat,
    state: StateView,
    event: EventView,
)
    requires
        match event {
            EventView::Begin => state !is Start,
            EventView::Connected => state !is Connecting,
            EventView::Output { .. } => state !is Working || task is Generate || task is GenerateAi,
            EventView::Candidate { .. } => state !is Generating && (state !is Working || task
                !is Generate),
            EventView::Failed { .. } => state !is Connecting && state !is Working && state
                !is Generating,
            EventView::Config { .. } => state !is LoadingConfig,
            EventView::Found { .. } => state !is Searching,
            EventView::Chosen { .. } | EventView::Cancelled => state !is Choosing,
        },
    ensures
        transition(task, daemon, state, event).0 == state,
        transition(task, daemon, state, event).1.len() == 0,
{
}

} // verus!
