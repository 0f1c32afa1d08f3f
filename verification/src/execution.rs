//! Running a command of a site: under a time limit, in a browser where it needs one.
//!
//! [`execute_command`] decides; the program around the library does what each
//! [`ExecAction`] says and hands back what came of it as an [`ExecEvent`].
use vstd::prelude::*;
use vstd::string::*;
use crate::catalog::{CliCommand, CliCommandView};
use crate::number::{
    decimal, decimal_text, law_written_number_reads_back, number_or, parse_or, parsed,
};
use crate::text::{join2, join3, opt_str};

verus! {

/// The port of the daemon: what the environment names, or 19825 where it names no
/// port.
pub open spec fn port(env: Option<Seq<char>>) -> nat {
    number_or(env, u16::MAX as nat, 19825)
}

/// The port of the daemon.
pub fn daemon_port(env: Option<&str>) -> (r: u16)
    ensures
        r == port(opt_str(env)),
        env is None ==> r == 19825,
        env matches Some(t) ==> r == (match parsed(t@, 65535) {
            Some(n) => n,
            None => 19825,
        }),
{
    let n = parse_or(env, u16::MAX as u64, 19825);
    n as u16
}

/// How many seconds a command may take: what the environment says, else what the
/// command says, else 60.
pub open spec fn time_limit(env: Option<Seq<char>>, own: Option<u64>) -> nat {
    number_or(
        env,
        u64::MAX as nat,
        match own {
            Some(n) => n as nat,
            None => 60,
        },
    )
}

/// How many seconds a command may take.
pub fn command_timeout(env: Option<&str>, own: Option<u64>) -> (r: u64)
    ensures
        r == time_limit(opt_str(env), own),
        env matches Some(t) ==> (parsed(t@, u64::MAX as nat) matches Some(n) ==> r == n),
        env is None || parsed((env->0)@, u64::MAX as nat) is None ==> r == (match own {
            Some(seconds) => seconds,
            None => 60,
        }),
{
    let fallback = match own {
        Some(n) => n,
        None => 60,
    };
    parse_or(env, u64::MAX, fallback)
}

/// How far a command has got.
#[derive(Clone, Copy, PartialEq, Eq, Structural)]
pub enum ExecState {
    /// Nothing was done yet.
    Start,
    /// A browser page is asked for.
    Connecting,
    /// The page visits the domain of the command.
    Navigating,
    /// The command itself runs.
    Running,
    /// The result was returned.
    Done,
}

/// What came of an action.
pub enum ExecEvent<T, E> {
    /// The command is to be run.
    Begin,
    /// The browser page is there.
    Connected,
    /// The page has visited the domain.
    Navigated,
    /// The command has finished with a value.
    Finished(T),
    /// The action has failed.
    Failed(E),
    /// The time limit is over.
    Elapsed,
}

/// Why a command has no value.
pub enum ExecFailure<E> {
    /// What an action has failed with.
    Passed(E),
    /// The time limit is over.
    Timeout(String),
    /// There is nothing to run.
    CommandExecution(String),
}

/// What a failure says.
pub enum ExecFailureView<E> {
    Passed(E),
    Timeout(Seq<char>),
    CommandExecution(Seq<char>),
}

impl<E> View for ExecFailure<E> {
    type V = ExecFailureView<E>;

    open spec fn view(&self) -> ExecFailureView<E> {
        match *self {
            ExecFailure::Passed(e) => ExecFailureView::Passed(e),
            ExecFailure::Timeout(m) => ExecFailureView::Timeout(m@),
            ExecFailure::CommandExecution(m) => ExecFailureView::CommandExecution(m@),
        }
    }
}

/// What to do next.
pub enum ExecAction<T, E> {
    /// Ask the daemon at the port for a browser page.
    Connect { port: u16 },
    /// Let the page visit a URL.
    Navigate { url: String },
    /// Run the pipeline of the command, with the page or without one.
    RunPipeline { with_page: bool },
    /// Call the function of the command, with the page or without one.
    RunFunc { with_page: bool },
    /// Return the result.
    Return(Result<T, ExecFailure<E>>),
    /// Nothing: the event was not one that was waited for.
    Ignore,
}

/// What an action says.
pub enum ExecActionView<T, E> {
    Connect { port: nat },
    Navigate { url: Seq<char> },
    RunPipeline { with_page: bool },
    RunFunc { with_page: bool },
    Return(Result<T, ExecFailureView<E>>),
    Ignore,
}

impl<T, E> View for ExecAction<T, E> {
    type V = ExecActionView<T, E>;

    open spec fn view(&self) -> ExecActionView<T, E> {
        match *self {
            ExecAction::Connect { port } => ExecActionView::Connect { port: port as nat },
            ExecAction::Navigate { url } => ExecActionView::Navigate { url: url@ },
            ExecAction::RunPipeline { with_page } => ExecActionView::RunPipeline { with_page },
            ExecAction::RunFunc { with_page } => ExecActionView::RunFunc { with_page },
            ExecAction::Return(Ok(v)) => ExecActionView::Return(Ok(v)),
            ExecAction::Return(Err(f)) => ExecActionView::Return(Err(f@)),
            ExecAction::Ignore => ExecActionView::Ignore,
        }
    }
}

/// The message for a command that took too long.
pub open spec fn timeout_message(full_name: Seq<char>, seconds: nat) -> Seq<char> {
    "Command '"@ + full_name + "' timed out after "@ + decimal(seconds) + "s"@
}

/// The message for a command with nothing to run.
pub open spec fn nothing_to_run_message(full_name: Seq<char>) -> Seq<char> {
    "Command '"@ + full_name + "' has no pipeline or func"@
}

/// The URL that is visited before a command with a domain runs.
pub open spec fn domain_url(domain: Seq<char>) -> Seq<char> {
    "https://"@ + domain
}

/// The step that runs the command itself: its pipeline, or else its function.
pub open spec fn run_step<T, E>(cmd: CliCommandView, with_page: bool) -> (
    ExecState,
    ExecActionView<T, E>,
) {
    if cmd.has_pipeline {
        (ExecState::Running, ExecActionView::RunPipeline { with_page })
    } else if cmd.has_func {
        (ExecState::Running, ExecActionView::RunFunc { with_page })
    } else {
        (
            ExecState::Done,
            ExecActionView::Return(
                Err(ExecFailureView::CommandExecution(nothing_to_run_message(cmd.full_name))),
            ),
        )
    }
}

/// The step after an event, the time limit aside.
pub open spec fn inner_step<T, E>(
    cmd: CliCommandView,
    daemon: nat,
    state: ExecState,
    event: ExecEvent<T, E>,
) -> (ExecState, ExecActionView<T, E>) {
    match (state, event) {
        (ExecState::Start, ExecEvent::Begin) => if cmd.needs_browser {
            (ExecState::Connecting, ExecActionView::Connect { port: daemon })
        } else {
            run_step(cmd, false)
        },
        (ExecState::Connecting, ExecEvent::Connected) => match cmd.domain {
            Some(domain) => (
                ExecState::Navigating,
                ExecActionView::Navigate { url: domain_url(domain) },
            ),
            None => run_step(cmd, true),
        },
        (ExecState::Navigating, ExecEvent::Navigated) => run_step(cmd, true),
        (ExecState::Running, ExecEvent::Finished(v)) => (
            ExecState::Done,
            ExecActionView::Return(Ok(v)),
        ),
        (
            ExecState::Connecting | ExecState::Navigating | ExecState::Running,
            ExecEvent::Failed(e),
        ) => (ExecState::Done, ExecActionView::Return(Err(ExecFailureView::Passed(e)))),
        _ => (state, ExecActionView::Ignore),
    }
}

/// The step after an event: once the time limit is over, a command that has not
/// returned yet returns that.
pub open spec fn step<T, E>(
    cmd: CliCommandView,
    daemon: nat,
    limit: nat,
    state: ExecState,
    event: ExecEvent<T, E>,
) -> (ExecState, ExecActionView<T, E>) {
    if event is Elapsed && state != ExecState::Done {
        (
            ExecState::Done,
            ExecActionView::Return(
                Err(ExecFailureView::Timeout(timeout_message(cmd.full_name, limit))),
            ),
        )
    } else {
        inner_step(cmd, daemon, state, event)
    }
}

/// The step that runs the command itself.
fn run_command<T, E>(cmd: &CliCommand, with_page: bool) -> (r: (ExecState, ExecAction<T, E>))
    ensures
        (r.0, r.1@) == run_step::<T, E>(cmd@, with_page),
        !(r.1 matches ExecAction::Return(Ok(_))),
{
    if cmd.has_pipeline {
        (ExecState::Running, ExecAction::RunPipeline { with_page })
    } else if cmd.has_func {
        (ExecState::Running, ExecAction::RunFunc { with_page })
    } else {
        let message = join3("Command '", cmd.full_name.as_str(), "' has no pipeline or func");
        (ExecState::Done, ExecAction::Return(Err(ExecFailure::CommandExecution(message))))
    }
}

/// The step after an event, the time limit aside.
fn execute_command_inner<T, E>(
    cmd: &CliCommand,
    daemon: u16,
    state: ExecState,
    event: ExecEvent<T, E>,
) -> (r: (ExecState, ExecAction<T, E>))
    ensures
        (r.0, r.1@) == inner_step(cmd@, daemon as nat, state, event),
        event matches ExecEvent::Finished(v) ==> (state == ExecState::Running ==> r.1
            == ExecAction::<T, E>::Return(Ok(v))),
        event matches ExecEvent::Failed(e) ==> (state == ExecState::Connecting || state
            == ExecState::Navigating || state == ExecState::Running ==> r.1
            == ExecAction::<T, E>::Return(Err(ExecFailure::Passed(e)))),
        r.1 matches ExecAction::Return(Ok(v)) ==> event == ExecEvent::<T, E>::Finished(v),
{
    match (state, event) {
        (ExecState::Start, ExecEvent::Begin) => if cmd.needs_browser {
            (ExecState::Connecting, ExecAction::Connect { port: daemon })
        } else {
            run_command(cmd, false)
        },
        (ExecState::Connecting, ExecEvent::Connected) => match &cmd.domain {
            Some(domain) => (
                ExecState::Navigating,
                ExecAction::Navigate { url: join2("https://", domain.as_str()) },
            ),
            None => run_command(cmd, true),
        },
        (ExecState::Navigating, ExecEvent::Navigated) => run_command(cmd, true),
        (ExecState::Running, ExecEvent::Finished(v)) => (
            ExecState::Done,
            ExecAction::Return(Ok(v)),
        ),
        (
            ExecState::Connecting | ExecState::Navigating | ExecState::Running,
            ExecEvent::Failed(e),
        ) => (ExecState::Done, ExecAction::Return(Err(ExecFailure::Passed(e)))),
        _ => (state, ExecAction::Ignore),
    }
}

/// The next step of a command: what to do after an event, and how far the command
/// has then got. `daemon` is the port of the daemon and `limit` the number of
/// seconds that the command may take.
pub fn execute_command<T, E>(
    cmd: &CliCommand,
    daemon: u16,
    limit: u64,
    state: ExecState,
    event: ExecEvent<T, E>,
) -> (r: (ExecState, ExecAction<T, E>))
    ensures
        (r.0, r.1@) == step(cmd@, daemon as nat, limit as nat, state, event),
        event matches ExecEvent::Finished(v) ==> (state == ExecState::Running ==> r.0
            == ExecState::Done && r.1 == ExecAction::<T, E>::Return(Ok(v))),
        event matches ExecEvent::Failed(e) ==> (state == ExecState::Connecting || state
            == ExecState::Navigating || state == ExecState::Running ==> r.0 == ExecState::Done
            && r.1 == ExecAction::<T, E>::Return(Err(ExecFailure::Passed(e)))),
        r.1 matches ExecAction::Return(Ok(v)) ==> event == ExecEvent::<T, E>::Finished(v),
{
    let elapsed = match event {
        ExecEvent::Elapsed => true,
        _ => false,
    };
    if elapsed && state != ExecState::Done {
        let head = join3("Command '", cmd.full_name.as_str(), "' timed out after ");
        let message = join3(head.as_str(), decimal_text(limit).as_str(), "s");
        (ExecState::Done, ExecAction::Return(Err(ExecFailure::Timeout(message))))
    } else {
        execute_command_inner(cmd, daemon, state, event)
    }
}

/// How far a command has got after the given events.
pub open spec fn state_after<T, E>(
    cmd: CliCommandView,
    daemon: nat,
    limit: nat,
    events: Seq<ExecEvent<T, E>>,
) -> ExecState
    decreases events.len(),
{
    if events.len() == 0 {
        ExecState::Start
    } else {
        step(
            cmd,
            daemon,
            limit,
            state_after(cmd, daemon, limit, events.drop_last()),
            events.last(),
        ).0
    }
}

/// What is done after the event at position `k`.
pub open spec fn action_at<T, E>(
    cmd: CliCommandView,
    daemon: nat,
    limit: nat,
    events: Seq<ExecEvent<T, E>>,
    k: int,
) -> ExecActionView<T, E> {
    step(cmd, daemon, limit, state_after(cmd, daemon, limit, events.take(k)), events[k]).1
}

proof fn lemma_states<T, E>(
    cmd: CliCommandView,
    daemon: nat,
    limit: nat,
    events: Seq<ExecEvent<T, E>>,
)
    ensures
        ({
            let state = state_after(cmd, daemon, limit, events);
            &&& state is Connecting ==> cmd.needs_browser
            &&& state is Navigating ==> cmd.needs_browser && cmd.domain is Some
        }),
    decreases events.len(),
{
    if events.len() > 0 {
        lemma_states(cmd, daemon, limit, events.drop_last());
    }
}

/// Whatever happens, a page is asked for only where the command needs a browser, and
/// the command is run with a page exactly where it needs one.
pub proof fn law_page_exactly_where_needed<T, E>(
    cmd: CliCommandView,
    daemon: nat,
    limit: nat,
    events: Seq<ExecEvent<T, E>>,
    k: int,
)
    requires
        0 <= k < events.len(),
    ensures
        match action_at(cmd, daemon, limit, events, k) {
            ExecActionView::Connect { port } => cmd.needs_browser && port == daemon,
            ExecActionView::Navigate { url } => cmd.needs_browser && cmd.domain is Some && url
                == domain_url(cmd.domain->0),
            ExecActionView::RunPipeline { with_page } => cmd.has_pipeline && with_page
                == cmd.needs_browser,
            ExecActionView::RunFunc { with_page } => !cmd.has_pipeline && cmd.has_func && with_page
                == cmd.needs_browser,
            _ => true,
        },
{
    lemma_states(cmd, daemon, limit, events.take(k));
}

/// A command in a browser with a domain is run only after its page has visited the
/// domain: the event before was the end of that visit.
pub proof fn law_domain_is_visited_first<T, E>(
    cmd: CliCommandView,
    daemon: nat,
    limit: nat,
    events: Seq<ExecEvent<T, E>>,
    k: int,
)
    requires
        0 <= k < events.len(),
        cmd.needs_browser,
        cmd.domain is Some,
        action_at(cmd, daemon, limit, events, k) is RunPipeline || action_at(
            cmd,
            daemon,
            limit,
            events,
            k,
        ) is RunFunc,
    ensures
        events[k] is Navigated,
        state_after(cmd, daemon, limit, events.take(k)) is Navigating,
{
    lemma_states(cmd, daemon, limit, events.take(k));
}

/// A result is returned exactly when the command gets done, and nothing is done
/// after that.
pub proof fn law_one_result<T, E>(
    cmd: CliCommandView,
    daemon: nat,
    limit: nat,
    state: ExecState,
    event: ExecEvent<T, E>,
)
    ensures
        ({
            let (next, action) = step(cmd, daemon, limit, state, event);
            &&& action is Return <==> state != ExecState::Done && next == ExecState::Done
            &&& state == ExecState::Done ==> next == ExecState::Done && action is Ignore
        }),
{
}

/// The function of a command that has a pipeline has no influence: with it and without
/// it, the command is run in the same step, by its pipeline, and takes the same step
/// after every event; and whatever happens, it gets equally far, does the same, and no
/// function is called.
pub proof fn law_beside_a_pipeline_the_function_has_no_influence<T, E>(
    one: CliCommandView,
    other: CliCommandView,
    daemon: nat,
    limit: nat,
    events: Seq<ExecEvent<T, E>>,
)
    requires
        one.has_pipeline,
        other == (CliCommandView { has_func: other.has_func, ..one }),
    ensures
        forall|with_page: bool| #[trigger]
            run_step::<T, E>(one, with_page) == run_step::<T, E>(other, with_page),
        forall|with_page: bool| #[trigger]
            run_step::<T, E>(one, with_page) == (
                ExecState::Running,
                ExecActionView::<T, E>::RunPipeline { with_page },
            ),
        forall|state: ExecState, event: ExecEvent<T, E>| #[trigger]
            step(one, daemon, limit, state, event) == step(other, daemon, limit, state, event),
        state_after(one, daemon, limit, events) == state_after(other, daemon, limit, events),
        forall|k: int|
            0 <= k < events.len() ==> {
                &&& #[trigger] action_at(one, daemon, limit, events, k) == action_at(
                    other,
                    daemon,
                    limit,
                    events,
                    k,
                )
                &&& action_at(one, daemon, limit, events, k) !is RunFunc
            },
{
    lemma_pipeline_states(one, other, daemon, limit, events);
    assert forall|k: int| 0 <= k < events.len() implies {
        &&& #[trigger] action_at(one, daemon, limit, events, k) == action_at(
            other,
            daemon,
            limit,
            events,
            k,
        )
        &&& action_at(one, daemon, limit, events, k) !is RunFunc
    } by {
        lemma_pipeline_states(one, other, daemon, limit, events.take(k));
    }
}

proof fn lemma_pipeline_states<T, E>(
    one: CliCommandView,
    other: CliCommandView,
    daemon: nat,
    limit: nat,
    events: Seq<ExecEvent<T, E>>,
)
    requires
        one.has_pipeline,
        other == (CliCommandView { has_func: other.has_func, ..one }),
    ensures
        state_after(one, daemon, limit, events) == state_after(other, daemon, limit, events),
    decreases events.len(),
{
    if events.len() > 0 {
        lemma_pipeline_states(one, other, daemon, limit, events.drop_last());
    }
}

/// How many results were returned in the course of the given events.
pub open spec fn results<T, E>(
    cmd: CliCommandView,
    daemon: nat,
    limit: nat,
    events: Seq<ExecEvent<T, E>>,
) -> nat
    decreases events.len(),
{
    if events.len() == 0 {
        0
    } else {
        let before = events.drop_last();
        let state = state_after(cmd, daemon, limit, before);
        let action = step(cmd, daemon, limit, state, events.last()).1;
        results(cmd, daemon, limit, before) + (if action is Return {
            1nat
        } else {
            0
        })
    }
}

/// Whatever happens, a command that is done has returned one result, and one that is
/// not has returned none.
pub proof fn law_a_command_returns_once<T, E>(
    cmd: CliCommandView,
    daemon: nat,
    limit: nat,
    events: Seq<ExecEvent<T, E>>,
)
    ensures
        results(cmd, daemon, limit, events) == (if state_after(cmd, daemon, limit, events)
            == ExecState::Done {
            1nat
        } else {
            0
        }),
    decreases events.len(),
{
    if events.len() > 0 {
        let before = events.drop_last();
        law_a_command_returns_once(cmd, daemon, limit, before);
        law_one_result(
            cmd,
            daemon,
            limit,
            state_after(cmd, daemon, limit, before),
            events.last(),
        );
    }
}

/// How many answers a command still waits for at most.
pub open spec fn steps_left(state: ExecState) -> nat {
    match state {
        ExecState::Start => 4,
        ExecState::Connecting => 3,
        ExecState::Navigating => 2,
        ExecState::Running => 1,
        ExecState::Done => 0,
    }
}

/// Each step that does something brings the command nearer to its end; a step that
/// does nothing changes nothing.
pub proof fn law_a_step_gets_on<T, E>(
    cmd: CliCommandView,
    daemon: nat,
    limit: nat,
    state: ExecState,
    event: ExecEvent<T, E>,
)
    ensures
        ({
            let (next, action) = step(cmd, daemon, limit, state, event);
            if action is Ignore {
                next == state
            } else {
                steps_left(next) < steps_left(state)
            }
        }),
{
}

/// How many of the events made the command do something.
pub open spec fn steps_taken<T, E>(
    cmd: CliCommandView,
    daemon: nat,
    limit: nat,
    events: Seq<ExecEvent<T, E>>,
) -> nat
    decreases events.len(),
{
    if events.len() == 0 {
        0
    } else {
        let before = events.drop_last();
        let state = state_after(cmd, daemon, limit, before);
        let action = step(cmd, daemon, limit, state, events.last()).1;
        steps_taken(cmd, daemon, limit, before) + (if action is Ignore {
            0nat
        } else {
            1
        })
    }
}

/// A command takes four steps at most, whatever happens.
pub proof fn law_commands_are_short<T, E>(
    cmd: CliCommandView,
    daemon: nat,
    limit: nat,
    events: Seq<ExecEvent<T, E>>,
)
    ensures
        steps_taken(cmd, daemon, limit, events) + steps_left(
            state_after(cmd, daemon, limit, events),
        ) <= 4,
    decreases events.len(),
{
    if events.len() > 0 {
        let before = events.drop_last();
        law_commands_are_short(cmd, daemon, limit, before);
        law_a_step_gets_on(
            cmd,
            daemon,
            limit,
            state_after(cmd, daemon, limit, before),
            events.last(),
        );
    }
}

/// The end of the time limit ends a command that has not returned, however far it
/// has got, with a message that names the command and the limit.
pub proof fn law_time_limit_ends_a_command<T, E>(
    cmd: CliCommandView,
    daemon: nat,
    limit: nat,
    state: ExecState,
)
    requires
        state != ExecState::Done,
    ensures
        step::<T, E>(cmd, daemon, limit, state, ExecEvent::Elapsed) == (
            ExecState::Done,
            ExecActionView::<T, E>::Return(
                Err(ExecFailureView::Timeout(timeout_message(cmd.full_name, limit))),
            ),
        ),
{
}

/// What the environment says goes before what the command says, and what neither
/// says is 60 seconds.
pub proof fn law_time_limit_order(env: Option<Seq<char>>, own: Option<u64>, n: nat)
    requires
        n <= u64::MAX,
    ensures
        time_limit(Some(decimal(n)), own) == n,
        time_limit(None, own) == (match own {
            Some(s) => s as nat,
            None => 60,
        }),
        env matches Some(t) && parsed(t, u64::MAX as nat) is None ==> time_limit(env, own)
            == time_limit(None, own),
        env matches Some(t) ==> (parsed(t, u64::MAX as nat) matches Some(k) ==> time_limit(env, own)
            == k),
{
    law_written_number_reads_back(n, u64::MAX as nat);
}

/// The daemon is reached at the port that the environment names, and at 19825 where
/// it names none.
pub proof fn law_daemon_port(env: Option<Seq<char>>, n: nat)
    requires
        n <= u16::MAX,
    ensures
        port(Some(decimal(n))) == n,
        port(None) == 19825,
        env matches Some(t) && parsed(t, u16::MAX as nat) is None ==> port(env) == 19825,
        env matches Some(t) ==> (parsed(t, u16::MAX as nat) matches Some(k) ==> port(env) == k),
        port(env) <= u16::MAX,
{
    law_written_number_reads_back(n, u16::MAX as nat);
}

/// The views hold what stands there.
pub proof fn law_views_hold_actions_and_failures<T, E>(
    action: ExecAction<T, E>,
    failure: ExecFailure<E>,
)
    ensures
        match failure {
            ExecFailure::Passed(e) => failure@ == ExecFailureView::Passed(e),
            ExecFailure::Timeout(m) => failure@ == ExecFailureView::<E>::Timeout(m@),
            ExecFailure::CommandExecution(m) => failure@ == ExecFailureView::<E>::CommandExecution(
                m@,
            ),
        },
        match action {
            ExecAction::Connect { port } => action@ == (ExecActionView::<T, E>::Connect {
                port: port as nat,
            }),
            ExecAction::Navigate { url } => action@ == (ExecActionView::<T, E>::Navigate {
                url: url@,
            }),
            ExecAction::RunPipeline { with_page } => action@ == (ExecActionView::<
                T,
                E,
            >::RunPipeline { with_page }),
            ExecAction::RunFunc { with_page } => action@ == (ExecActionView::<T, E>::RunFunc {
                with_page,
            }),
            ExecAction::Return(Ok(v)) => action@ == ExecActionView::<T, E>::Return(Ok(v)),
            ExecAction::Return(Err(f)) => action@ == ExecActionView::<T, E>::Return(Err(f@)),
            ExecAction::Ignore => action@ is Ignore,
        },
{
}

/// The data that a command finishes with is what it returns, whatever command it is, in
/// a browser or not; and data is returned in no other way, so what is returned is what
/// the command finished with.
pub proof fn law_the_data_is_returned<T, E>(
    cmd: CliCommandView,
    daemon: nat,
    limit: nat,
    state: ExecState,
    event: ExecEvent<T, E>,
    data: T,
)
    ensures
        step(cmd, daemon, limit, ExecState::Running, ExecEvent::<T, E>::Finished(data)) == (
            ExecState::Done,
            ExecActionView::<T, E>::Return(Ok(data)),
        ),
        step(cmd, daemon, limit, state, event).1 == ExecActionView::<T, E>::Return(Ok(data))
            <==> state == ExecState::Running && event == ExecEvent::<T, E>::Finished(data),
{
}

/// Each failure has its own cause: an action that failed, the end of the time limit, or a
/// command with neither a pipeline nor a function. What an action failed with is passed
/// on unchanged, and the two messages name the command.
pub proof fn law_each_failure_has_its_cause<T, E>(
    cmd: CliCommandView,
    daemon: nat,
    limit: nat,
    state: ExecState,
    event: ExecEvent<T, E>,
    error: E,
)
    ensures
        state == ExecState::Connecting || state == ExecState::Navigating || state
            == ExecState::Running ==> step(
            cmd,
            daemon,
            limit,
            state,
            ExecEvent::<T, E>::Failed(error),
        ) == (
            ExecState::Done,
            ExecActionView::<T, E>::Return(Err(ExecFailureView::Passed(error))),
        ),
        step(cmd, daemon, limit, state, event).1 matches ExecActionView::Return(Err(failure)) ==> (
        match failure {
            ExecFailureView::Passed(e) => event == ExecEvent::<T, E>::Failed(e),
            ExecFailureView::Timeout(m) => event is Elapsed && m == "Command '"@ + cmd.full_name
                + "' timed out after "@ + decimal(limit) + "s"@,
            ExecFailureView::CommandExecution(m) => !cmd.has_pipeline && !cmd.has_func && (event
                is Begin || event is Connected || event is Navigated) && m == "Command '"@
                + cmd.full_name + "' has no pipeline or func"@,
        }),
        state != ExecState::Done ==> step(cmd, daemon, limit, state, ExecEvent::<T, E>::Elapsed)
            == (
            ExecState::Done,
            ExecActionView::<T, E>::Return(
                Err(
                    ExecFailureView::Timeout(
                        "Command '"@ + cmd.full_name + "' timed out after "@ + decimal(limit)
                            + "s"@,
                    ),
                ),
            ),
        ),
{
}

/// A command that needs a browser first asks the daemon for a page, and where it has a
/// domain, the page then visits that domain by HTTPS.
pub proof fn law_a_browser_command_connects_and_visits_first<T, E>(
    cmd: CliCommandView,
    daemon: nat,
    limit: nat,
)
    ensures
        cmd.needs_browser ==> step(
            cmd,
            daemon,
            limit,
            ExecState::Start,
            ExecEvent::<T, E>::Begin,
        ) == (ExecState::Connecting, ExecActionView::<T, E>::Connect { port: daemon }),
        cmd.domain matches Some(domain) ==> step(
            cmd,
            daemon,
            limit,
            ExecState::Connecting,
            ExecEvent::<T, E>::Connected,
        ) == (
            ExecState::Navigating,
            ExecActionView::<T, E>::Navigate { url: "https://"@ + domain },
        ),
{
}

/// Where a command is ready to run, it is run by its pipeline; without one, by its
/// function; and with neither it fails. It is ready at once without a browser, and then
/// has no page; with a browser it is ready once the page is there, or once the page has
/// visited the domain, and then has the page.
pub proof fn law_a_ready_command_is_run<T, E>(
    cmd: CliCommandView,
    daemon: nat,
    limit: nat,
    state: ExecState,
    event: ExecEvent<T, E>,
)
    requires
        ({
            ||| state == ExecState::Start && event is Begin && !cmd.needs_browser
            ||| state == ExecState::Connecting && event is Connected && cmd.domain is None
            ||| state == ExecState::Navigating && event is Navigated
        }),
    ensures
        ({
            let with_page = state != ExecState::Start;
            let taken = step(cmd, daemon, limit, state, event);
            &&& cmd.has_pipeline ==> taken == (
                ExecState::Running,
                ExecActionView::<T, E>::RunPipeline { with_page },
            )
            &&& !cmd.has_pipeline && cmd.has_func ==> taken == (
                ExecState::Running,
                ExecActionView::<T, E>::RunFunc { with_page },
            )
            &&& !cmd.has_pipeline && !cmd.has_func ==> taken == (
                ExecState::Done,
                ExecActionView::<T, E>::Return(
                    Err(
                        ExecFailureView::CommandExecution(
                            "Command '"@ + cmd.full_name + "' has no pipeline or func"@,
                        ),
                    ),
                ),
            )
        }),
{
}

/// An event that does not answer what was last asked for changes nothing, and nothing
/// is done on it.
pub proof fn law_events_out_of_turn_are_ignored<T, E>(
    cmd: CliCommandView,
    daemon: nat,
    limit: nat,
    state: ExecState,
    event: ExecEvent<T, E>,
)
    requires
        event is Begin ==> state != ExecState::Start,
        event is Connected ==> state != ExecState::Connecting,
        event is Navigated ==> state != ExecState::Navigating,
        event is Finished ==> state != ExecState::Running,
        event is Failed ==> state == ExecState::Start || state == ExecState::Done,
        event is Elapsed ==> state == ExecState::Done,
    ensures
        step(cmd, daemon, limit, state, event) == (state, ExecActionView::<T, E>::Ignore),
{
}

/// The whole run of a command without a browser that is not stopped by its time limit:
/// it begins by running, and returns what it finishes with.
pub proof fn law_a_run_without_a_browser<T, E>(
    cmd: CliCommandView,
    daemon: nat,
    limit: nat,
    data: T,
)
    requires
        !cmd.needs_browser,
        cmd.has_pipeline || cmd.has_func,
    ensures
        ({
            let events = seq![ExecEvent::<T, E>::Begin, ExecEvent::<T, E>::Finished(data)];
            &&& action_at(cmd, daemon, limit, events, 1) == ExecActionView::<T, E>::Return(Ok(data))
            &&& state_after(cmd, daemon, limit, events) == ExecState::Done
        }),
{
    reveal_with_fuel(state_after, 3);
    let events = seq![ExecEvent::<T, E>::Begin, ExecEvent::<T, E>::Finished(data)];
    assert(events.take(1).last() == events[0]);
    assert(events.drop_last().last() == events[0]);
}

/// The whole run of a command in a browser that is not stopped by its time limit: it
/// returns what it finishes with.
pub proof fn law_a_run_in_a_browser<T, E>(
    cmd: CliCommandView,
    daemon: nat,
    limit: nat,
    data: T,
)
    requires
        cmd.needs_browser,
        cmd.domain is Some,
        cmd.has_pipeline || cmd.has_func,
    ensures
        ({
            let events = seq![
                ExecEvent::<T, E>::Begin,
                ExecEvent::<T, E>::Connected,
                ExecEvent::<T, E>::Navigated,
                ExecEvent::<T, E>::Finished(data),
            ];
            &&& action_at(cmd, daemon, limit, events, 3) == ExecActionView::<T, E>::Return(Ok(data))
            &&& state_after(cmd, daemon, limit, events) == ExecState::Done
        }),
{
    reveal_with_fuel(state_after, 5);
    let events = seq![
        ExecEvent::<T, E>::Begin,
        ExecEvent::<T, E>::Connected,
        ExecEvent::<T, E>::Navigated,
        ExecEvent::<T, E>::Finished(data),
    ];
    let before = events.take(3);
    assert(events.drop_last() =~= before);
    assert(before.last() == events[2]);
    assert(before.drop_last().last() == events[1]);
    assert(before.drop_last().drop_last().last() == events[0]);
}

} // verus!
