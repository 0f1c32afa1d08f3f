use opencli_rs::catalog::CliCommand;
use opencli_rs::execution::{
    command_timeout, daemon_port, execute_command, ExecAction, ExecEvent, ExecFailure, ExecState,
};

fn command() -> CliCommand {
    CliCommand {
        name: "hot".to_string(),
        full_name: "zhihu hot".to_string(),
        description: String::new(),
        args: vec![],
        columns: vec![],
        domain: Some("www.zhihu.com".to_string()),
        timeout_seconds: None,
        needs_browser: true,
        has_pipeline: true,
        has_func: true,
    }
}

fn step(
    cmd: &CliCommand,
    state: ExecState,
    event: ExecEvent<u32, String>,
) -> (ExecState, ExecAction<u32, String>) {
    execute_command(cmd, 19825, 60, state, event)
}

#[test]
fn the_port_comes_from_the_environment() {
    assert_eq!(daemon_port(None), 19825);
    assert_eq!(daemon_port(Some("8080")), 8080);
    assert_eq!(daemon_port(Some("65535")), 65535);
    assert_eq!(daemon_port(Some("65536")), 19825);
    assert_eq!(daemon_port(Some("http")), 19825);
    assert_eq!(daemon_port(Some("")), 19825);
}

#[test]
fn the_time_limit_has_an_order() {
    assert_eq!(command_timeout(None, None), 60);
    assert_eq!(command_timeout(None, Some(5)), 5);
    assert_eq!(command_timeout(Some("7"), Some(5)), 7);
    assert_eq!(command_timeout(Some("7"), None), 7);
    assert_eq!(command_timeout(Some("soon"), Some(5)), 5);
    assert_eq!(command_timeout(Some("soon"), None), 60);
}

#[test]
fn a_browser_command_connects_visits_and_runs() {
    let cmd = command();
    let (state, action) = step(&cmd, ExecState::Start, ExecEvent::Begin);
    assert!(matches!(action, ExecAction::Connect { port: 19825 }));
    let (state, action) = step(&cmd, state, ExecEvent::Connected);
    match action {
        ExecAction::Navigate { url } => assert_eq!(url, "https://www.zhihu.com"),
        _ => panic!("visit expected"),
    }
    let (state, action) = step(&cmd, state, ExecEvent::Navigated);
    assert!(matches!(action, ExecAction::RunPipeline { with_page: true }));
    let (state, action) = step(&cmd, state, ExecEvent::Finished(7));
    assert!(matches!(action, ExecAction::Return(Ok(7))));
    assert!(state == ExecState::Done);
}

#[test]
fn a_command_without_a_domain_visits_nothing() {
    let mut cmd = command();
    cmd.domain = None;
    cmd.has_pipeline = false;
    let (state, action) = step(&cmd, ExecState::Connecting, ExecEvent::Connected);
    assert!(matches!(action, ExecAction::RunFunc { with_page: true }));
    assert!(state == ExecState::Running);
}

#[test]
fn a_command_without_a_browser_runs_at_once() {
    let mut cmd = command();
    cmd.needs_browser = false;
    let (state, action) = step(&cmd, ExecState::Start, ExecEvent::Begin);
    assert!(matches!(action, ExecAction::RunPipeline { with_page: false }));
    assert!(state == ExecState::Running);
    cmd.has_pipeline = false;
    let (_, action) = step(&cmd, ExecState::Start, ExecEvent::Begin);
    assert!(matches!(action, ExecAction::RunFunc { with_page: false }));
}

#[test]
fn a_command_with_nothing_to_run_fails() {
    let mut cmd = command();
    cmd.needs_browser = false;
    cmd.has_pipeline = false;
    cmd.has_func = false;
    let (state, action) = step(&cmd, ExecState::Start, ExecEvent::Begin);
    assert!(state == ExecState::Done);
    match action {
        ExecAction::Return(Err(ExecFailure::CommandExecution(m))) => {
            assert_eq!(m, "Command 'zhihu hot' has no pipeline or func")
        }
        _ => panic!("failure expected"),
    }
}

#[test]
fn failures_are_passed_on() {
    let cmd = command();
    for state in [ExecState::Connecting, ExecState::Navigating, ExecState::Running] {
        let (next, action) = step(&cmd, state, ExecEvent::Failed("no".to_string()));
        assert!(next == ExecState::Done);
        match action {
            ExecAction::Return(Err(ExecFailure::Passed(e))) => assert_eq!(e, "no"),
            _ => panic!("failure expected"),
        }
    }
}

#[test]
fn the_time_limit_ends_a_command() {
    let cmd = command();
    let states =
        [ExecState::Start, ExecState::Connecting, ExecState::Navigating, ExecState::Running];
    for state in states {
        let (next, action) = step(&cmd, state, ExecEvent::Elapsed);
        assert!(next == ExecState::Done);
        match action {
            ExecAction::Return(Err(ExecFailure::Timeout(m))) => {
                assert_eq!(m, "Command 'zhihu hot' timed out after 60s")
            }
            _ => panic!("failure expected"),
        }
    }
}

#[test]
fn nothing_happens_after_the_result() {
    let cmd = command();
    let events = vec![
        ExecEvent::Begin,
        ExecEvent::Connected,
        ExecEvent::Navigated,
        ExecEvent::Finished(1),
        ExecEvent::Failed(String::new()),
        ExecEvent::Elapsed,
    ];
    for event in events {
        let (next, action) = step(&cmd, ExecState::Done, event);
        assert!(next == ExecState::Done);
        assert!(matches!(action, ExecAction::Ignore));
    }
}

#[test]
fn events_out_of_turn_are_ignored() {
    let cmd = command();
    let (next, action) = step(&cmd, ExecState::Start, ExecEvent::Navigated);
    assert!(next == ExecState::Start);
    assert!(matches!(action, ExecAction::Ignore));
    let (next, action) = step(&cmd, ExecState::Connecting, ExecEvent::Finished(1));
    assert!(next == ExecState::Connecting);
    assert!(matches!(action, ExecAction::Ignore));
}

#[test]
fn a_command_returns_once() {
    let cmd = command();
    let events = vec![
        ExecEvent::Begin,
        ExecEvent::Begin,
        ExecEvent::Connected,
        ExecEvent::Navigated,
        ExecEvent::Finished(1),
        ExecEvent::Elapsed,
        ExecEvent::Failed("late".to_string()),
    ];
    let mut state = ExecState::Start;
    let (mut steps, mut results) = (0, 0);
    for event in events {
        let (next, action) = step(&cmd, state, event);
        state = next;
        match action {
            ExecAction::Ignore => {}
            ExecAction::Return(_) => {
                steps += 1;
                results += 1;
            }
            _ => steps += 1,
        }
    }
    assert_eq!(steps, 4);
    assert_eq!(results, 1);
}

#[test]
fn beside_a_pipeline_the_function_has_no_influence() {
    for (needs_browser, state) in [
        (false, ExecState::Start),
        (true, ExecState::Navigating),
    ] {
        for has_func in [false, true] {
            let mut cmd = command();
            cmd.needs_browser = needs_browser;
            cmd.has_func = has_func;
            let event = if needs_browser { ExecEvent::Navigated } else { ExecEvent::Begin };
            let (next, action) = step(&cmd, state, event);
            assert!(next == ExecState::Running);
            match action {
                ExecAction::RunPipeline { with_page } => assert_eq!(with_page, needs_browser),
                _ => panic!("pipeline expected"),
            }
        }
    }
}
