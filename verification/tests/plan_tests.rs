use shelldon::plan::{Action, Execution, Failure, LaunchPlan, ProcessCall, RunMode};

fn call(program: &str, mode: RunMode, failure: Failure) -> ProcessCall {
    ProcessCall { program: program.into(), args: vec![], mode, failure, hidden_console: false }
}

fn framed(before: &str, after: &str) -> Failure {
    Failure::Framed { before: before.into(), after: after.into() }
}

/// Runs `plan`, answering each call with the outcome `outcome(program)`;
/// returns the programs run and the result.
fn drive(plan: LaunchPlan, outcome: impl Fn(&str) -> Result<(), String>) -> (Vec<String>, Result<(), String>) {
    let mut exec = Execution::start(plan);
    let mut ran = Vec::new();
    loop {
        match exec.next_action() {
            Action::Run(c) => {
                ran.push(c.program.clone());
                exec.record(outcome(&c.program));
            }
            Action::Finish(r) => return (ran, r),
        }
    }
}

#[test]
fn successful_attempt_runs_every_call_in_order() {
    let plan = LaunchPlan {
        attempt: Ok(vec![call("a", RunMode::Detached, Failure::Raw), call("b", RunMode::Awaited, Failure::Raw)]),
        fallback: Some(Ok(vec![call("z", RunMode::Detached, Failure::Raw)])),
    };
    let (ran, r) = drive(plan, |_| Ok(()));
    assert_eq!(ran, vec!["a", "b"]);
    assert_eq!(r, Ok(()));
}

#[test]
fn failure_stops_with_framed_message() {
    let plan = LaunchPlan {
        attempt: Ok(vec![
            call("a", RunMode::Detached, Failure::Raw),
            call("b", RunMode::Detached, framed("PowerShell: ", "!")),
            call("c", RunMode::Detached, Failure::Raw),
        ]),
        fallback: None,
    };
    let (ran, r) = drive(plan, |p| if p == "b" { Err("not found".into()) } else { Ok(()) });
    assert_eq!(ran, vec!["a", "b"]);
    assert_eq!(r, Err("PowerShell: not found!".to_string()));
}

#[test]
fn raw_failure_message_is_the_error() {
    let plan = LaunchPlan { attempt: Ok(vec![call("a", RunMode::Awaited, Failure::Raw)]), fallback: None };
    let (_, r) = drive(plan, |_| Err("boom".into()));
    assert_eq!(r, Err("boom".to_string()));
}

#[test]
fn ignored_failures_do_not_stop() {
    let plan = LaunchPlan {
        attempt: Ok(vec![call("kill", RunMode::Ignored, Failure::Raw), call("new", RunMode::Awaited, Failure::Raw)]),
        fallback: None,
    };
    let (ran, r) = drive(plan, |p| if p == "kill" { Err("no session".into()) } else { Ok(()) });
    assert_eq!(ran, vec!["kill", "new"]);
    assert_eq!(r, Ok(()));
}

#[test]
fn failure_switches_to_fallback() {
    let plan = LaunchPlan {
        attempt: Ok(vec![call("wt", RunMode::Detached, Failure::Raw), call("x", RunMode::Detached, Failure::Raw)]),
        fallback: Some(Ok(vec![call("ps1", RunMode::Detached, Failure::Raw), call("ps2", RunMode::Detached, Failure::Raw)])),
    };
    let (ran, r) = drive(plan, |p| if p == "wt" { Err("missing".into()) } else { Ok(()) });
    assert_eq!(ran, vec!["wt", "ps1", "ps2"]);
    assert_eq!(r, Ok(()));
}

#[test]
fn fallback_failure_is_reported() {
    let plan = LaunchPlan {
        attempt: Ok(vec![call("wt", RunMode::Detached, Failure::Raw)]),
        fallback: Some(Ok(vec![call("ps", RunMode::Detached, framed("PowerShell: ", ""))])),
    };
    let (ran, r) = drive(plan, |_| Err("missing".into()));
    assert_eq!(ran, vec!["wt", "ps"]);
    assert_eq!(r, Err("PowerShell: missing".to_string()));
}

#[test]
fn refused_attempts() {
    let (ran, r) = drive(LaunchPlan { attempt: Err("Sin panes.".into()), fallback: None }, |_| Ok(()));
    assert!(ran.is_empty());
    assert_eq!(r, Err("Sin panes.".to_string()));
    let (ran, r) = drive(
        LaunchPlan { attempt: Err("Sin panes.".into()), fallback: Some(Ok(vec![call("g", RunMode::Detached, Failure::Raw)])) },
        |_| Ok(()),
    );
    assert_eq!(ran, vec!["g"]);
    assert_eq!(r, Ok(()));
    let (_, r) = drive(
        LaunchPlan { attempt: Err("one".into()), fallback: Some(Err("two".into())) },
        |_| Ok(()),
    );
    assert_eq!(r, Err("two".to_string()));
}

#[test]
fn finished_stays_finished() {
    let mut exec = Execution::start(LaunchPlan { attempt: Ok(vec![]), fallback: None });
    assert_eq!(exec.next_action(), Action::Finish(Ok(())));
    exec.record(Err("late".into()));
    assert_eq!(exec.next_action(), Action::Finish(Ok(())));
}
