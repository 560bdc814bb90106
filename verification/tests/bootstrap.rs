use llama_gateway::bootstrap::{advance, describe, BootError, Phase, StepOutcome};

fn run(outcomes: Vec<StepOutcome>) -> Phase {
    let mut phase = Phase::Install;
    for outcome in outcomes {
        phase = advance(phase, outcome);
    }
    phase
}

#[test]
fn successful_bootstrap_reaches_serving() {
    let phase = run(vec![
        StepOutcome::Success,
        StepOutcome::Success,
        StepOutcome::Success,
        StepOutcome::Success,
    ]);
    assert_eq!(phase, Phase::Serve);
}

#[test]
fn no_serving_before_all_steps_reported() {
    assert_eq!(run(vec![]), Phase::Install);
    assert_eq!(run(vec![StepOutcome::Success]), Phase::Spawn);
    assert_eq!(
        run(vec![StepOutcome::Success, StepOutcome::Success]),
        Phase::Pull
    );
    assert_eq!(
        run(vec![
            StepOutcome::Success,
            StepOutcome::Success,
            StepOutcome::Success,
        ]),
        Phase::List
    );
}

#[test]
fn pull_failure_prevents_serving() {
    let phase = run(vec![
        StepOutcome::Success,
        StepOutcome::Success,
        StepOutcome::Failure(String::from("no such model")),
        StepOutcome::Success,
    ]);
    assert_eq!(
        phase,
        Phase::Aborted(BootError::Provision(String::from("no such model")))
    );
}

#[test]
fn install_failure_aborts_with_install_error() {
    let phase = run(vec![StepOutcome::Failure(String::from("curl: (6) no host"))]);
    assert_eq!(
        phase,
        Phase::Aborted(BootError::Install(String::from("curl: (6) no host")))
    );
}

#[test]
fn spawn_failure_aborts_with_spawn_error() {
    let phase = run(vec![
        StepOutcome::Success,
        StepOutcome::Failure(String::from("permission denied")),
    ]);
    assert_eq!(
        phase,
        Phase::Aborted(BootError::Spawn(String::from("permission denied")))
    );
}

#[test]
fn list_failure_is_advisory() {
    let phase = run(vec![
        StepOutcome::Success,
        StepOutcome::Success,
        StepOutcome::Success,
        StepOutcome::Failure(String::from("list broke")),
    ]);
    assert_eq!(phase, Phase::Serve);
}

#[test]
fn aborted_and_serving_are_final() {
    let aborted = Phase::Aborted(BootError::Install(String::from("gone")));
    assert_eq!(
        advance(aborted.clone(), StepOutcome::Success),
        aborted
    );
    assert_eq!(advance(Phase::Serve, StepOutcome::Success), Phase::Serve);
}

#[test]
fn diagnostics_carry_captured_error_text() {
    assert_eq!(
        describe(&BootError::Install(String::from("curl: (6) no host"))),
        "Failed to download ollama: curl: (6) no host"
    );
    assert_eq!(
        describe(&BootError::Spawn(String::from("permission denied"))),
        "Failed to start ollama server: permission denied"
    );
    assert_eq!(
        describe(&BootError::Provision(String::from("no such model"))),
        "Failed to pull model llama3:8b: no such model"
    );
}
