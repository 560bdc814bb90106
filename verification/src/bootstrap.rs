//! The startup pipeline: install the runtime binary, spawn it, pull the
//! model, list the installed models, and only then serve. The pipeline is a
//! state machine driven by the outcome of each outside step; the surrounding
//! application performs the steps and reports back whether each succeeded,
//! with any captured error text.

use vstd::prelude::*;
use vstd::string::StringExecFns;

verus! {

/// A fatal startup error, carrying the captured error text of the step that
/// failed.
#[derive(Clone, Debug, PartialEq, Eq)]
pub enum BootError {
    /// Downloading the runtime binary or making it executable failed.
    Install(String),
    /// The runtime could not be spawned.
    Spawn(String),
    /// Pulling the model failed.
    Provision(String),
}

/// The outcome the application reports for one startup step: success, or
/// failure with the captured error text.
#[derive(Clone, Debug, PartialEq, Eq)]
pub enum StepOutcome {
    Success,
    Failure(String),
}

/// The phase of the startup pipeline. Each phase before `Serve` names the
/// step the application must perform next; `Serve` means the gateway may
/// bind and accept traffic; `Aborted` means startup failed and the process
/// must terminate with the error's diagnostic.
#[derive(Clone, Debug, PartialEq, Eq)]
pub enum Phase {
    Install,
    Spawn,
    Pull,
    List,
    Serve,
    Aborted(BootError),
}

/// The transition of the startup pipeline: a failed install, spawn or pull
/// aborts startup with the matching error; the list step is advisory, so
/// either outcome proceeds to serving; `Serve` and `Aborted` are final.
pub open spec fn spec_advance(p: Phase, o: StepOutcome) -> Phase {
    match p {
        Phase::Install => match o {
            StepOutcome::Success => Phase::Spawn,
            StepOutcome::Failure(e) => Phase::Aborted(BootError::Install(e)),
        },
        Phase::Spawn => match o {
            StepOutcome::Success => Phase::Pull,
            StepOutcome::Failure(e) => Phase::Aborted(BootError::Spawn(e)),
        },
        Phase::Pull => match o {
            StepOutcome::Success => Phase::List,
            StepOutcome::Failure(e) => Phase::Aborted(BootError::Provision(e)),
        },
        Phase::List => Phase::Serve,
        Phase::Serve => Phase::Serve,
        Phase::Aborted(e) => Phase::Aborted(e),
    }
}

/// Advance the pipeline by one reported step outcome.
pub fn advance(p: Phase, o: StepOutcome) -> (next: Phase)
    ensures
        next == spec_advance(p, o),
{
    match p {
        Phase::Install => match o {
            StepOutcome::Success => Phase::Spawn,
            StepOutcome::Failure(e) => Phase::Aborted(BootError::Install(e)),
        },
        Phase::Spawn => match o {
            StepOutcome::Success => Phase::Pull,
            StepOutcome::Failure(e) => Phase::Aborted(BootError::Spawn(e)),
        },
        Phase::Pull => match o {
            StepOutcome::Success => Phase::List,
            StepOutcome::Failure(e) => Phase::Aborted(BootError::Provision(e)),
        },
        Phase::List => Phase::Serve,
        Phase::Serve => Phase::Serve,
        Phase::Aborted(e) => Phase::Aborted(e),
    }
}

/// The phase reached from `p` after the given sequence of step outcomes.
pub open spec fn run_from(p: Phase, outcomes: Seq<StepOutcome>) -> Phase
    decreases outcomes.len(),
{
    if outcomes.len() == 0 {
        p
    } else {
        run_from(spec_advance(p, outcomes[0]), outcomes.drop_first())
    }
}

/// The phase reached from the start of the pipeline after the given
/// sequence of step outcomes.
pub open spec fn run(outcomes: Seq<StepOutcome>) -> Phase {
    run_from(Phase::Install, outcomes)
}

/// An aborted pipeline stays aborted, whatever is reported afterwards.
pub proof fn lemma_aborted_is_final(e: BootError, outcomes: Seq<StepOutcome>)
    ensures
        run_from(Phase::Aborted(e), outcomes) == Phase::Aborted(e),
    decreases outcomes.len(),
{
    if outcomes.len() > 0 {
        lemma_aborted_is_final(e, outcomes.drop_first());
    }
}

/// The serving phase is stable: once reached, later outcomes do not leave it.
pub proof fn lemma_serve_is_final(outcomes: Seq<StepOutcome>)
    ensures
        run_from(Phase::Serve, outcomes) == Phase::Serve,
    decreases outcomes.len(),
{
    if outcomes.len() > 0 {
        lemma_serve_is_final(outcomes.drop_first());
    }
}

/// The gateway serves only after a successful bootstrap: if the pipeline
/// reaches `Serve`, then the install, spawn and pull steps were all
/// reported, in that order, and all succeeded.
pub proof fn lemma_serve_needs_bootstrap(outcomes: Seq<StepOutcome>)
    requires
        run(outcomes) is Serve,
    ensures
        outcomes.len() >= 3,
        outcomes[0] is Success,
        outcomes[1] is Success,
        outcomes[2] is Success,
{
    if outcomes.len() == 0 {
        assert(run(outcomes) == Phase::Install);
    }
    let rest1 = outcomes.drop_first();
    match outcomes[0] {
        StepOutcome::Failure(e) => lemma_aborted_is_final(BootError::Install(e), rest1),
        StepOutcome::Success => (),
    }
    assert(run(outcomes) == run_from(Phase::Spawn, rest1));
    if rest1.len() == 0 {
        assert(run_from(Phase::Spawn, rest1) == Phase::Spawn);
    }
    let rest2 = rest1.drop_first();
    match rest1[0] {
        StepOutcome::Failure(e) => lemma_aborted_is_final(BootError::Spawn(e), rest2),
        StepOutcome::Success => (),
    }
    assert(run(outcomes) == run_from(Phase::Pull, rest2));
    if rest2.len() == 0 {
        assert(run_from(Phase::Pull, rest2) == Phase::Pull);
    }
    let rest3 = rest2.drop_first();
    match rest2[0] {
        StepOutcome::Failure(e) => lemma_aborted_is_final(BootError::Provision(e), rest3),
        StepOutcome::Success => (),
    }
    assert(outcomes[1] == rest1[0]);
    assert(outcomes[2] == rest2[0]);
}

/// A failed pull prevents serving: whatever is reported afterwards, the
/// pipeline is aborted with a provisioning error carrying the pull step's
/// error text.
pub proof fn lemma_pull_failure_blocks_serving(outcomes: Seq<StepOutcome>, e: String)
    requires
        outcomes.len() >= 3,
        outcomes[0] is Success,
        outcomes[1] is Success,
        outcomes[2] == StepOutcome::Failure(e),
    ensures
        run(outcomes) == Phase::Aborted(BootError::Provision(e)),
        !(run(outcomes) is Serve),
{
    let rest1 = outcomes.drop_first();
    let rest2 = rest1.drop_first();
    let rest3 = rest2.drop_first();
    assert(rest1[0] == outcomes[1]);
    assert(rest2[0] == outcomes[2]);
    assert(run(outcomes) == run_from(Phase::Spawn, rest1));
    assert(run_from(Phase::Spawn, rest1) == run_from(Phase::Pull, rest2));
    assert(run_from(Phase::Pull, rest2) == run_from(
        Phase::Aborted(BootError::Provision(e)),
        rest3,
    ));
    lemma_aborted_is_final(BootError::Provision(e), rest3);
}

/// The list step is advisory: after install, spawn and pull have succeeded,
/// the pipeline serves whatever the list step reported.
pub proof fn lemma_list_is_advisory(outcomes: Seq<StepOutcome>)
    requires
        outcomes.len() >= 4,
        outcomes[0] is Success,
        outcomes[1] is Success,
        outcomes[2] is Success,
    ensures
        run(outcomes) is Serve,
{
    let rest1 = outcomes.drop_first();
    let rest2 = rest1.drop_first();
    let rest3 = rest2.drop_first();
    let rest4 = rest3.drop_first();
    assert(rest1[0] == outcomes[1]);
    assert(rest2[0] == outcomes[2]);
    assert(run(outcomes) == run_from(Phase::Spawn, rest1));
    assert(run_from(Phase::Spawn, rest1) == run_from(Phase::Pull, rest2));
    assert(run_from(Phase::Pull, rest2) == run_from(Phase::List, rest3));
    assert(run_from(Phase::List, rest3) == run_from(Phase::Serve, rest4));
    lemma_serve_is_final(rest4);
}

/// The diagnostic the process terminates with when startup aborts: the
/// failed step's description followed by its captured error text.
pub fn describe(e: &BootError) -> (m: String)
    ensures
        e matches BootError::Install(s) ==> m@ == "Failed to download ollama: "@ + s@,
        e matches BootError::Spawn(s) ==> m@ == "Failed to start ollama server: "@ + s@,
        e matches BootError::Provision(s) ==> m@ == "Failed to pull model llama3:8b: "@ + s@,
{
    match e {
        BootError::Install(s) => "Failed to download ollama: ".to_owned().concat(s.as_str()),
        BootError::Spawn(s) => "Failed to start ollama server: ".to_owned().concat(s.as_str()),
        BootError::Provision(s) => "Failed to pull model llama3:8b: ".to_owned().concat(s.as_str()),
    }
}

} // verus!
