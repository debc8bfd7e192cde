//! The decisions of a sequential script run: which step runs next, what is
//! announced before it, and how the run ends. The caller performs each step
//! and reports back whether it succeeded.
use vstd::prelude::*;
use vstd::string::StringExecFns;

use super::validate::ValidatedScript;
use crate::text::{decimal, decimal_string};

verus! {

/// What the caller does next.
#[derive(Debug, Clone, PartialEq, Eq)]
pub enum RunAction {
    /// Print `announce` to the error stream, then perform step `index`.
    RunStep { index: usize, announce: String },
    /// Every step succeeded: the run succeeds.
    Succeed,
    /// Step `index` failed: the run fails with its error, under `context`.
    Fail { index: usize, context: String },
}

/// How a performed step went.
#[derive(Debug, Clone, Copy, PartialEq, Eq)]
pub enum StepOutcome {
    Succeeded,
    Failed,
}

/// The kind of an action, with the step index it concerns.
pub enum SpecRunAction {
    RunStep(nat),
    Succeed,
    Fail(nat),
}

/// The kind of an action.
pub open spec fn action_kind(a: RunAction) -> SpecRunAction {
    match a {
        RunAction::RunStep { index, .. } => SpecRunAction::RunStep(index as nat),
        RunAction::Succeed => SpecRunAction::Succeed,
        RunAction::Fail { index, .. } => SpecRunAction::Fail(index as nat),
    }
}

/// The first action of a run of `total` steps.
pub open spec fn spec_start(total: nat) -> SpecRunAction {
    if total == 0 {
        SpecRunAction::Succeed
    } else {
        SpecRunAction::RunStep(0)
    }
}

/// The action that follows step `current` of `total`, given whether it succeeded.
pub open spec fn spec_advance(current: nat, total: nat, ok: bool) -> SpecRunAction {
    if !ok {
        SpecRunAction::Fail(current)
    } else if current + 1 == total {
        SpecRunAction::Succeed
    } else {
        SpecRunAction::RunStep(current + 1)
    }
}

/// The action a run of `total` steps has reached after the outcomes
/// `outcomes` (true for success), outcomes after its end being ignored.
pub open spec fn run_trace(total: nat, outcomes: Seq<bool>) -> SpecRunAction
    decreases outcomes.len(),
{
    if outcomes.len() == 0 {
        spec_start(total)
    } else {
        match run_trace(total, outcomes.drop_last()) {
            SpecRunAction::RunStep(i) => spec_advance(i, total, outcomes.last()),
            other => other,
        }
    }
}

/// Steps run in order and the run stops at the first failure: after the
/// outcomes of its first steps, a run has failed at the first failed step if
/// there is one; otherwise it runs the next step, or has succeeded once
/// every step has.
pub proof fn lemma_run_in_order_until_first_failure(total: nat, outcomes: Seq<bool>)
    requires
        outcomes.len() <= total,
    ensures
        (forall|k: int| 0 <= k < outcomes.len() ==> #[trigger] outcomes[k]) ==> run_trace(total, outcomes) == (
            if outcomes.len() == total { SpecRunAction::Succeed } else { SpecRunAction::RunStep(outcomes.len()) }),
        forall|f: int|
            0 <= f < outcomes.len() && !#[trigger] outcomes[f] && (forall|k: int| 0 <= k < f ==> outcomes[k])
                ==> run_trace(total, outcomes) == SpecRunAction::Fail(f as nat),
    decreases outcomes.len(),
{
    if outcomes.len() > 0 {
        let prev = outcomes.drop_last();
        lemma_run_in_order_until_first_failure(total, prev);
        assert forall|f: int|
            0 <= f < outcomes.len() && !#[trigger] outcomes[f] && (forall|k: int| 0 <= k < f ==> outcomes[k])
                implies run_trace(total, outcomes) == SpecRunAction::Fail(f as nat) by {
            if f < outcomes.len() - 1 {
                assert(!prev[f]);
                assert forall|k: int| 0 <= k < f implies prev[k] by {
                    assert(outcomes[k]);
                }
            } else {
                assert forall|k: int| 0 <= k < prev.len() implies #[trigger] prev[k] by {
                    assert(outcomes[k]);
                }
            }
        }
        if forall|k: int| 0 <= k < outcomes.len() ==> #[trigger] outcomes[k] {
            assert forall|k: int| 0 <= k < prev.len() implies #[trigger] prev[k] by {
                assert(outcomes[k]);
            }
            assert(outcomes.last());
        }
    }
}

/// A sequential run in progress: step `current` of `total` is running, and
/// every earlier step has succeeded.
pub struct ScriptRun {
    names: Vec<String>,
    current: usize,
    finished: bool,
}

/// The line announced before step `index` (counted from zero) of `total` runs.
pub open spec fn spec_announce(index: nat, total: nat, name: Seq<char>) -> Seq<char> {
    "Running step "@ + decimal(index + 1) + "/"@ + decimal(total) + ": "@ + name
}

/// The context added to the error of a failed step.
pub open spec fn spec_failure_context(name: Seq<char>) -> Seq<char> {
    "Step '"@ + name + "' failed"@
}

/// The announcement that step `index` of `names` runs.
fn announce(names: &Vec<String>, index: usize) -> (r: String)
    requires
        index < names@.len(),
    ensures
        r@ == spec_announce(index as nat, names@.len(), names@[index as int]@),
{
    let total = names.len();
    let mut m = String::new();
    m.append("Running step ");
    let a = decimal_string(index + 1);
    m.append(a.as_str());
    m.append("/");
    let b = decimal_string(total);
    m.append(b.as_str());
    m.append(": ");
    m.append(names[index].as_str());
    m
}

impl ScriptRun {
    /// The names of the steps of the run.
    pub closed spec fn names(&self) -> Seq<Seq<char>> {
        self.names.deep_view()
    }

    /// The step now running (or, once finished, the last one that ran).
    pub closed spec fn current(&self) -> nat {
        self.current as nat
    }

    /// Whether the run has ended.
    pub closed spec fn finished(&self) -> bool {
        self.finished
    }

    /// The run's own record is always consistent: an unfinished run is at one
    /// of its steps.
    #[verifier::type_invariant]
    spec fn wf(&self) -> bool {
        !self.finished ==> self.current < self.names@.len()
    }

    /// Starts a run of a validated script: its first step runs, or the run
    /// succeeds at once when there is none.
    pub fn start(script: &ValidatedScript) -> (r: (ScriptRun, RunAction))
        ensures
            r.0.names() == script@.steps.map_values(|s: super::validate::SpecValidatedStep| s.name),
            r.0.current() == 0,
            action_kind(r.1) == spec_start(script@.steps.len()),
            script@.steps.len() == 0 ==> r.0.finished() && r.1 == RunAction::Succeed,
            script@.steps.len() > 0 ==> !r.0.finished() && (r.1 matches RunAction::RunStep { index, announce }
                && index == 0 && announce@ == spec_announce(0, script@.steps.len(), script@.steps[0].name)),
    {
        let mut names: Vec<String> = Vec::new();
        let mut i: usize = 0;
        while i < script.steps.len()
            invariant
                i <= script.steps@.len(),
                names@.len() == i,
                forall|k: int| 0 <= k < i ==> (#[trigger] names@[k])@ == script.steps@[k].name@,
            decreases script.steps@.len() - i,
        {
            names.push(script.steps[i].name.clone());
            i = i + 1;
        }
        assert(names.deep_view() =~= script@.steps.map_values(|s: super::validate::SpecValidatedStep| s.name));
        if names.len() == 0 {
            (ScriptRun { names, current: 0, finished: true }, RunAction::Succeed)
        } else {
            let announce = announce(&names, 0);
            (ScriptRun { names, current: 0, finished: false }, RunAction::RunStep { index: 0, announce })
        }
    }

    /// Whether the run has ended, in success or failure.
    pub fn is_finished(&self) -> (r: bool)
        ensures
            r == self.finished(),
    {
        self.finished
    }

    /// Records how the running step went and decides what follows: a failure
    /// ends the run with that step's error; a success runs the next step, or
    /// ends the run successfully after the last one.
    pub fn advance(&mut self, outcome: StepOutcome) -> (r: RunAction)
        requires
            !old(self).finished(),
        ensures
            final(self).names() == old(self).names(),
            action_kind(r) == spec_advance(old(self).current(), old(self).names().len(), outcome == StepOutcome::Succeeded),
            outcome == StepOutcome::Failed ==> final(self).finished() && final(self).current() == old(self).current()
                && (r matches RunAction::Fail { index, context } && index == old(self).current()
                && context@ == spec_failure_context(old(self).names()[old(self).current() as int])),
            outcome == StepOutcome::Succeeded && old(self).current() + 1 == old(self).names().len()
                ==> final(self).finished() && r == RunAction::Succeed,
            outcome == StepOutcome::Succeeded && old(self).current() + 1 < old(self).names().len() ==> {
                &&& !final(self).finished()
                &&& final(self).current() == old(self).current() + 1
                &&& r matches RunAction::RunStep { index, announce }
                &&& index == old(self).current() + 1
                &&& announce@ == spec_announce(index as nat, old(self).names().len(), old(self).names()[index as int])
            },
    {
        proof {
            use_type_invariant(&*self);
        }
        match outcome {
            StepOutcome::Failed => {
                self.finished = true;
                let mut context = String::new();
                context.append("Step '");
                context.append(self.names[self.current].as_str());
                context.append("' failed");
                RunAction::Fail { index: self.current, context }
            },
            StepOutcome::Succeeded => {
                let total = self.names.len();
                if self.current + 1 == total {
                    self.finished = true;
                    RunAction::Succeed
                } else {
                    self.current = self.current + 1;
                    let announce = announce(&self.names, self.current);
                    RunAction::RunStep { index: self.current, announce }
                }
            },
        }
    }
}

} // verus!
