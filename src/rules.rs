//! Rules: one condition bound to an ordered list of actions.
use vstd::prelude::*;

use crate::actions::{Action, ActionError};
use crate::conditions::Condition;
use crate::types::PullRequestOrIssue;

verus! {

/// A condition and the actions to carry out, in order, on entities it matches.
#[derive(Debug)]
pub struct Rule {
    pub condition: Condition,
    pub actions: Vec<Action>,
}

/// What applying a rule asks for next.
#[derive(Debug, Clone, Copy, PartialEq, Eq, Structural)]
pub enum RuleStep {
    /// Carry out the action at this index and report its outcome.
    Perform(usize),
    /// The rule is applied and nothing failed.
    Done,
    /// The action at this index failed; the rule stops there with its error.
    Failed(usize),
}

impl Rule {
    /// The step after the outcomes `outcomes` were reported, looking from action `i` on.
    pub open spec fn spec_step_from(&self, outcomes: Seq<Result<(), ActionError>>, i: int) -> RuleStep
        decreases self.actions.len() - i,
    {
        if i < 0 || i >= self.actions.len() {
            RuleStep::Done
        } else if i >= outcomes.len() {
            RuleStep::Perform(i as usize)
        } else if outcomes[i] is Err {
            RuleStep::Failed(i as usize)
        } else {
            self.spec_step_from(outcomes, i + 1)
        }
    }

    /// The step of applying this rule to `e` once the actions performed so far
    /// have reported `outcomes`, in order.
    pub open spec fn spec_step(&self, e: &PullRequestOrIssue, outcomes: Seq<Result<(), ActionError>>) -> RuleStep {
        if !self.condition.spec_matches(e) {
            RuleStep::Done
        } else {
            self.spec_step_from(outcomes, 0)
        }
    }

    /// Decides the next step of applying this rule to `issue`, given the
    /// outcomes of the actions carried out so far. Nothing is performed unless
    /// the condition matches; actions run in order; the first failure ends the
    /// rule.
    pub fn apply(&self, issue: &PullRequestOrIssue, outcomes: &Vec<Result<(), ActionError>>) -> (r: RuleStep)
        ensures
            r == self.spec_step(issue, outcomes@),
    {
        if !self.condition.matches(issue) {
            return RuleStep::Done;
        }
        let mut i: usize = 0;
        while i < self.actions.len()
            invariant
                i <= self.actions.len(),
                self.condition.spec_matches(issue),
                self.spec_step_from(outcomes@, 0) == self.spec_step_from(outcomes@, i as int),
            decreases self.actions.len() - i,
        {
            if i >= outcomes.len() {
                return RuleStep::Perform(i);
            }
            if outcomes[i].is_err() {
                return RuleStep::Failed(i);
            }
            i += 1;
        }
        RuleStep::Done
    }
}

/// Stepping from `i` over outcomes that all succeeded up to `k` reaches `k`'s step.
proof fn lemma_step_skips_successes(rule: &Rule, outcomes: Seq<Result<(), ActionError>>, i: int, k: int)
    requires
        0 <= i <= k,
        k <= outcomes.len(),
        forall|j: int| 0 <= j < k ==> (#[trigger] outcomes[j]) is Ok,
    ensures
        rule.spec_step_from(outcomes, i) == rule.spec_step_from(outcomes, k),
    decreases k - i,
{
    if i < k && i < rule.actions.len() {
        lemma_step_skips_successes(rule, outcomes, i + 1, k);
    } else if i < k {
        assert(rule.spec_step_from(outcomes, k) == RuleStep::Done);
    }
}

/// Applying a rule is fail-fast. When the condition matches and the action at
/// index `k` fails after the ones before it succeeded, the actions `0..=k` are
/// asked for one by one, in order; once `k`'s failure is reported the rule
/// stops with it, whatever else is reported, and no later action is asked for.
pub proof fn lemma_fail_fast(rule: &Rule, e: &PullRequestOrIssue, outcomes: Seq<Result<(), ActionError>>, k: int)
    requires
        rule.condition.spec_matches(e),
        0 <= k < rule.actions.len(),
        k < outcomes.len(),
        outcomes[k] is Err,
        forall|j: int| 0 <= j < k ==> (#[trigger] outcomes[j]) is Ok,
    ensures
        forall|j: int| 0 <= j <= k ==> rule.spec_step(e, #[trigger] outcomes.take(j)) == RuleStep::Perform(j as usize),
        forall|m: int| k < m <= outcomes.len() ==> rule.spec_step(e, #[trigger] outcomes.take(m)) == RuleStep::Failed(k as usize),
{
    assert forall|j: int| 0 <= j <= k implies rule.spec_step(e, #[trigger] outcomes.take(j)) == RuleStep::Perform(j as usize) by {
        let h = outcomes.take(j);
        lemma_step_skips_successes(rule, h, 0, j);
    }
    assert forall|m: int| k < m <= outcomes.len() implies rule.spec_step(e, #[trigger] outcomes.take(m)) == RuleStep::Failed(k as usize) by {
        let h = outcomes.take(m);
        lemma_step_skips_successes(rule, h, 0, k);
    }
}

/// A rule whose condition does not match an entity asks for no action and
/// succeeds, whatever outcomes are reported.
pub proof fn lemma_unmatched_runs_nothing(rule: &Rule, e: &PullRequestOrIssue, outcomes: Seq<Result<(), ActionError>>)
    requires
        !rule.condition.spec_matches(e),
    ensures
        rule.spec_step(e, outcomes) == RuleStep::Done,
{
}

} // verus!
