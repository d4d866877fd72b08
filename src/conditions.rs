//! The condition language: a tree of boolean predicates over an entity.
use vstd::prelude::*;

use crate::types::{Label, PullRequestOrIssue};

verus! {

broadcast use vstd::std_specs::vec::group_vec_axioms;

/// One node of a condition tree.
#[derive(Debug)]
pub enum Condition {
    And(And),
    Or(Or),
    Not(Not),
    HasLabels(HasLabels),
    IsIssue(IsIssue),
    IsPullRequest(IsPullRequest),
}

/// Holds when every child holds.
#[derive(Debug)]
pub struct And(pub Vec<Condition>);

/// Holds when some child holds.
#[derive(Debug)]
pub struct Or(pub Vec<Condition>);

/// Holds when its child does not.
#[derive(Debug)]
pub struct Not(pub Box<Condition>);

/// Holds when each named label is on the entity, or the entity carries no
/// label information at all.
#[derive(Debug)]
pub struct HasLabels(pub Vec<String>);

/// Holds of issues.
#[derive(Debug)]
pub struct IsIssue();

/// Holds of pull requests.
#[derive(Debug)]
pub struct IsPullRequest();

/// Some label in `labels` is named `name`.
pub open spec fn has_label(labels: Seq<Label>, name: Seq<char>) -> bool {
    exists|i: int| 0 <= i < labels.len() && (#[trigger] labels[i]).name@ == name
}

/// The label requirement `names` against a label list that may be unset.
pub open spec fn labels_satisfy(labels: Option<Seq<Label>>, names: Seq<String>) -> bool {
    match labels {
        None => true,
        Some(ls) => forall|j: int| 0 <= j < names.len() ==> has_label(ls, (#[trigger] names[j])@),
    }
}

/// Every condition of `cs` from index `i` on holds of `e`.
pub open spec fn all_match_from(cs: &Vec<Condition>, i: int, e: &PullRequestOrIssue) -> bool
    decreases cs, cs.len() - i,
{
    if 0 <= i < cs.len() {
        cs[i].spec_matches(e) && all_match_from(cs, i + 1, e)
    } else {
        true
    }
}

/// Some condition of `cs` from index `i` on holds of `e`.
pub open spec fn any_match_from(cs: &Vec<Condition>, i: int, e: &PullRequestOrIssue) -> bool
    decreases cs, cs.len() - i,
{
    if 0 <= i < cs.len() {
        cs[i].spec_matches(e) || any_match_from(cs, i + 1, e)
    } else {
        false
    }
}

/// `all_match_from` is the universal statement over the remaining children.
pub proof fn lemma_all_match_from(cs: &Vec<Condition>, i: int, e: &PullRequestOrIssue)
    requires
        0 <= i,
    ensures
        all_match_from(cs, i, e) == (forall|j: int| i <= j < cs.len() ==> #[trigger] cs[j].spec_matches(e)),
    decreases cs.len() - i,
{
    if i < cs.len() {
        lemma_all_match_from(cs, i + 1, e);
        if all_match_from(cs, i, e) {
            assert forall|j: int| i <= j < cs.len() implies #[trigger] cs[j].spec_matches(e) by {
                if j > i {
                    assert(i + 1 <= j < cs.len());
                }
            }
        }
        if forall|j: int| i <= j < cs.len() ==> #[trigger] cs[j].spec_matches(e) {
            assert(cs[i].spec_matches(e));
        }
    }
}

/// `any_match_from` is the existential statement over the remaining children.
pub proof fn lemma_any_match_from(cs: &Vec<Condition>, i: int, e: &PullRequestOrIssue)
    requires
        0 <= i,
    ensures
        any_match_from(cs, i, e) == (exists|j: int| i <= j < cs.len() && #[trigger] cs[j].spec_matches(e)),
    decreases cs.len() - i,
{
    if i < cs.len() {
        lemma_any_match_from(cs, i + 1, e);
        if any_match_from(cs, i, e) && !cs[i].spec_matches(e) {
            let j = choose|j: int| i + 1 <= j < cs.len() && #[trigger] cs[j].spec_matches(e);
            assert(i <= j < cs.len());
        }
    }
}

impl Condition {
    /// The verdict of this tree on `e`.
    pub open spec fn spec_matches(&self, e: &PullRequestOrIssue) -> bool
        decreases self, 0int,
    {
        match self {
            Condition::And(a) => all_match_from(&a.0, 0, e),
            Condition::Or(o) => any_match_from(&o.0, 0, e),
            Condition::Not(n) => !n.0.spec_matches(e),
            Condition::HasLabels(h) => labels_satisfy(e.spec_labels(), h.0@),
            Condition::IsIssue(_) => e is Issue,
            Condition::IsPullRequest(_) => e is PullRequest,
        }
    }

    /// Evaluates the tree on `e`.
    pub fn matches(&self, issue: &PullRequestOrIssue) -> (r: bool)
        ensures
            r == self.spec_matches(issue),
        decreases self, 0nat,
    {
        match self {
            Condition::And(a) => {
                let r = a.matches(issue);
                proof {
                    lemma_all_match_from(&a.0, 0, issue);
                }
                r
            },
            Condition::Or(o) => {
                let r = o.matches(issue);
                proof {
                    lemma_any_match_from(&o.0, 0, issue);
                }
                r
            },
            Condition::Not(n) => n.matches(issue),
            Condition::HasLabels(h) => h.matches(issue),
            Condition::IsIssue(c) => c.matches(issue),
            Condition::IsPullRequest(c) => c.matches(issue),
        }
    }
}

impl And {
    pub fn matches(&self, issue: &PullRequestOrIssue) -> (r: bool)
        ensures
            r == (forall|i: int| 0 <= i < self.0.len() ==> #[trigger] self.0[i].spec_matches(issue)),
        decreases self, 1nat,
    {
        let mut k: usize = 0;
        while k < self.0.len()
            invariant
                k <= self.0.len(),
                forall|i: int| 0 <= i < k ==> #[trigger] self.0[i].spec_matches(issue),
            decreases self.0.len() - k,
        {
            if !self.0[k].matches(issue) {
                return false;
            }
            k += 1;
        }
        true
    }
}

impl Or {
    pub fn matches(&self, issue: &PullRequestOrIssue) -> (r: bool)
        ensures
            r == (exists|i: int| 0 <= i < self.0.len() && #[trigger] self.0[i].spec_matches(issue)),
        decreases self, 1nat,
    {
        let mut k: usize = 0;
        while k < self.0.len()
            invariant
                k <= self.0.len(),
                forall|i: int| 0 <= i < k ==> !(#[trigger] self.0[i].spec_matches(issue)),
            decreases self.0.len() - k,
        {
            if self.0[k].matches(issue) {
                return true;
            }
            k += 1;
        }
        false
    }
}

impl Not {
    pub fn matches(&self, issue: &PullRequestOrIssue) -> (r: bool)
        ensures
            r == !self.0.spec_matches(issue),
        decreases self, 1nat,
    {
        !self.0.matches(issue)
    }
}

impl HasLabels {
    pub fn matches(&self, issue: &PullRequestOrIssue) -> (r: bool)
        ensures
            r == labels_satisfy(issue.spec_labels(), self.0@),
    {
        match issue.labels() {
            None => true,
            Some(labels) => {
                let mut j: usize = 0;
                while j < self.0.len()
                    invariant
                        j <= self.0.len(),
                        issue.spec_labels() == Some(labels@),
                        forall|q: int| 0 <= q < j ==> has_label(labels@, (#[trigger] self.0@[q])@),
                    decreases self.0.len() - j,
                {
                    let wanted = &self.0[j];
                    let mut i: usize = 0;
                    let mut found = false;
                    while i < labels.len() && !found
                        invariant
                            i <= labels.len(),
                            found ==> has_label(labels@, wanted@),
                            !found ==> forall|p: int| 0 <= p < i ==> (#[trigger] labels@[p]).name@ != wanted@,
                        decreases labels.len() - i + (if found { 0int } else { 1int }),
                    {
                        if labels[i].name == *wanted {
                            found = true;
                        } else {
                            i += 1;
                        }
                    }
                    if !found {
                        return false;
                    }
                    j += 1;
                }
                true
            },
        }
    }
}

impl IsIssue {
    pub fn matches(&self, issue: &PullRequestOrIssue) -> (r: bool)
        ensures
            r == (issue is Issue),
    {
        match issue {
            PullRequestOrIssue::Issue(_) => true,
            PullRequestOrIssue::PullRequest(_) => false,
        }
    }
}

impl IsPullRequest {
    pub fn matches(&self, issue: &PullRequestOrIssue) -> (r: bool)
        ensures
            r == (issue is PullRequest),
    {
        match issue {
            PullRequestOrIssue::PullRequest(_) => true,
            PullRequestOrIssue::Issue(_) => false,
        }
    }
}

/// Every entity is exactly one of an issue and a pull request.
pub proof fn lemma_kind_exclusive(e: &PullRequestOrIssue)
    ensures
        Condition::IsIssue(IsIssue()).spec_matches(e) != Condition::IsPullRequest(IsPullRequest()).spec_matches(e),
{
}

/// A conjunction without children holds of every entity; a disjunction
/// without children holds of none.
pub proof fn lemma_empty_junctions(e: &PullRequestOrIssue, a: And, o: Or)
    requires
        a.0.len() == 0,
        o.0.len() == 0,
    ensures
        Condition::And(a).spec_matches(e),
        !Condition::Or(o).spec_matches(e),
{
    lemma_all_match_from(&a.0, 0, e);
    lemma_any_match_from(&o.0, 0, e);
}

/// A negation holds exactly when its child does not.
pub proof fn lemma_not_negates(c: Condition, e: &PullRequestOrIssue)
    ensures
        Condition::Not(Not(Box::new(c))).spec_matches(e) == !c.spec_matches(e),
{
}

/// A label requirement holds of every entity without label information;
/// otherwise it holds exactly when each required name is among its labels.
pub proof fn lemma_has_labels(h: HasLabels, e: &PullRequestOrIssue)
    ensures
        e.spec_labels() is None ==> Condition::HasLabels(h).spec_matches(e),
        e.spec_labels() is Some ==> (Condition::HasLabels(h).spec_matches(e) <==> forall|j: int|
            0 <= j < h.0.len() ==> has_label(e.spec_labels()->0, (#[trigger] h.0@[j])@)),
{
}

} // verus!
