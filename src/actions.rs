//! Actions: what a rule does to an entity its condition matched.
use vstd::prelude::*;
use vstd::string::*;

use crate::types::{names_of, Label, PullRequestOrIssue};

verus! {

/// One action of a rule.
#[derive(Debug)]
pub enum Action {
    Log(Log),
}

/// Reports the entity's title and label names.
#[derive(Debug)]
pub struct Log {}

/// The effect an action asks its runner to carry out.
#[derive(Debug)]
pub enum ActionEffect {
    /// Emit `line` as a diagnostic record and on standard output.
    Log(String),
}

/// Why carrying out an action failed.
#[derive(Debug)]
pub struct ActionError {
    pub message: String,
}

/// The `Debug` rendering of a list of strings.
pub uninterp spec fn debug_list_of(items: Seq<Seq<char>>) -> Seq<char>;

/// Relies on std's `Debug` for `Vec<String>`: the rendering depends on the
/// strings alone.
#[verifier::external_body]
fn debug_list(items: &Vec<String>) -> (r: String)
    ensures
        r@ == debug_list_of(views_of(items@)),
{
    format!("{:?}", items)
}

/// The contents of a sequence of strings.
pub open spec fn views_of(v: Seq<String>) -> Seq<Seq<char>> {
    v.map_values(|s: String| s@)
}

/// The title of `e`, empty where it is unset.
pub open spec fn title_or_empty(e: &PullRequestOrIssue) -> Seq<char> {
    match e.spec_title() {
        Some(t) => t,
        None => Seq::empty(),
    }
}

/// The label names of `e`, none where its labels are unset.
pub open spec fn label_names_or_empty(e: &PullRequestOrIssue) -> Seq<Seq<char>> {
    match e.spec_labels() {
        Some(ls) => names_of(ls),
        None => Seq::empty(),
    }
}

/// The line the log action reports for `e`.
pub open spec fn log_line(e: &PullRequestOrIssue) -> Seq<char> {
    "Action::Log | Title: "@ + title_or_empty(e) + " | Labels: "@ + debug_list_of(
        label_names_or_empty(e),
    )
}

/// The names of `labels`, in order.
pub fn label_names(labels: &Vec<Label>) -> (r: Vec<String>)
    ensures
        views_of(r@) == names_of(labels@),
{
    let mut r: Vec<String> = Vec::new();
    let mut i: usize = 0;
    while i < labels.len()
        invariant
            i <= labels.len(),
            r.len() == i,
            forall|j: int| 0 <= j < i ==> (#[trigger] r@[j])@ == labels@[j].name@,
        decreases labels.len() - i,
    {
        r.push(labels[i].name.clone());
        i += 1;
    }
    assert(views_of(r@) =~= names_of(labels@));
    r
}

impl Log {
    /// The line reporting `issue`.
    pub fn execute(&self, issue: &PullRequestOrIssue) -> (r: String)
        ensures
            r@ == log_line(issue),
    {
        let names = match issue.labels() {
            Some(labels) => label_names(labels),
            None => Vec::new(),
        };
        proof {
            assert(views_of(names@) =~= label_names_or_empty(issue));
        }
        let mut line = String::from_str("Action::Log | Title: ");
        match issue.title() {
            Some(t) => line.append(t.as_str()),
            None => {},
        }
        line.append(" | Labels: ");
        let rendered = debug_list(&names);
        line.append(rendered.as_str());
        proof {
            reveal_strlit("Action::Log | Title: ");
            reveal_strlit(" | Labels: ");
            assert(line@ =~= log_line(issue));
        }
        line
    }
}

impl Action {
    /// What carrying out this action on `issue` takes.
    pub fn execute(&self, issue: &PullRequestOrIssue) -> (r: ActionEffect)
        ensures
            match (self, r) {
                (Action::Log(_), ActionEffect::Log(line)) => line@ == log_line(issue),
            },
    {
        match self {
            Action::Log(l) => ActionEffect::Log(l.execute(issue)),
        }
    }
}

} // verus!
