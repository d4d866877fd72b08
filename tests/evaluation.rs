use octoprism::actions::{Action, ActionEffect, ActionError, Log};
use octoprism::conditions::{And, Condition, HasLabels, IsIssue, IsPullRequest, Not, Or};
use octoprism::rules::{Rule, RuleStep};
use octoprism::types::{Author, Issue, IssueState, Label, PullRequest, PullRequestOrIssue, Timestamp};

fn label(name: &str) -> Label {
    Label { id: 1, name: name.to_string() }
}

fn issue(title: &str, labels: Option<Vec<Label>>) -> PullRequestOrIssue {
    PullRequestOrIssue::Issue(Issue {
        node_id: "I_1".to_string(),
        user: Author { id: 7, login: "octo".to_string() },
        url: "https://api.example/issues/1".to_string(),
        comments_url: "https://api.example/issues/1/comments".to_string(),
        html_url: "https://example/issues/1".to_string(),
        number: 1,
        comments: 3,
        state: IssueState::Open,
        title: title.to_string(),
        body: None,
        body_text: None,
        body_html: None,
        labels,
        assignees: vec![],
        locked: false,
        created_at: Timestamp { seconds: 1_700_000_000 },
        updated_at: Timestamp { seconds: 1_700_000_100 },
        closed_at: None,
        milestone: None,
    })
}

fn pull_request(title: Option<&str>, labels: Option<Vec<Label>>) -> PullRequestOrIssue {
    PullRequestOrIssue::PullRequest(PullRequest {
        node_id: None,
        user: None,
        url: "https://api.example/pulls/2".to_string(),
        comments_url: None,
        html_url: None,
        number: 2,
        comments: None,
        state: None,
        title: title.map(|t| t.to_string()),
        body: None,
        body_text: None,
        body_html: None,
        labels,
        assignees: None,
        locked: false,
        created_at: None,
        updated_at: None,
        closed_at: None,
        milestone: None,
    })
}

fn has_labels(names: &[&str]) -> Condition {
    Condition::HasLabels(HasLabels(names.iter().map(|n| n.to_string()).collect()))
}

fn run(rule: &Rule, e: &PullRequestOrIssue, fail_at: Option<usize>) -> (Vec<String>, Result<(), usize>) {
    let mut outcomes: Vec<Result<(), ActionError>> = Vec::new();
    let mut lines = Vec::new();
    loop {
        match rule.apply(e, &outcomes) {
            RuleStep::Perform(i) => {
                let ActionEffect::Log(line) = rule.actions[i].execute(e);
                lines.push(line);
                if fail_at == Some(i) {
                    outcomes.push(Err(ActionError { message: "boom".to_string() }));
                } else {
                    outcomes.push(Ok(()));
                }
            }
            RuleStep::Done => return (lines, Ok(())),
            RuleStep::Failed(k) => return (lines, Err(k)),
        }
    }
}

#[test]
fn kinds_are_exclusive() {
    let i = issue("a", None);
    let p = pull_request(None, None);
    assert!(IsIssue().matches(&i) && !IsPullRequest().matches(&i));
    assert!(!IsIssue().matches(&p) && IsPullRequest().matches(&p));
}

#[test]
fn empty_and_is_true_empty_or_is_false() {
    for e in [issue("a", None), pull_request(Some("b"), Some(vec![label("x")]))] {
        assert!(Condition::And(And(vec![])).matches(&e));
        assert!(!Condition::Or(Or(vec![])).matches(&e));
    }
}

#[test]
fn not_negates() {
    let e = issue("a", Some(vec![label("bug")]));
    let yes = Condition::Not(Not(Box::new(has_labels(&["bug"]))));
    let no = Condition::Not(Not(Box::new(has_labels(&["feature"]))));
    assert!(!yes.matches(&e));
    assert!(no.matches(&e));
}

#[test]
fn or_needs_one_child() {
    let e = issue("a", Some(vec![label("bug")]));
    let c = Condition::Or(Or(vec![Condition::IsPullRequest(IsPullRequest()), has_labels(&["bug"])]));
    assert!(c.matches(&e));
    let d = Condition::Or(Or(vec![Condition::IsPullRequest(IsPullRequest()), has_labels(&["x"])]));
    assert!(!d.matches(&e));
}

#[test]
fn has_labels_with_known_labels() {
    let e = pull_request(None, Some(vec![label("bug"), label("ui")]));
    assert!(has_labels(&[]).matches(&e));
    assert!(has_labels(&["ui", "bug"]).matches(&e));
    assert!(!has_labels(&["bug", "docs"]).matches(&e));
    let bare = pull_request(None, Some(vec![]));
    assert!(has_labels(&[]).matches(&bare));
    assert!(!has_labels(&["bug"]).matches(&bare));
}

#[test]
fn has_labels_with_unset_labels() {
    let e = pull_request(None, None);
    assert!(has_labels(&[]).matches(&e));
    assert!(has_labels(&["bug", "docs"]).matches(&e));
}

#[test]
fn pull_request_with_bug_label_is_logged() {
    let e = pull_request(Some("Fix crash"), Some(vec![label("bug")]));
    let rule = Rule {
        condition: Condition::And(And(vec![Condition::IsPullRequest(IsPullRequest()), has_labels(&["bug"])])),
        actions: vec![Action::Log(Log {})],
    };
    let (lines, result) = run(&rule, &e, None);
    assert_eq!(result, Ok(()));
    assert_eq!(lines, vec!["Action::Log | Title: Fix crash | Labels: [\"bug\"]".to_string()]);
}

#[test]
fn issue_without_labels_meets_label_requirement() {
    let e = issue("Needs a look", None);
    assert!(has_labels(&["needs-triage"]).matches(&e));
}

#[test]
fn issue_against_pull_request_rule_runs_nothing() {
    let e = issue("Question", Some(vec![]));
    let rule = Rule {
        condition: Condition::IsPullRequest(IsPullRequest()),
        actions: vec![Action::Log(Log {}), Action::Log(Log {})],
    };
    let (lines, result) = run(&rule, &e, None);
    assert_eq!(result, Ok(()));
    assert!(lines.is_empty());
}

#[test]
fn failing_action_stops_the_rule() {
    let e = issue("t", None);
    let rule = Rule {
        condition: Condition::IsIssue(IsIssue()),
        actions: vec![Action::Log(Log {}), Action::Log(Log {}), Action::Log(Log {}), Action::Log(Log {})],
    };
    let (lines, result) = run(&rule, &e, Some(1));
    assert_eq!(result, Err(1));
    assert_eq!(lines.len(), 2);
    let (lines, result) = run(&rule, &e, None);
    assert_eq!(result, Ok(()));
    assert_eq!(lines.len(), 4);
}

#[test]
fn apply_reports_first_failure_and_next_action() {
    let e = issue("t", None);
    let rule = Rule {
        condition: Condition::IsIssue(IsIssue()),
        actions: vec![Action::Log(Log {}), Action::Log(Log {}), Action::Log(Log {})],
    };
    let err = || Err(ActionError { message: "no".to_string() });
    assert_eq!(rule.apply(&e, &vec![]), RuleStep::Perform(0));
    assert_eq!(rule.apply(&e, &vec![Ok(()), Ok(())]), RuleStep::Perform(2));
    assert_eq!(rule.apply(&e, &vec![Ok(()), err(), Ok(())]), RuleStep::Failed(1));
    assert_eq!(rule.apply(&e, &vec![Ok(()), Ok(()), Ok(())]), RuleStep::Done);
}

#[test]
fn log_line_without_title_or_labels() {
    let e = pull_request(None, None);
    assert_eq!(Log {}.execute(&e), "Action::Log | Title:  | Labels: []");
    let f = issue("Two \"words\"", Some(vec![label("a"), label("b c")]));
    assert_eq!(Log {}.execute(&f), "Action::Log | Title: Two \"words\" | Labels: [\"a\", \"b c\"]");
}

#[test]
fn accessors_unify_both_shapes() {
    let i = issue("Issue title", Some(vec![label("bug")]));
    let p = pull_request(None, None);
    assert_eq!(i.title().map(|s| s.as_str()), Some("Issue title"));
    assert_eq!(p.title(), None);
    assert_eq!(i.comments(), 3);
    assert_eq!(p.comments(), 0);
    assert_eq!(i.node_id().map(|s| s.as_str()), Some("I_1"));
    assert_eq!(p.node_id(), None);
    assert_eq!(i.labels().map(|l| l.len()), Some(1));
    assert!(p.labels().is_none());
}
