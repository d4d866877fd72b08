//! The entity adapter: issues and pull requests behind one field surface.
use vstd::prelude::*;

verus! {

/// An account that authored or is assigned to an item.
#[derive(Debug)]
pub struct Author {
    pub id: u64,
    pub login: String,
}

/// A label attached to an item.
#[derive(Debug)]
pub struct Label {
    pub id: u64,
    pub name: String,
}

/// A milestone an item belongs to.
#[derive(Debug)]
pub struct Milestone {
    pub id: u64,
    pub number: i64,
    pub title: String,
}

/// Whether an item is open or closed.
#[derive(Debug, Clone, Copy, PartialEq, Eq, Structural)]
pub enum IssueState {
    Open,
    Closed,
}

/// A point in time, as whole seconds since the Unix epoch (UTC).
#[derive(Debug, Clone, Copy, PartialEq, Eq, Structural)]
pub struct Timestamp {
    pub seconds: i64,
}

/// The raw shape of an issue as the tracker reports it.
#[derive(Debug)]
pub struct Issue {
    pub node_id: String,
    pub user: Author,
    pub url: String,
    pub comments_url: String,
    pub html_url: String,
    pub number: u64,
    pub comments: u32,
    pub state: IssueState,
    pub title: String,
    pub body: Option<String>,
    pub body_text: Option<String>,
    pub body_html: Option<String>,
    /// `None` where the payload carried no label list at all.
    pub labels: Option<Vec<Label>>,
    pub assignees: Vec<Author>,
    pub locked: bool,
    pub created_at: Timestamp,
    pub updated_at: Timestamp,
    pub closed_at: Option<Timestamp>,
    pub milestone: Option<Milestone>,
}

/// The raw shape of a pull request as the tracker reports it; most of its
/// fields may be absent from a payload.
#[derive(Debug)]
pub struct PullRequest {
    pub node_id: Option<String>,
    pub user: Option<Author>,
    pub url: String,
    pub comments_url: Option<String>,
    pub html_url: Option<String>,
    pub number: u64,
    pub comments: Option<u64>,
    pub state: Option<IssueState>,
    pub title: Option<String>,
    pub body: Option<String>,
    pub body_text: Option<String>,
    pub body_html: Option<String>,
    pub labels: Option<Vec<Label>>,
    pub assignees: Option<Vec<Author>>,
    pub locked: bool,
    pub created_at: Option<Timestamp>,
    pub updated_at: Option<Timestamp>,
    pub closed_at: Option<Timestamp>,
    pub milestone: Option<Milestone>,
}

/// An entity under triage: either shape, read through one accessor surface.
#[derive(Debug)]
pub enum PullRequestOrIssue {
    PullRequest(PullRequest),
    Issue(Issue),
}

/// Borrows the content of an optional field.
pub open spec fn opt_ref<T>(o: &Option<T>) -> Option<&T> {
    match o {
        Some(x) => Some(x),
        None => None,
    }
}

/// The names of a sequence of labels, in order.
pub open spec fn names_of(labels: Seq<Label>) -> Seq<Seq<char>> {
    labels.map_values(|l: Label| l.name@)
}

impl PullRequestOrIssue {
    /// The label list of the entity, or `None` where it is unset.
    pub open spec fn spec_labels(&self) -> Option<Seq<Label>> {
        match self {
            PullRequestOrIssue::PullRequest(pr) => match pr.labels {
                Some(v) => Some(v@),
                None => None,
            },
            PullRequestOrIssue::Issue(issue) => match issue.labels {
                Some(v) => Some(v@),
                None => None,
            },
        }
    }

    /// The title of the entity, or `None` where it is unset.
    pub open spec fn spec_title(&self) -> Option<Seq<char>> {
        match self {
            PullRequestOrIssue::PullRequest(pr) => match pr.title {
                Some(t) => Some(t@),
                None => None,
            },
            PullRequestOrIssue::Issue(issue) => Some(issue.title@),
        }
    }

    /// The node identifier.
    pub fn node_id(&self) -> (r: Option<&String>)
        ensures
            r == match self {
                PullRequestOrIssue::PullRequest(pr) => opt_ref(&pr.node_id),
                PullRequestOrIssue::Issue(issue) => Some(&issue.node_id),
            },
    {
        match self {
            PullRequestOrIssue::PullRequest(pr) => pr.node_id.as_ref(),
            PullRequestOrIssue::Issue(issue) => Some(&issue.node_id),
        }
    }

    /// The title.
    pub fn title(&self) -> (r: Option<&String>)
        ensures
            r == match self {
                PullRequestOrIssue::PullRequest(pr) => opt_ref(&pr.title),
                PullRequestOrIssue::Issue(issue) => Some(&issue.title),
            },
            match r {
                Some(t) => self.spec_title() == Some(t@),
                None => self.spec_title() is None,
            },
    {
        match self {
            PullRequestOrIssue::PullRequest(pr) => pr.title.as_ref(),
            PullRequestOrIssue::Issue(issue) => Some(&issue.title),
        }
    }

    /// The labels; `None` where the entity carries no label information.
    pub fn labels(&self) -> (r: Option<&Vec<Label>>)
        ensures
            r == match self {
                PullRequestOrIssue::PullRequest(pr) => opt_ref(&pr.labels),
                PullRequestOrIssue::Issue(issue) => opt_ref(&issue.labels),
            },
            match r {
                Some(v) => self.spec_labels() == Some(v@),
                None => self.spec_labels() is None,
            },
    {
        match self {
            PullRequestOrIssue::PullRequest(pr) => pr.labels.as_ref(),
            PullRequestOrIssue::Issue(issue) => issue.labels.as_ref(),
        }
    }

    /// The number of comments; zero where the count is absent.
    pub fn comments(&self) -> (r: u64)
        ensures
            r == match self {
                PullRequestOrIssue::PullRequest(pr) => match pr.comments {
                    Some(n) => n,
                    None => 0,
                },
                PullRequestOrIssue::Issue(issue) => issue.comments as u64,
            },
    {
        match self {
            PullRequestOrIssue::PullRequest(pr) => match pr.comments {
                Some(n) => n,
                None => 0,
            },
            PullRequestOrIssue::Issue(issue) => issue.comments as u64,
        }
    }

    /// The author.
    pub fn user(&self) -> (r: Option<&Author>)
        ensures
            r == match self {
                PullRequestOrIssue::PullRequest(pr) => opt_ref(&pr.user),
                PullRequestOrIssue::Issue(issue) => Some(&issue.user),
            },
    {
        match self {
            PullRequestOrIssue::PullRequest(pr) => pr.user.as_ref(),
            PullRequestOrIssue::Issue(issue) => Some(&issue.user),
        }
    }

    /// The canonical API URL.
    pub fn url(&self) -> (r: &String)
        ensures
            r == match self {
                PullRequestOrIssue::PullRequest(pr) => &pr.url,
                PullRequestOrIssue::Issue(issue) => &issue.url,
            },
    {
        match self {
            PullRequestOrIssue::PullRequest(pr) => &pr.url,
            PullRequestOrIssue::Issue(issue) => &issue.url,
        }
    }

    /// The URL of the comment list.
    pub fn comments_url(&self) -> (r: Option<&String>)
        ensures
            r == match self {
                PullRequestOrIssue::PullRequest(pr) => opt_ref(&pr.comments_url),
                PullRequestOrIssue::Issue(issue) => Some(&issue.comments_url),
            },
    {
        match self {
            PullRequestOrIssue::PullRequest(pr) => pr.comments_url.as_ref(),
            PullRequestOrIssue::Issue(issue) => Some(&issue.comments_url),
        }
    }

    /// The URL of the web page.
    pub fn html_url(&self) -> (r: Option<&String>)
        ensures
            r == match self {
                PullRequestOrIssue::PullRequest(pr) => opt_ref(&pr.html_url),
                PullRequestOrIssue::Issue(issue) => Some(&issue.html_url),
            },
    {
        match self {
            PullRequestOrIssue::PullRequest(pr) => pr.html_url.as_ref(),
            PullRequestOrIssue::Issue(issue) => Some(&issue.html_url),
        }
    }

    /// The number within the repository.
    pub fn number(&self) -> (r: u64)
        ensures
            r == match self {
                PullRequestOrIssue::PullRequest(pr) => pr.number,
                PullRequestOrIssue::Issue(issue) => issue.number,
            },
    {
        match self {
            PullRequestOrIssue::PullRequest(pr) => pr.number,
            PullRequestOrIssue::Issue(issue) => issue.number,
        }
    }

    /// Whether the item is open or closed.
    pub fn state(&self) -> (r: Option<IssueState>)
        ensures
            r == match self {
                PullRequestOrIssue::PullRequest(pr) => pr.state,
                PullRequestOrIssue::Issue(issue) => Some(issue.state),
            },
    {
        match self {
            PullRequestOrIssue::PullRequest(pr) => pr.state,
            PullRequestOrIssue::Issue(issue) => Some(issue.state),
        }
    }

    /// The body as written.
    pub fn body(&self) -> (r: Option<&String>)
        ensures
            r == match self {
                PullRequestOrIssue::PullRequest(pr) => opt_ref(&pr.body),
                PullRequestOrIssue::Issue(issue) => opt_ref(&issue.body),
            },
    {
        match self {
            PullRequestOrIssue::PullRequest(pr) => pr.body.as_ref(),
            PullRequestOrIssue::Issue(issue) => issue.body.as_ref(),
        }
    }

    /// The body as plain text.
    pub fn body_text(&self) -> (r: Option<&String>)
        ensures
            r == match self {
                PullRequestOrIssue::PullRequest(pr) => opt_ref(&pr.body_text),
                PullRequestOrIssue::Issue(issue) => opt_ref(&issue.body_text),
            },
    {
        match self {
            PullRequestOrIssue::PullRequest(pr) => pr.body_text.as_ref(),
            PullRequestOrIssue::Issue(issue) => issue.body_text.as_ref(),
        }
    }

    /// The body as HTML.
    pub fn body_html(&self) -> (r: Option<&String>)
        ensures
            r == match self {
                PullRequestOrIssue::PullRequest(pr) => opt_ref(&pr.body_html),
                PullRequestOrIssue::Issue(issue) => opt_ref(&issue.body_html),
            },
    {
        match self {
            PullRequestOrIssue::PullRequest(pr) => pr.body_html.as_ref(),
            PullRequestOrIssue::Issue(issue) => issue.body_html.as_ref(),
        }
    }

    /// The assigned accounts.
    pub fn assignees(&self) -> (r: Option<&Vec<Author>>)
        ensures
            r == match self {
                PullRequestOrIssue::PullRequest(pr) => opt_ref(&pr.assignees),
                PullRequestOrIssue::Issue(issue) => Some(&issue.assignees),
            },
    {
        match self {
            PullRequestOrIssue::PullRequest(pr) => pr.assignees.as_ref(),
            PullRequestOrIssue::Issue(issue) => Some(&issue.assignees),
        }
    }

    /// Whether the conversation is locked.
    pub fn locked(&self) -> (r: bool)
        ensures
            r == match self {
                PullRequestOrIssue::PullRequest(pr) => pr.locked,
                PullRequestOrIssue::Issue(issue) => issue.locked,
            },
    {
        match self {
            PullRequestOrIssue::PullRequest(pr) => pr.locked,
            PullRequestOrIssue::Issue(issue) => issue.locked,
        }
    }

    /// When the item was opened.
    pub fn created_at(&self) -> (r: Option<Timestamp>)
        ensures
            r == match self {
                PullRequestOrIssue::PullRequest(pr) => pr.created_at,
                PullRequestOrIssue::Issue(issue) => Some(issue.created_at),
            },
    {
        match self {
            PullRequestOrIssue::PullRequest(pr) => pr.created_at,
            PullRequestOrIssue::Issue(issue) => Some(issue.created_at),
        }
    }

    /// When the item last changed.
    pub fn updated_at(&self) -> (r: Option<Timestamp>)
        ensures
            r == match self {
                PullRequestOrIssue::PullRequest(pr) => pr.updated_at,
                PullRequestOrIssue::Issue(issue) => Some(issue.updated_at),
            },
    {
        match self {
            PullRequestOrIssue::PullRequest(pr) => pr.updated_at,
            PullRequestOrIssue::Issue(issue) => Some(issue.updated_at),
        }
    }

    /// When the item was closed.
    pub fn closed_at(&self) -> (r: Option<Timestamp>)
        ensures
            r == match self {
                PullRequestOrIssue::PullRequest(pr) => pr.closed_at,
                PullRequestOrIssue::Issue(issue) => issue.closed_at,
            },
    {
        match self {
            PullRequestOrIssue::PullRequest(pr) => pr.closed_at,
            PullRequestOrIssue::Issue(issue) => issue.closed_at,
        }
    }

    /// The milestone.
    pub fn milestone(&self) -> (r: Option<&Milestone>)
        ensures
            r == match self {
                PullRequestOrIssue::PullRequest(pr) => opt_ref(&pr.milestone),
                PullRequestOrIssue::Issue(issue) => opt_ref(&issue.milestone),
            },
    {
        match self {
            PullRequestOrIssue::PullRequest(pr) => pr.milestone.as_ref(),
            PullRequestOrIssue::Issue(issue) => issue.milestone.as_ref(),
        }
    }
}

} // verus!
