//! The state of the running gateway and the requests it serves.

use crate::helpers::{text_view, HeaderMap};
use crate::project::proj::{Project, ProjectView};
use vstd::prelude::*;

verus! {

/// The state of the running gateway: its tenants.
#[derive(Debug, Clone, PartialEq, Eq)]
pub struct App {
    pub projects: Vec<Project>,
}

impl View for App {
    type V = Seq<ProjectView>;

    open spec fn view(&self) -> Seq<ProjectView> {
        Seq::new(self.projects@.len(), |i: int| self.projects@[i]@)
    }
}

/// The API tokens of a list of tenants.
pub open spec fn tokens_of(projects: Seq<ProjectView>) -> Seq<Seq<char>> {
    Seq::new(projects.len(), |i: int| projects[i].api_token)
}

/// Whether tenant `i` is the first with the given API token.
pub open spec fn is_first_with_token(tokens: Seq<Seq<char>>, token: Seq<char>, i: int) -> bool {
    &&& 0 <= i < tokens.len()
    &&& tokens[i] == token
    &&& forall|j: int| 0 <= j < i ==> #[trigger] tokens[j] != token
}

/// Whether no tenant has the given API token.
pub open spec fn no_tenant_has(tokens: Seq<Seq<char>>, token: Seq<char>) -> bool {
    forall|j: int| 0 <= j < tokens.len() ==> #[trigger] tokens[j] != token
}

impl App {
    /// Finds the tenant with the given API token. Tokens are compared
    /// exactly.
    pub fn find_project(&self, token: &str) -> (r: Option<usize>)
        ensures
            match r {
                Some(i) => is_first_with_token(tokens_of(self@), token@, i as int),
                None => no_tenant_has(tokens_of(self@), token@),
            },
    {
        let mut i: usize = 0;
        while i < self.projects.len()
            invariant
                i <= self.projects.len(),
                forall|j: int| 0 <= j < i ==> #[trigger] tokens_of(self@)[j] != token@,
            decreases self.projects.len() - i,
        {
            if self.projects[i].check_token(token) {
                return Some(i);
            }
            i += 1;
        }
        None
    }
}

/// The query of an upload request. Every member is optional.
#[derive(Debug, Clone, PartialEq, Eq)]
pub struct UploadQuery {
    pub filename: Option<String>,
    pub slack_send: Option<bool>,
    pub slack_text_prefix: Option<String>,
}

/// The mathematical content of an [`UploadQuery`].
pub ghost struct UploadQueryView {
    pub filename: Option<Seq<char>>,
    pub slack_send: Option<bool>,
    pub slack_text_prefix: Option<Seq<char>>,
}

impl View for UploadQuery {
    type V = UploadQueryView;

    open spec fn view(&self) -> UploadQueryView {
        UploadQueryView {
            filename: text_view(self.filename),
            slack_send: self.slack_send,
            slack_text_prefix: text_view(self.slack_text_prefix),
        }
    }
}

/// What the query string of a request turned out to be.
#[derive(Debug, Clone, PartialEq, Eq)]
pub enum QueryInput {
    /// The address has no query.
    Absent,
    /// The query in the form-urlencoded grammar, with unknown keys ignored.
    Parsed(UploadQuery),
    /// The query does not follow the grammar.
    Malformed,
}

/// The mathematical content of a [`QueryInput`].
pub ghost enum QueryView {
    Absent,
    Parsed(UploadQueryView),
    Malformed,
}

impl View for QueryInput {
    type V = QueryView;

    open spec fn view(&self) -> QueryView {
        match *self {
            QueryInput::Absent => QueryView::Absent,
            QueryInput::Parsed(q) => QueryView::Parsed(q@),
            QueryInput::Malformed => QueryView::Malformed,
        }
    }
}

/// A request without its body.
#[derive(Debug, Clone, PartialEq, Eq)]
pub struct Request {
    /// The method in upper case, as it stands in the request line.
    pub method: String,
    pub path: String,
    pub query: QueryInput,
    pub headers: HeaderMap,
}

/// The mathematical content of a [`Request`].
pub ghost struct RequestView {
    pub method: Seq<char>,
    pub path: Seq<char>,
    pub query: QueryView,
    pub headers: Seq<(Seq<char>, Seq<u8>)>,
}

impl View for Request {
    type V = RequestView;

    open spec fn view(&self) -> RequestView {
        RequestView {
            method: self.method@,
            path: self.path@,
            query: self.query@,
            headers: self.headers@,
        }
    }
}

} // verus!
