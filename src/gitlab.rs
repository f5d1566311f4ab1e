//! The code-hosting service: projects, merge requests and their paths.
use vstd::prelude::*;

use crate::teamcity::Config;
use crate::text::{decimal, push_decimal};
use crate::youtrack::{concat2, concat3};

verus! {

/// The code-hosting service's settings.
pub struct GitlabConfig {
    pub client: Config,
}

/// A project of the code-hosting service.
pub struct Project {
    pub id: u32,
    pub name: String,
    pub name_with_namespace: String,
}

/// Which merge requests to list.
#[derive(Debug, PartialEq, Eq, Structural, Clone, Copy)]
pub enum State {
    All,
    Opened,
}

impl State {
    /// The state as the service's query writes it.
    pub fn as_query(&self) -> (r: String)
        ensures
            *self == State::All ==> r@ == "all"@,
            *self == State::Opened ==> r@ == "opened"@,
    {
        let mut r = String::new();
        match self {
            State::All => r.append("all"),
            State::Opened => r.append("opened"),
        }
        r
    }
}

/// The payload that opens a merge request.
pub struct CreatePullRequestBody {
    pub source_branch: String,
    pub target_branch: String,
    pub title: String,
    pub squash_on_merge: bool,
    pub remove_source_branch: bool,
}

/// Why a merge request cannot be opened for a branch.
#[derive(Debug, PartialEq, Eq, Structural)]
pub enum PullRequestError {
    /// The branch has no upstream branch: it was never pushed.
    NoUpstream,
    /// The branch's head commit has no summary line.
    NoSummary,
}

/// The branch that merge requests target.
pub open spec fn target_branch() -> Seq<char> {
    "master"@
}

impl CreatePullRequestBody {
    /// The merge request of a pushed branch into `master`, titled with the
    /// summary of its head commit, squashed and with the source branch
    /// removed on merge.
    pub fn for_branch(upstream_name: Option<String>, summary: Option<String>) -> (r: Result<Self, PullRequestError>)
        ensures
            upstream_name is None ==> r == Err::<Self, PullRequestError>(PullRequestError::NoUpstream),
            upstream_name is Some && summary is None ==> r == Err::<Self, PullRequestError>(PullRequestError::NoSummary),
            upstream_name is Some && summary is Some ==> (r matches Ok(b)
                && b.source_branch == upstream_name.unwrap()
                && b.target_branch@ == target_branch()
                && b.title == summary.unwrap()
                && b.squash_on_merge
                && b.remove_source_branch),
    {
        match upstream_name {
            None => Err(PullRequestError::NoUpstream),
            Some(source_branch) => match summary {
                None => Err(PullRequestError::NoSummary),
                Some(title) => {
                    let mut target_branch = String::new();
                    target_branch.append("master");
                    Ok(CreatePullRequestBody {
                        source_branch,
                        target_branch,
                        title,
                        squash_on_merge: true,
                        remove_source_branch: true,
                    })
                },
            },
        }
    }
}

/// The path that searches projects by name.
pub fn projects_search_path(name: &str) -> (r: String)
    ensures
        r@ == "/api/v4/projects?search="@ + name@,
{
    concat2("/api/v4/projects?search=", name)
}

/// The path that lists the merge requests of a source branch.
pub fn merge_requests_path(branch: &str, state: State) -> (r: String)
    ensures
        state == State::All ==> r@ == "/api/v4/merge_requests?source_branch="@ + branch@ + "&state="@ + "all"@,
        state == State::Opened ==> r@ == "/api/v4/merge_requests?source_branch="@ + branch@ + "&state="@ + "opened"@,
{
    let s = state.as_query();
    let mut r = concat3("/api/v4/merge_requests?source_branch=", branch, "&state=");
    r.append(s.as_str());
    r
}

/// The path that opens a merge request in a project.
pub fn create_merge_request_path(project_id: u32) -> (r: String)
    ensures
        r@ == "/api/v4/projects/"@ + decimal(project_id as nat) + "/merge_requests"@,
{
    let mut r = String::new();
    r.append("/api/v4/projects/");
    push_decimal(&mut r, project_id as u64);
    r.append("/merge_requests");
    r
}

} // verus!
