//! The issue tracker's resources and the request paths of its operations.
use vstd::prelude::*;

use crate::issue::{IssueShort, YoutrackFields};
use crate::normalize::{field_list, normalize_field_names};
use crate::teamcity::Config;

verus! {

/// The issue tracker's settings.
pub struct YoutrackConfig {
    pub client: Config,
}

/// A project of the issue tracker.
pub struct Project {
    pub id: String,
    pub name: String,
    pub short_name: String,
}

/// A user of the issue tracker.
pub struct User {
    pub id: String,
    pub login: String,
}

/// A tag that can be put on issues.
pub struct Tag {
    pub id: String,
    pub name: String,
}

/// A comment as the tracker returns it.
pub struct IssueComment {
    pub id: String,
    pub text: Option<String>,
}

/// The payload that creates a comment.
pub struct CreateIssueComment {
    pub text: String,
}

/// A kind of link between issues, with its names in both directions.
pub struct IssueLink {
    pub id: String,
    pub name: String,
    pub target_to_source: String,
    pub source_to_target: String,
}

/// A span of spent time, as the tracker writes it (`1h 30m`).
pub struct Duration {
    pub presentation: String,
}

/// The author of a work item.
pub struct Author {
    pub id: String,
}

/// The payload that logs spent time on an issue.
pub struct TimeTracking {
    pub uses_markdown: bool,
    pub text: String,
    pub date: usize,
    pub author: Author,
    pub duration: Duration,
}

/// A logged work item.
pub struct WorkItem {
    pub id: String,
}

impl Project {
    pub open spec fn spec_fields() -> Seq<char> {
        field_list(seq!["id"@, "name"@, "shortName"@])
    }

    /// The `fields=` list of a project.
    pub fn fields() -> (r: String)
        ensures
            r@ == Self::spec_fields(),
    {
        let names: Vec<&str> = vec!["id", "name", "shortName"];
        let r = normalize_field_names(names.as_slice());
        assert(names@.map_values(|f: &str| f@) =~= seq!["id"@, "name"@, "shortName"@]);
        r
    }
}

impl User {
    pub open spec fn spec_fields() -> Seq<char> {
        field_list(seq!["id"@, "login"@])
    }

    /// The `fields=` list of a user.
    pub fn fields() -> (r: String)
        ensures
            r@ == Self::spec_fields(),
    {
        let names: Vec<&str> = vec!["id", "login"];
        let r = normalize_field_names(names.as_slice());
        assert(names@.map_values(|f: &str| f@) =~= seq!["id"@, "login"@]);
        r
    }
}

/// `a`, `b` and `c` written one after another.
pub fn concat3(a: &str, b: &str, c: &str) -> (r: String)
    ensures
        r@ == a@ + b@ + c@,
{
    let mut r = String::new();
    r.append(a);
    r.append(b);
    r.append(c);
    r
}

/// `a` then `b`.
pub fn concat2(a: &str, b: &str) -> (r: String)
    ensures
        r@ == a@ + b@,
{
    let mut r = String::new();
    r.append(a);
    r.append(b);
    r
}

/// The path that reads one issue with the given field list.
pub fn issue_path(id: &str, fields: &str) -> (r: String)
    ensures
        r@ == "/api/issues/"@ + id@ + "?fields="@ + fields@,
{
    let mut r = concat3("/api/issues/", id, "?fields=");
    r.append(fields);
    r
}

/// The path that lists the sub-tasks of an issue with the given field list.
pub fn sub_issues_path(id: &str, fields: &str) -> (r: String)
    ensures
        r@ == "/api/issues/"@ + id@ + "/links/90-3s/issues?fields="@ + fields@,
{
    let mut r = concat3("/api/issues/", id, "/links/90-3s/issues?fields=");
    r.append(fields);
    r
}

/// The path that creates an issue and returns it in short form.
pub fn create_issue_path() -> (r: String)
    ensures
        r@ == "/api/issues?fields="@ + IssueShort::spec_fields(),
{
    let f = IssueShort::fields();
    concat2("/api/issues?fields=", f.as_str())
}

/// The path that links a sub-task under `parent_id`.
pub fn link_issues_path(parent_id: &str) -> (r: String)
    ensures
        r@ == "/api/issues/"@ + parent_id@ + "/links/90-3s/issues?fields="@ + IssueShort::spec_fields(),
{
    let f = IssueShort::fields();
    sub_issues_path(parent_id, f.as_str())
}

/// The path that puts a tag on an issue.
pub fn add_tag_path(issue_id: &str) -> (r: String)
    ensures
        r@ == "/api/issues/"@ + issue_id@ + "/tags?fields=id,name"@,
{
    concat3("/api/issues/", issue_id, "/tags?fields=id,name")
}

/// The path that adds a comment to an issue.
pub fn comments_path(issue_id: &str) -> (r: String)
    ensures
        r@ == "/api/issues/"@ + issue_id@ + "/comments?fields=id,text"@,
{
    concat3("/api/issues/", issue_id, "/comments?fields=id,text")
}

/// The path that logs time on an issue.
pub fn work_items_path(issue_id: &str) -> (r: String)
    ensures
        r@ == "/api/issues/"@ + issue_id@ + "/timeTracking/workItems?fields=id"@,
{
    concat3("/api/issues/", issue_id, "/timeTracking/workItems?fields=id")
}

/// The path that searches tags.
pub fn tags_path(query: &str) -> (r: String)
    ensures
        r@ == "/api/tags?fields=id,name&query="@ + query@,
{
    concat2("/api/tags?fields=id,name&query=", query)
}

/// The path that searches kinds of issue links.
pub fn issue_link_types_path(query: &str) -> (r: String)
    ensures
        r@ == "/api/issueLinkTypes?fields=id,name,sourceToTarget,targetToSource&query="@ + query@,
{
    concat2("/api/issueLinkTypes?fields=id,name,sourceToTarget,targetToSource&query=", query)
}

/// The path that lists projects.
pub fn projects_path() -> (r: String)
    ensures
        r@ == "/api/admin/projects?fields=id,name,shortName"@,
{
    let mut r = String::new();
    r.append("/api/admin/projects?fields=id,name,shortName");
    r
}

/// The path that reads a user; `me` names the token's owner.
pub fn user_path(id: &str) -> (r: String)
    ensures
        r@ == "/api/users/"@ + id@ + "?fields="@ + User::spec_fields(),
{
    let f = User::fields();
    let mut r = concat3("/api/users/", id, "?fields=");
    r.append(f.as_str());
    r
}

/// The payload that creates a comment with the given text.
pub fn comment_body(text: &str) -> (r: CreateIssueComment)
    ensures
        r.text@ == text@,
{
    let mut t = String::new();
    t.append(text);
    CreateIssueComment { text: t }
}

} // verus!
