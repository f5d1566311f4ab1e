use devflow::build_locator::BuildLocator;
use devflow::commands::{
    has_backend_sub_issue, issue_key_of_branch, list_builds_filters, remote_branch_name,
};
use devflow::gitlab::{
    create_merge_request_path, merge_requests_path, projects_search_path, CreatePullRequestBody,
    PullRequestError, State,
};
use devflow::issue::{IssueCustomField, IssueCustomFields, IssueLong, IssueShort, YoutrackFields};
use devflow::repo::normalize_branch_name;
use devflow::teamcity::{
    build_queue_path, build_types_fields, build_types_path, builds_fields, builds_path,
    deployment_list_path, last_build_path, users_fields, users_path,
};
use devflow::youtrack::{
    add_tag_path, comment_body, comments_path, create_issue_path, issue_link_types_path,
    issue_path, link_issues_path, projects_path, sub_issues_path, tags_path, user_path,
    work_items_path, Project, User,
};

#[test]
fn ci_field_lists() {
    assert_eq!(build_types_fields(), "count,href,nextHref,prevHref,buildType(id,name,webUrl,type)");
    assert_eq!(users_fields(), "count,user(username,name,id)");
    assert_eq!(
        builds_fields(),
        "build(id,buildTypeId,status,state,branchName,webUrl,finishOnAgentDate,triggered(type,date,user(username,name,id)))"
    );
}

#[test]
fn ci_paths() {
    assert_eq!(
        build_types_path(),
        "/app/rest/buildTypes?fields=count,href,nextHref,prevHref,buildType(id,name,webUrl,type)"
    );
    assert_eq!(
        deployment_list_path("Prj_Build"),
        "/app/rest/buildTypes?locator=type:deployment,project(archived:false),snapshotDependency(from:(id:Prj_Build))&fields=count,href,nextHref,prevHref,buildType(id,name,webUrl,type)"
    );
    assert_eq!(users_path(), "/app/rest/users?fields=count,user(username,name,id)");
    let l = BuildLocator::new().id(Some(9));
    assert_eq!(
        last_build_path(&l),
        "/app/rest/builds/id:9,count:5?fields=id,buildTypeId,branchName,number,state,status"
    );
    assert!(builds_path(&l).starts_with("/app/rest/builds?locator=id:9,count:5&fields=build("));
    assert_eq!(build_queue_path(), "/app/rest/buildQueue");
}

#[test]
fn tracker_field_lists() {
    assert_eq!(Project::fields(), "id,name,shortName");
    assert_eq!(User::fields(), "id,login");
    assert_eq!(IssueCustomField::fields(), "id,name,type,value({id,name})");
    assert_eq!(
        IssueLong::fields(),
        "id,idReadable,summary,project(id,name,shortName),reporter(id,login),customFields(id,name,type,value({id,name}))"
    );
}

#[test]
fn tracker_paths() {
    assert_eq!(issue_path("PRJ-1", "id"), "/api/issues/PRJ-1?fields=id");
    assert_eq!(
        sub_issues_path("PRJ-1", "id"),
        "/api/issues/PRJ-1/links/90-3s/issues?fields=id"
    );
    assert_eq!(create_issue_path(), "/api/issues?fields=id,idReadable,summary");
    assert_eq!(
        link_issues_path("2-1"),
        "/api/issues/2-1/links/90-3s/issues?fields=id,idReadable,summary"
    );
    assert_eq!(add_tag_path("2-1"), "/api/issues/2-1/tags?fields=id,name");
    assert_eq!(comments_path("PRJ-1"), "/api/issues/PRJ-1/comments?fields=id,text");
    assert_eq!(
        work_items_path("PRJ-1"),
        "/api/issues/PRJ-1/timeTracking/workItems?fields=id"
    );
    assert_eq!(tags_path("x"), "/api/tags?fields=id,name&query=x");
    assert_eq!(
        issue_link_types_path("q"),
        "/api/issueLinkTypes?fields=id,name,sourceToTarget,targetToSource&query=q"
    );
    assert_eq!(projects_path(), "/api/admin/projects?fields=id,name,shortName");
    assert_eq!(user_path("me"), "/api/users/me?fields=id,login");
    assert_eq!(comment_body("hi").text, "hi");
}

#[test]
fn custom_field_lookup() {
    let f = |name: &str, id: &str| IssueCustomField {
        id: id.to_owned(),
        name: name.to_owned(),
        type_: "SingleEnumIssueCustomField".to_owned(),
        value: serde_json::Value::Null,
    };
    let fields = IssueCustomFields(vec![f("Team", "1"), f("Priority", "2"), f("Team", "3")]);
    assert_eq!(fields.get("Team").unwrap().id, "1");
    assert_eq!(fields.get("Priority").unwrap().id, "2");
    assert!(fields.get("Stage").is_none());
}

#[test]
fn code_hosting_paths_and_bodies() {
    assert_eq!(projects_search_path("web"), "/api/v4/projects?search=web");
    assert_eq!(
        merge_requests_path("PRJ-1", State::All),
        "/api/v4/merge_requests?source_branch=PRJ-1&state=all"
    );
    assert_eq!(
        merge_requests_path("PRJ-1", State::Opened),
        "/api/v4/merge_requests?source_branch=PRJ-1&state=opened"
    );
    assert_eq!(create_merge_request_path(42), "/api/v4/projects/42/merge_requests");
    let b = CreatePullRequestBody::for_branch(Some("PRJ-1".to_owned()), Some("Fix".to_owned())).unwrap();
    assert_eq!(b.source_branch, "PRJ-1");
    assert_eq!(b.target_branch, "master");
    assert_eq!(b.title, "Fix");
    assert!(b.squash_on_merge && b.remove_source_branch);
    assert_eq!(
        CreatePullRequestBody::for_branch(None, Some("Fix".to_owned())).err(),
        Some(PullRequestError::NoUpstream)
    );
    assert_eq!(
        CreatePullRequestBody::for_branch(Some("b".to_owned()), None).err(),
        Some(PullRequestError::NoSummary)
    );
}

#[test]
fn branch_choice() {
    assert_eq!(normalize_branch_name(Some("topic"), Some("origin/x"), "refs/heads/y"), Some("topic".to_owned()));
    assert_eq!(normalize_branch_name(None, Some("refs/remotes/origin/PRJ-1"), "refs/heads/y"), Some("PRJ-1".to_owned()));
    assert_eq!(normalize_branch_name(None, None, "refs/heads/main"), Some("main".to_owned()));
}

#[test]
fn list_filter_flags() {
    let (b, t, a) = list_builds_filters(true, false, true, Some("x".to_owned()), Some("b".to_owned()), Some("bob".to_owned()));
    assert_eq!((b.as_deref(), t.as_deref(), a.as_deref()), (Some("any"), Some("any"), Some("current")));
    let (b, t, a) = list_builds_filters(false, true, false, None, Some("d".to_owned()), Some("bob".to_owned()));
    assert_eq!((b.as_deref(), t.as_deref(), a.as_deref()), (Some("master"), Some("d"), Some("bob")));
    let (b, t, a) = list_builds_filters(false, false, false, Some("f".to_owned()), None, None);
    assert_eq!((b.as_deref(), t.as_deref(), a.as_deref()), (Some("f"), None, None));
}

#[test]
fn branch_issue_keys() {
    assert_eq!(issue_key_of_branch("PRJ-12-fix-login"), Some("PRJ-12".to_owned()));
    assert_eq!(issue_key_of_branch("main"), None);
    assert_eq!(remote_branch_name("PRJ-012-x"), "PRJ-12");
    assert_eq!(remote_branch_name("hotfix"), "hotfix");
}

#[test]
fn backend_sub_issue_presence() {
    let i = |s: &str| IssueShort { id: "1".to_owned(), id_readable: "P-1".to_owned(), summary: s.to_owned() };
    assert!(!has_backend_sub_issue(&vec![]));
    assert!(!has_backend_sub_issue(&vec![i("UI"), i("be")]));
    assert!(has_backend_sub_issue(&vec![i("UI"), i("[BE] API")]));
}
