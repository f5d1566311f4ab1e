use devflow::issue::{
    normalize_str_as_branch_name, BaseIssue, BranchNameWithIssueId, IssueKeyError, IssueShort,
    YoutrackFields,
};

#[test]
fn normalize_str_as_branch_name_test() {
    let str = "[[TEST]  (%)Name  of SOME task!!!]";

    let result = normalize_str_as_branch_name(&str);

    assert_eq!(result, "TEST-Name-of-SOME-task");
}

#[test]
fn branch_name_with_issue_id_test() {
    let result = "TEST-123-some-name".parse::<BranchNameWithIssueId>();

    assert!(result.is_ok());
    let result = result.unwrap();
    assert_eq!(result.project_id, "TEST");
    assert_eq!(result.number, 123);
    assert_eq!(result.slug, Some("some-name".to_owned()));
}

#[test]
fn branch_slug_of_empty_and_punctuation_only() {
    assert_eq!(normalize_str_as_branch_name(""), "");
    assert_eq!(normalize_str_as_branch_name("!!! ???"), "");
    assert_eq!(normalize_str_as_branch_name("a"), "a");
}

#[test]
fn branch_slug_treats_non_ascii_as_separator() {
    assert_eq!(normalize_str_as_branch_name("café au lait"), "caf-au-lait");
}

#[test]
fn issue_key_without_tail() {
    let b = BranchNameWithIssueId::parse("PRJ-7").unwrap();
    assert_eq!(b.project_id, "PRJ");
    assert_eq!(b.number, 7);
    assert_eq!(b.slug, None);
    assert_eq!(b.short_name(), "PRJ-7");
}

#[test]
fn issue_key_inside_other_text() {
    let b = BranchNameWithIssueId::parse("feature/ab-CD-0042-x_y").unwrap();
    assert_eq!(b.project_id, "CD");
    assert_eq!(b.number, 42);
    assert_eq!(b.slug, Some("x_y".to_owned()));
    assert_eq!(b.short_name(), "CD-42");
}

#[test]
fn issue_key_dash_without_tail_characters() {
    let b = BranchNameWithIssueId::parse("AB-12-").unwrap();
    assert_eq!(b.slug, None);
}

#[test]
fn issue_key_missing() {
    assert_eq!(
        BranchNameWithIssueId::parse("main").err(),
        Some(IssueKeyError::NotFound)
    );
    assert_eq!(
        BranchNameWithIssueId::parse("AB-x12").err(),
        Some(IssueKeyError::NotFound)
    );
}

#[test]
fn issue_key_number_too_large() {
    assert_eq!(
        BranchNameWithIssueId::parse("AB-4294967296").err(),
        Some(IssueKeyError::NumberTooLarge)
    );
    assert_eq!(
        BranchNameWithIssueId::parse("AB-4294967295").unwrap().number,
        4294967295
    );
}

fn issue(summary: &str) -> IssueShort {
    IssueShort {
        id: "2-15".to_owned(),
        id_readable: "PRJ-15".to_owned(),
        summary: summary.to_owned(),
    }
}

#[test]
fn local_branch_name_appends_summary() {
    assert_eq!(issue("Fix: the login!").as_local_branch_name(), "PRJ-15-Fix-the-login");
}

#[test]
fn local_branch_name_without_usable_summary() {
    assert_eq!(issue("???").as_local_branch_name(), "PRJ-15");
}

#[test]
fn remote_branch_name_and_accessors() {
    let i = issue("[BE] Endpoint");
    assert_eq!(i.as_remote_branch_name(), "PRJ-15");
    assert_eq!(i.id(), "2-15");
    assert_eq!(i.id_readable(), "PRJ-15");
    assert_eq!(i.summary(), "[BE] Endpoint");
}

#[test]
fn backend_sub_issue_by_prefix() {
    assert!(issue("[BE] Endpoint").is_backend_sub_issue());
    assert!(!issue("Endpoint [BE]").is_backend_sub_issue());
    assert!(!issue("[BE").is_backend_sub_issue());
}

#[test]
fn issue_short_fields() {
    assert_eq!(IssueShort::fields(), "id,idReadable,summary");
}

#[test]
fn subtask_summary_is_backend() {
    let s = devflow::issue::subtask_summary("Login page");
    assert_eq!(s, "[BE] Login page");
    assert!(issue(&s).is_backend_sub_issue());
}
