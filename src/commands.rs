//! Decisions the commands make before they call a service.
use vstd::prelude::*;

use crate::issue::{parsed_key, BranchNameWithIssueId, IssueShort};
use crate::text::decimal;

verus! {

/// The filters of the build list after its shortcut flags: `any` lifts the
/// branch and build-type filters, `master` picks the `master` branch, `my`
/// picks the builds of the token's owner.
pub fn list_builds_filters(
    any: bool,
    master: bool,
    my: bool,
    branch_name: Option<String>,
    build_type: Option<String>,
    author: Option<String>,
) -> (r: (Option<String>, Option<String>, Option<String>))
    ensures
        any ==> (r.0 matches Some(b) && b@ == "any"@) && (r.1 matches Some(t) && t@ == "any"@),
        !any && master ==> (r.0 matches Some(b) && b@ == "master"@) && r.1 == build_type,
        !any && !master ==> r.0 == branch_name && r.1 == build_type,
        my ==> (r.2 matches Some(a) && a@ == "current"@),
        !my ==> r.2 == author,
{
    let (b, t) = if any {
        let mut b = String::new();
        b.append("any");
        let mut t = String::new();
        t.append("any");
        (Some(b), Some(t))
    } else if master {
        let mut b = String::new();
        b.append("master");
        (Some(b), build_type)
    } else {
        (branch_name, build_type)
    };
    let a = if my {
        let mut a = String::new();
        a.append("current");
        Some(a)
    } else {
        author
    };
    (b, t, a)
}

/// The issue key that a branch name carries, as in `PRJ-12`, if any.
pub fn issue_key_of_branch(local_name: &str) -> (r: Option<String>)
    ensures
        r matches Some(k) ==> (parsed_key(local_name@) matches Ok(p) && k@ == p.0 + seq!['-'] + decimal(p.1)),
        r is None ==> parsed_key(local_name@) is Err,
{
    match BranchNameWithIssueId::parse(local_name) {
        Ok(b) => Some(b.short_name()),
        Err(_) => None,
    }
}

/// The name under which a branch is pushed: its issue key when it carries
/// one, else its own name.
pub fn remote_branch_name(local_name: &str) -> (r: String)
    ensures
        parsed_key(local_name@) matches Ok(p) ==> r@ == p.0 + seq!['-'] + decimal(p.1),
        parsed_key(local_name@) is Err ==> r@ == local_name@,
{
    match issue_key_of_branch(local_name) {
        Some(k) => k,
        None => {
            let mut r = String::new();
            r.append(local_name);
            r
        },
    }
}

/// Whether one of the sub-tasks is already a back-end sub-task.
pub fn has_backend_sub_issue(issues: &Vec<IssueShort>) -> (r: bool)
    ensures
        r == exists|k: int| 0 <= k < issues@.len() && "[BE]"@.is_prefix_of(#[trigger] issues@[k].summary@),
{
    let mut i: usize = 0;
    while i < issues.len()
        invariant
            i <= issues@.len(),
            forall|k: int| 0 <= k < i ==> !"[BE]"@.is_prefix_of(#[trigger] issues@[k].summary@),
        decreases issues@.len() - i,
    {
        if issues[i].is_backend_sub_issue() {
            return true;
        }
        i = i + 1;
    }
    false
}

} // verus!
