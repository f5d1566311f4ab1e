use devflow::build_locator::{BuildLocator, BuildTypeFilter};
use devflow::build_type_locator::BuildTypeLocator;
use devflow::normalize::{normalize, normalize_field_names};

#[test]
fn empty_build_type_locator_is_empty() {
    assert_eq!(BuildTypeLocator::new().to_string(), "");
}

#[test]
fn empty_build_locator_has_default_count() {
    assert_eq!(BuildLocator::new().to_string(), "count:5");
}

#[test]
fn branch_any_is_default_branch_filter() {
    let l = BuildLocator::new().branch(Some("any".to_owned()));
    assert_eq!(l.to_string(), "count:5,branch:default:any");
}

#[test]
fn branch_named_is_written_as_is() {
    let l = BuildLocator::new().branch(Some("feature-x".to_owned()));
    assert_eq!(l.to_string(), "count:5,branch:feature-x");
}

#[test]
fn count_default_and_explicit() {
    assert!(BuildLocator::new().to_string().contains("count:5"));
    let l = BuildLocator::new().count(Some(10));
    assert!(l.to_string().contains("count:10"));
    assert_eq!(BuildLocator::new().count(Some(255)).to_string(), "count:255");
    assert_eq!(BuildLocator::new().count(Some(0)).to_string(), "count:0");
}

#[test]
fn nested_build_type_from_candidates() {
    let ids = vec!["A".to_owned(), "B".to_owned()];
    let l = BuildLocator::new()
        .build_type(Some(BuildTypeFilter::Locator(BuildTypeLocator::from_ids(&ids))))
        .count(None);
    let text = l.to_string();
    assert!(text.contains("buildType:(item:(id:A),item:(id:B))"));
    assert_eq!(text, "buildType:(item:(id:A),item:(id:B)),count:5");
}

#[test]
fn all_clauses_in_order() {
    let l = BuildLocator::new()
        .default_filter(Some(false))
        .personal(Some(true))
        .id(Some(-42))
        .user(Some("current".to_owned()))
        .build_type(Some(BuildTypeFilter::Id("Prj_Build".to_owned())))
        .count(Some(3))
        .branch(Some("main".to_owned()));
    assert_eq!(
        l.to_string(),
        "defaultFilter:false,personal:true,id:-42,user:current,buildType:Prj_Build,count:3,branch:main"
    );
}

#[test]
fn extreme_ids() {
    assert_eq!(BuildLocator::new().id(Some(i32::MIN)).to_string(), "id:-2147483648,count:5");
    assert_eq!(BuildLocator::new().id(Some(i32::MAX)).to_string(), "id:2147483647,count:5");
}

#[test]
fn preset_build_type_locators() {
    assert_eq!(BuildTypeLocator::only_builds().to_string(), "type:regular,name:Build");
    assert_eq!(BuildTypeLocator::only_deploys().to_string(), "type:deployment");
    assert_eq!(BuildTypeLocator::only_deploys().to_nested(), "(type:deployment)");
    let l = BuildLocator::new().build_type(Some(BuildTypeFilter::Locator(BuildTypeLocator::only_builds())));
    assert_eq!(l.to_string(), "buildType:(type:regular,name:Build),count:5");
}

#[test]
fn nested_locator_of_nested_locators() {
    let mut outer = BuildTypeLocator::new();
    outer.id = Some("X".to_owned());
    outer.items.push(BuildTypeLocator::only_deploys());
    outer.items.push(BuildTypeLocator::from_ids(&vec!["C".to_owned()]));
    assert_eq!(outer.to_string(), "id:X,item:(type:deployment),item:(item:(id:C))");
}

#[test]
fn field_names_are_normalized() {
    assert_eq!(normalize_field_names(&["id", "r#type", "webUrl"]), "id,type,webUrl");
    assert_eq!(normalize_field_names(&[]), "");
    assert_eq!(normalize_field_names(&["rr##x"]), "r#x");
}

#[test]
fn names_from_paths() {
    assert_eq!(normalize("git@github.com:username/project.git"), Some("project".to_owned()));
    assert_eq!(normalize("refs/heads/main"), Some("main".to_owned()));
    assert_eq!(normalize(""), None);
}
