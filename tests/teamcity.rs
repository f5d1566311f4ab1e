use devflow::build_locator::BuildTypeFilter;
use devflow::teamcity::{
    build_type_filter, builds_locator, check_last_build, deploy_locator, parse_build_id,
    to_ascii_lowercase, ArgBuildType, BuildStateError, Config, SettingsError, TeamcitySettings,
};

#[test]
fn build_type_arguments() {
    assert!(matches!(ArgBuildType::from_arg("Build"), ArgBuildType::Build));
    assert!(matches!(ArgBuildType::from_arg("b"), ArgBuildType::Build));
    assert!(matches!(ArgBuildType::from_arg("DEPLOY"), ArgBuildType::Deploy));
    assert!(matches!(ArgBuildType::from_arg("d"), ArgBuildType::Deploy));
    assert!(matches!(ArgBuildType::from_arg("Any"), ArgBuildType::Any));
    match ArgBuildType::from_arg("Prj_Web") {
        ArgBuildType::Custom(c) => assert_eq!(c, "prj_web"),
        _ => panic!("expected a query"),
    }
    assert_eq!(ArgBuildType::from_arg("B").to_arg_string(), "build");
    assert_eq!(ArgBuildType::Custom("x".to_owned()).to_arg_string(), "x");
    assert_eq!(to_ascii_lowercase("AbC-Ä"), "abc-Ä");
}

#[test]
fn build_ids() {
    assert_eq!(parse_build_id("42"), Some(42));
    assert_eq!(parse_build_id("+7"), Some(7));
    assert_eq!(parse_build_id("-2147483648"), Some(i32::MIN));
    assert_eq!(parse_build_id("2147483647"), Some(i32::MAX));
    assert_eq!(parse_build_id("2147483648"), None);
    assert_eq!(parse_build_id("-2147483649"), None);
    assert_eq!(parse_build_id(""), None);
    assert_eq!(parse_build_id("-"), None);
    assert_eq!(parse_build_id("12a"), None);
    assert_eq!(parse_build_id("master"), None);
}

#[test]
fn last_build_states() {
    assert_eq!(check_last_build(3, "finished", Some("FAILURE")), Err(BuildStateError::Failed(3)));
    assert_eq!(check_last_build(3, "queued", Some("FAILURE")), Err(BuildStateError::Failed(3)));
    assert_eq!(check_last_build(4, "queued", None), Err(BuildStateError::Queued(4)));
    assert_eq!(check_last_build(5, "finished", Some("SUCCESS")), Ok(()));
    assert_eq!(check_last_build(5, "running", None), Ok(()));
}

#[test]
fn deploy_locators() {
    assert_eq!(
        deploy_locator(Some(77), Some("Bt".to_owned()), None, false).to_string(),
        "id:77,count:5"
    );
    assert_eq!(
        deploy_locator(None, Some("Bt".to_owned()), Some("main".to_owned()), false).to_string(),
        "user:current,buildType:Bt,count:5,branch:main"
    );
    assert_eq!(
        deploy_locator(None, None, Some("main".to_owned()), true).to_string(),
        "count:5,branch:main"
    );
}

#[test]
fn builds_locators() {
    let f = build_type_filter(ArgBuildType::Build, None);
    assert_eq!(
        builds_locator("main".to_owned(), f, Some("me".to_owned()), Some(10)).to_string(),
        "defaultFilter:false,personal:false,user:me,buildType:(type:regular,name:Build),count:10,branch:main"
    );
    let f = build_type_filter(ArgBuildType::Custom("q".to_owned()), Some(vec!["A".to_owned(), "B".to_owned()]));
    assert!(matches!(f, Some(BuildTypeFilter::Locator(_))));
    assert_eq!(
        builds_locator("any".to_owned(), f, None, None).to_string(),
        "defaultFilter:false,personal:false,buildType:(item:(id:A),item:(id:B)),count:5,branch:default:any"
    );
    assert!(build_type_filter(ArgBuildType::Any, None).is_none());
    assert!(build_type_filter(ArgBuildType::Custom("q".to_owned()), None).is_none());
    assert_eq!(
        build_type_filter(ArgBuildType::Deploy, None).unwrap().to_string(),
        "(type:deployment)"
    );
}

#[test]
fn build_type_of_repository() {
    let s = TeamcitySettings {
        client: Config { host: "https://ci".to_owned(), auth_token: "t".to_owned() },
        build_types: vec![
            ("web".to_owned(), "Web_Build".to_owned()),
            ("api".to_owned(), "Api_Build".to_owned()),
        ],
    };
    assert_eq!(s.default_build_type("api"), Ok("Api_Build".to_owned()));
    assert_eq!(s.default_build_type("cli"), Err(SettingsError::NoBuildTypeForRepo));
    assert_eq!(s.client.host(), "https://ci");
    assert_eq!(s.client.auth_token(), "t");
}
