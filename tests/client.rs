use devflow::http::{check_status, receive, Client, ClientError, Method};
use devflow::teamcity::Config;

fn client() -> Client {
    Client::new(&Config {
        host: "https://ci.example.com".to_owned(),
        auth_token: "tok123".to_owned(),
    })
}

#[test]
fn get_request_carries_bearer_token_and_resolved_url() {
    let q = client().get_request("/app/rest/builds?locator=count:5").unwrap();
    assert_eq!(q.method, Method::Get);
    assert_eq!(q.url, "https://ci.example.com/app/rest/builds?locator=count:5");
    assert!(q
        .headers
        .iter()
        .any(|(k, v)| k == "Authorization" && v == "Bearer tok123"));
    assert!(q.headers.iter().any(|(k, v)| k == "Accept" && v == "application/json"));
    assert!(q.body.is_none());
}

#[test]
fn get_decodes_builds() {
    let q = client().get_request("/app/rest/builds?locator=count:5").unwrap();
    assert!(q.headers.contains(&("Authorization".to_owned(), "Bearer tok123".to_owned())));
    let v = receive(
        200,
        r#"{"build":[{"id":1,"state":"finished","status":"SUCCESS"}]}"#.to_owned(),
    )
    .unwrap();
    let builds = v["build"].as_array().unwrap();
    assert_eq!(builds.len(), 1);
    assert_eq!(builds[0]["id"].as_i64(), Some(1));
}

#[test]
fn not_found_is_a_status_error() {
    let r = receive(404, r#"{"error":"not found"}"#.to_owned());
    match r {
        Err(ClientError::HttpStatus(404, body)) => assert!(body.contains("not found")),
        other => panic!("unexpected {:?}", other),
    }
}

#[test]
fn status_error_even_when_body_is_not_json() {
    assert_eq!(
        receive(500, "oops".to_owned()).err(),
        Some(ClientError::HttpStatus(500, "oops".to_owned()))
    );
}

#[test]
fn success_without_json_is_a_decode_error() {
    assert_eq!(receive(200, "not json".to_owned()).err(), Some(ClientError::Decode));
}

#[test]
fn status_bounds() {
    assert!(check_status(200, String::new()).is_ok());
    assert!(check_status(299, String::new()).is_ok());
    assert!(check_status(300, String::new()).is_err());
    assert!(check_status(199, String::new()).is_err());
}

#[test]
fn post_request_keeps_body() {
    let q = client().post_request("/app/rest/buildQueue", "{}".to_owned()).unwrap();
    assert_eq!(q.method, Method::Post);
    assert_eq!(q.url, "https://ci.example.com/app/rest/buildQueue");
    assert_eq!(q.body.as_deref(), Some("{}"));
    assert_eq!(q.headers.len(), 3);
}

#[test]
fn relative_path_without_slash_and_bad_base() {
    let c = Client::new(&Config {
        host: "https://yt.example.com/youtrack/".to_owned(),
        auth_token: "t".to_owned(),
    });
    assert_eq!(c.get_request("api/issues").unwrap().url, "https://yt.example.com/youtrack/api/issues");
    let bad = Client::new(&Config { host: "not a url".to_owned(), auth_token: "t".to_owned() });
    assert!(matches!(bad.get_request("/x"), Err(ClientError::InvalidUrl)));
}
