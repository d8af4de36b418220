use openapi_insert::document::Method;
use openapi_insert::url::{munge_url, parse_method, target_is_url};

#[test]
fn test_munge_url() {
    let servers = vec!["http://localhost:5000/v1/api".to_string()];
    assert_eq!(
        munge_url("/v1/api/iserver/account/{}/summary", &servers),
        "/iserver/account/{}/summary"
    );
    assert_eq!(
        munge_url(":5000/v1/api/iserver/account/{}/summary", &servers),
        "/iserver/account/{}/summary"
    );
    assert_eq!(
        munge_url("/iserver/account/{}/summary", &servers),
        "/iserver/account/{}/summary"
    );
}

#[test]
fn munge_url_without_servers_keeps_url() {
    let servers: Vec<String> = vec![];
    assert_eq!(munge_url("/v1/api/things", &servers), "/v1/api/things");
}

#[test]
fn munge_url_skips_server_without_path() {
    let servers = vec!["http://localhost".to_string(), "http://localhost:5000/v1".to_string()];
    assert_eq!(munge_url("/v1/things", &servers), "/things");
}

#[test]
fn parse_method_accepts_the_four_methods() {
    assert_eq!(parse_method("get"), Some(Method::Get));
    assert_eq!(parse_method("post"), Some(Method::Post));
    assert_eq!(parse_method("put"), Some(Method::Put));
    assert_eq!(parse_method("delete"), Some(Method::Delete));
}

#[test]
fn parse_method_rejects_anything_else() {
    assert_eq!(parse_method("patch"), None);
    assert_eq!(parse_method("GET"), None);
    assert_eq!(parse_method(""), None);
}

#[test]
fn target_is_url_looks_at_the_first_character() {
    assert!(target_is_url("/widgets"));
    assert!(target_is_url(":5000/widgets"));
    assert!(!target_is_url("Widget"));
    assert!(!target_is_url(""));
}

#[test]
fn munge_url_strips_base_path_repeatedly() {
    let servers = vec!["http://localhost:5000/v1".to_string()];
    assert_eq!(munge_url("/v1/v1/things", &servers), "/things");
}
