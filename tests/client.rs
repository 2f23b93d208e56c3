use solrust::client::{
    commit_body, core_url, rollback_body, root_from_parts, root_url, truncate_body, RootUrlError,
};

#[test]
fn test_create_solr_client() {
    let url = root_url("http://localhost", 8983).unwrap();
    assert_eq!(url, "http://localhost:8983");
}

#[test]
fn test_create_solr_client_with_redundant_url() {
    let url = root_url("http://localhost:8983/solr", 8983).unwrap();
    assert_eq!(url, "http://localhost:8983");
}

#[test]
fn test_create_solr_client_with_invalid_url() {
    let url = root_url("hogehoge", 3000);
    assert!(url.is_err());
}

#[test]
fn invalid_url_is_a_parse_error() {
    assert!(matches!(root_url("hogehoge", 3000), Err(RootUrlError::UrlParseError(_))));
}

#[test]
fn url_without_host_is_refused() {
    assert!(matches!(root_url("mailto:someone@example.com", 80), Err(RootUrlError::InvalidHostError)));
    assert!(matches!(root_from_parts("mailto", None, 80), Err(RootUrlError::InvalidHostError)));
}

#[test]
fn root_keeps_scheme_and_replaces_port() {
    assert_eq!(root_url("https://search.example.com:1234/a?b=c", 0).unwrap(), "https://search.example.com:0");
    assert_eq!(
        root_from_parts("http", Some("h".to_string()), 4294967295).ok().unwrap(),
        "http://h:4294967295"
    );
}

#[test]
fn core_endpoint() {
    assert_eq!(core_url("http://localhost:8983", "example"), "http://localhost:8983/solr/example");
}

#[test]
fn update_bodies() {
    assert_eq!(commit_body(false), r#"{"commit": {}}"#);
    assert_eq!(commit_body(true), r#"{"optimize": {}}"#);
    assert_eq!(rollback_body(), r#"{"rollback": {}}"#);
    assert_eq!(truncate_body(), r#"{"delete":{"query": "*:*"}}"#);
}
