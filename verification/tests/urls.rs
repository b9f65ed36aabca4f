use omada_backup::omada_client::OmadaClient;
use omada_backup::urls::join_url;

#[test]
fn join_with_trailing_slash() {
    assert_eq!(
        join_url("https://omada.example.com:8043/", "api/info"),
        "https://omada.example.com:8043/api/info"
    );
}

#[test]
fn join_without_trailing_slash() {
    assert_eq!(
        join_url("https://omada.example.com:8043", "api/info"),
        "https://omada.example.com:8043/api/info"
    );
}

#[test]
fn join_preserves_subpath_prefix() {
    assert_eq!(
        join_url("https://front.example.com/omada/", "abc123/api/v2/login"),
        "https://front.example.com/omada/abc123/api/v2/login"
    );
    assert_eq!(
        join_url("https://front.example.com/omada", "abc123/api/v2/login"),
        "https://front.example.com/omada/abc123/api/v2/login"
    );
}

#[test]
fn join_empty_base() {
    assert_eq!(join_url("", "x"), "/x");
}

#[test]
fn controller_url_needs_discovery_first() {
    let client = OmadaClient::new("https://omada.example.com:8043/", false).unwrap();
    assert!(client.construct_controller_url("api/v2/login").is_none());
}

#[test]
fn controller_url_has_single_separators() {
    let mut client = OmadaClient::new("https://omada.example.com:8043/", false).unwrap();
    client.controller_id = Some("abc123".to_string());
    assert_eq!(
        client.construct_controller_url("api/v2/login").unwrap(),
        "https://omada.example.com:8043/abc123/api/v2/login"
    );
}

#[test]
fn base_url_is_normalized_by_parsing() {
    let client = OmadaClient::new("https://omada.example.com:8043", false).unwrap();
    assert_eq!(client.base_url, "https://omada.example.com:8043/");
}
