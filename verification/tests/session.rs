use omada_backup::api_models::{ApiInfo, ApiResult, LoginResult};
use omada_backup::error::OmadaError;
use omada_backup::helpers::select_backup_file_name;
use omada_backup::omada_client::{
    check_download_status, check_prepare, BackupRetention, HttpMethod, OmadaClient,
};

fn discovery_envelope(error_code: i32, msg: &str, omadac_id: Option<&str>) -> ApiResult<ApiInfo> {
    ApiResult {
        error_code,
        msg: msg.to_string(),
        result: omadac_id.map(|id| ApiInfo {
            controller_ver: Some("5.0.30".to_string()),
            api_ver: Some("3".to_string()),
            configured: Some(true),
            _type: Some(0),
            support_app: Some(true),
            controller_id: Some(id.to_string()),
        }),
    }
}

fn login_envelope(error_code: i32, msg: &str, token: Option<&str>) -> ApiResult<LoginResult> {
    ApiResult {
        error_code,
        msg: msg.to_string(),
        result: token.map(|t| LoginResult { role_type: 0, token: t.to_string() }),
    }
}

#[test]
fn happy_path_builds_the_exact_wire_sequence() {
    let mut client = OmadaClient::new("https://omada.example.com:8043/", false).unwrap();
    assert!(!client.is_logged_in());

    let discovery = client.discovery_request();
    assert!(matches!(discovery.method, HttpMethod::Get));
    assert_eq!(discovery.url, "https://omada.example.com:8043/api/info");
    assert!(discovery.csrf_token.is_none());
    assert!(discovery.json_body.is_none());

    client.apply_discovery(discovery_envelope(0, "Success", Some("abc123"))).unwrap();
    assert_eq!(client.controller_id.as_deref(), Some("abc123"));
    assert!(!client.is_logged_in());

    let login = client.login_request("admin", "pw").unwrap();
    assert!(matches!(login.method, HttpMethod::Post));
    assert_eq!(login.url, "https://omada.example.com:8043/abc123/api/v2/login");
    assert!(login.csrf_token.is_none());
    assert_eq!(
        login.json_body.as_deref(),
        Some("{\"username\":\"admin\",\"password\":\"pw\"}")
    );

    client.apply_login(login_envelope(0, "Success", Some("T"))).unwrap();
    assert!(client.is_logged_in());
    assert_eq!(client.csrf_token.as_deref(), Some("T"));

    let prepare = client.prepare_request().unwrap();
    assert!(matches!(prepare.method, HttpMethod::Post));
    assert_eq!(
        prepare.url,
        "https://omada.example.com:8043/abc123/api/v2/maintenance/backup/prepareBackup"
    );
    assert_eq!(prepare.csrf_token.as_deref(), Some("T"));
    assert!(prepare.json_body.is_none());

    check_prepare(ApiResult::<bool> {
        error_code: 0,
        msg: "Success".to_string(),
        result: None,
    })
    .unwrap();

    let download = client.download_request(BackupRetention::SettingsOnly).unwrap();
    assert!(matches!(download.method, HttpMethod::Get));
    assert_eq!(
        download.url,
        "https://omada.example.com:8043/abc123/api/v2/files/backup?retention=-1"
    );
    assert_eq!(download.csrf_token.as_deref(), Some("T"));
    assert!(download.json_body.is_none());

    check_download_status(200, None).unwrap();
    let name =
        select_backup_file_name(Some("attachment; fileName=Omada_abc_settings.cfg"), None);
    assert_eq!(name, "Omada_abc_settings.cfg");
}

#[test]
fn retention_choice_is_forwarded() {
    let mut client = OmadaClient::new("https://omada.example.com:8043/", false).unwrap();
    client.apply_discovery(discovery_envelope(0, "Success", Some("abc123"))).unwrap();
    client.apply_login(login_envelope(0, "Success", Some("T"))).unwrap();
    let download = client.download_request(BackupRetention::Days180).unwrap();
    assert!(download.url.ends_with("?retention=180"));
}

#[test]
fn bad_credentials_clear_all_session_state() {
    let mut client = OmadaClient::new("https://omada.example.com:8043/", false).unwrap();
    client.apply_discovery(discovery_envelope(0, "Success", Some("abc123"))).unwrap();
    let err = client
        .apply_login(login_envelope(-1001, "Invalid username or password.", None))
        .unwrap_err();
    assert!(matches!(err, OmadaError::LoginFailed(m) if m == "Invalid username or password."));
    assert!(client.controller_id.is_none());
    assert!(client.csrf_token.is_none());
    assert!(!client.is_logged_in());
}

#[test]
fn positive_error_code_is_also_a_failure() {
    let mut client = OmadaClient::new("https://omada.example.com:8043/", false).unwrap();
    let err = client.apply_discovery(discovery_envelope(1, "busy", Some("abc123"))).unwrap_err();
    assert!(matches!(err, OmadaError::ControllerDiscoveryFailed(m) if m == "busy"));
    assert!(client.controller_id.is_none());
}

#[test]
fn missing_payload_fails_discovery() {
    let mut client = OmadaClient::new("https://omada.example.com:8043/", false).unwrap();
    let err = client.apply_discovery(discovery_envelope(0, "Success", None)).unwrap_err();
    assert!(matches!(err, OmadaError::ControllerDiscoveryFailed(_)));
    assert!(client.controller_id.is_none());
}

#[test]
fn login_without_token_fails_and_clears_state() {
    let mut client = OmadaClient::new("https://omada.example.com:8043/", false).unwrap();
    client.apply_discovery(discovery_envelope(0, "Success", Some("abc123"))).unwrap();
    let err = client.apply_login(login_envelope(0, "Success", None)).unwrap_err();
    assert!(matches!(err, OmadaError::LoginFailed(m) if m == "Could not login"));
    assert!(client.controller_id.is_none());
    assert!(client.csrf_token.is_none());
}

#[test]
fn payload_without_controller_id_fails_discovery() {
    let mut client = OmadaClient::new("https://omada.example.com:8043/", false).unwrap();
    let mut envelope = discovery_envelope(0, "Success", Some("abc123"));
    if let Some(info) = envelope.result.as_mut() {
        info.controller_id = None;
    }
    let err = client.apply_discovery(envelope).unwrap_err();
    assert!(
        matches!(err, OmadaError::ControllerDiscoveryFailed(m) if m == "Could not retrieve controller ID")
    );
    assert!(client.controller_id.is_none());
}

#[test]
fn prepare_error_envelope_surfaces_message() {
    let err = check_prepare(ApiResult::<bool> {
        error_code: -44111,
        msg: "CSRF token missing".to_string(),
        result: None,
    })
    .unwrap_err();
    assert!(matches!(err, OmadaError::PrepareFailed(m) if m == "CSRF token missing"));
}

#[test]
fn backup_before_login_is_refused_without_any_request() {
    let client = OmadaClient::new("https://omada.example.com:8043/", false).unwrap();
    assert!(matches!(client.prepare_request().unwrap_err(), OmadaError::NotLoggedIn));
    assert!(matches!(
        client.download_request(BackupRetention::Days7).unwrap_err(),
        OmadaError::NotLoggedIn
    ));
}

#[test]
fn non_2xx_download_status_fails_with_status_and_message() {
    let err = check_download_status(404, Some("Not found".to_string())).unwrap_err();
    assert!(matches!(&err, OmadaError::DownloadFailed(404, m) if m == "Not found"));
    assert_eq!(err.message(), "Could not download backup: status 404 Not found");
    assert!(check_download_status(299, None).is_ok());
    assert!(check_download_status(300, None).is_err());
}

#[test]
fn invalid_base_url_is_config_invalid() {
    let err = OmadaClient::new("not a url", false).unwrap_err();
    assert!(matches!(err, OmadaError::ConfigInvalid));
    assert_eq!(err.message(), "Invalid base URL");
}

#[test]
fn trust_flag_is_kept_in_the_session() {
    let client = OmadaClient::new("https://omada.example.com:8043/", true).unwrap();
    assert!(client.trust_invalid_certs);
    let client = OmadaClient::new("https://omada.example.com:8043/", false).unwrap();
    assert!(!client.trust_invalid_certs);
}

#[test]
fn password_reaches_only_the_login_body() {
    let mut client = OmadaClient::new("https://omada.example.com:8043/", false).unwrap();
    let discovery = client.discovery_request();
    assert!(discovery.json_body.is_none());
    client.apply_discovery(discovery_envelope(0, "Success", Some("abc123"))).unwrap();
    let login = client.login_request("admin", "hunter2").unwrap();
    assert!(!login.url.contains("hunter2"));
    client.apply_login(login_envelope(0, "Success", Some("T"))).unwrap();

    let prepare = client.prepare_request().unwrap();
    assert!(prepare.json_body.is_none());
    assert!(!prepare.url.contains("hunter2"));
    assert_ne!(prepare.csrf_token.as_deref(), Some("hunter2"));

    let download = client.download_request(BackupRetention::SettingsOnly).unwrap();
    assert!(download.json_body.is_none());
    assert!(!download.url.contains("hunter2"));
}
