use vstd::prelude::*;
use vstd::string::*;

use crate::api_models::{ApiInfo, ApiResult, LoginResult};
use crate::error::OmadaError;
use crate::json::{login_body, login_body_spec};
use crate::urls::{join_url, join_url_spec};

verus! {

/// What `reqwest::Url::parse` makes of a base URL string: the parsed
/// URL rendered back to text, or nothing when the string is not a valid
/// absolute URL. A function of the input alone.
pub uninterp spec fn parsed_base_url(s: Seq<char>) -> Option<Seq<char>>;

/// Relies on `reqwest::Url::parse` (the `url` crate's parser): it
/// accepts exactly the well-formed absolute URLs and renders the parsed
/// URL back to text; the result depends on the input alone.
#[verifier::external_body]
fn parse_base_url(value: &str) -> (r: Option<String>)
    ensures
        match r {
            Some(u) => parsed_base_url(value@) == Some(u@),
            None => parsed_base_url(value@) is None,
        },
{
    match reqwest::Url::parse(value) {
        Ok(parsed) => Some(String::from(parsed)),
        Err(_) => None,
    }
}

/// How much history the requested backup archive keeps.
#[derive(Debug, Clone, Copy, PartialEq, Eq, Structural)]
pub enum BackupRetention {
    SettingsOnly,
    Days7,
    Days30,
    Days60,
    Days90,
    Days180,
}

/// The exact value each retention choice puts on the wire as the
/// `retention` query parameter.
pub open spec fn retention_wire_spec(r: BackupRetention) -> Seq<char> {
    match r {
        BackupRetention::SettingsOnly => "-1"@,
        BackupRetention::Days7 => "7"@,
        BackupRetention::Days30 => "30"@,
        BackupRetention::Days60 => "60"@,
        BackupRetention::Days90 => "90"@,
        BackupRetention::Days180 => "180"@,
    }
}

impl BackupRetention {
    /// The value sent as the `retention` query parameter.
    pub fn wire_value(&self) -> (r: &'static str)
        ensures
            r@ == retention_wire_spec(*self),
    {
        match self {
            BackupRetention::SettingsOnly => "-1",
            BackupRetention::Days7 => "7",
            BackupRetention::Days30 => "30",
            BackupRetention::Days60 => "60",
            BackupRetention::Days90 => "90",
            BackupRetention::Days180 => "180",
        }
    }
}

/// The HTTP method of a request the session asks the transport to make.
#[derive(Debug, Clone, Copy, PartialEq, Eq, Structural)]
pub enum HttpMethod {
    Get,
    Post,
}

/// One fully described HTTP request of the session protocol. When
/// `csrf_token` is set the transport must send it as the `Csrf-Token`
/// header together with the session cookies it holds; a `json_body` is
/// sent with `Content-Type: application/json`.
#[derive(Debug, Clone)]
pub struct ApiRequest {
    pub method: HttpMethod,
    pub url: String,
    pub csrf_token: Option<String>,
    pub json_body: Option<String>,
}

/// The controller session: the immutable configuration and the two
/// values a successful login establishes. The transport's cookie store
/// lives with the transport; this state holds everything the protocol
/// decisions depend on.
#[derive(Debug)]
pub struct OmadaClient {
    pub base_url: String,
    pub trust_invalid_certs: bool,
    pub controller_id: Option<String>,
    pub csrf_token: Option<String>,
}

impl OmadaClient {
    /// Both the controller id and the CSRF token are set: every
    /// authenticated operation needs both.
    pub open spec fn spec_logged_in(&self) -> bool {
        self.controller_id is Some && self.csrf_token is Some
    }

    /// Opens a session against `base_url`. Fails with `ConfigInvalid`
    /// exactly when the base URL does not parse; a fresh session has
    /// neither a controller id nor a CSRF token.
    pub fn new(base_url: &str, trust_invalid_certs: bool) -> (r: Result<OmadaClient, OmadaError>)
        ensures
            match r {
                Ok(c) => {
                    &&& parsed_base_url(base_url@) == Some(c.base_url@)
                    &&& c.trust_invalid_certs == trust_invalid_certs
                    &&& c.controller_id is None
                    &&& c.csrf_token is None
                },
                Err(e) => parsed_base_url(base_url@) is None && e == OmadaError::ConfigInvalid,
            },
    {
        match parse_base_url(base_url) {
            Some(normalized) => Ok(
                OmadaClient {
                    base_url: normalized,
                    trust_invalid_certs,
                    controller_id: None,
                    csrf_token: None,
                },
            ),
            None => Err(OmadaError::ConfigInvalid),
        }
    }

    /// Whether a login has completed: see `spec_logged_in`.
    pub fn is_logged_in(&self) -> (r: bool)
        ensures
            r == self.spec_logged_in(),
    {
        self.controller_id.is_some() && self.csrf_token.is_some()
    }

    /// The resolver of authenticated paths: the base URL joined with
    /// the discovered controller id and the relative path, one `/`
    /// between each. Fails exactly when no controller id is set.
    pub fn construct_controller_url(&self, relative_path: &str) -> (r: Option<String>)
        ensures
            match r {
                Some(u) => self.controller_id matches Some(id) && u@ == join_url_spec(
                    self.base_url@,
                    id@ + seq!['/'] + relative_path@,
                ),
                None => self.controller_id is None,
            },
    {
        match &self.controller_id {
            Some(id) => {
                let mut seg = String::from_str(id.as_str());
                seg.append("/");
                seg.append(relative_path);
                proof {
                    reveal_strlit("/");
                    assert(seg@ =~= id@ + seq!['/'] + relative_path@);
                }
                Some(join_url(self.base_url.as_str(), seg.as_str()))
            },
            None => None,
        }
    }

    /// The unauthenticated discovery probe: `GET {base}/api/info`, no
    /// CSRF header (the token does not exist yet) and no body.
    pub fn discovery_request(&self) -> (r: ApiRequest)
        ensures
            r.method == HttpMethod::Get,
            r.url@ == join_url_spec(self.base_url@, "api/info"@),
            r.csrf_token is None,
            r.json_body is None,
    {
        ApiRequest {
            method: HttpMethod::Get,
            url: join_url(self.base_url.as_str(), "api/info"),
            csrf_token: None,
            json_body: None,
        }
    }

    /// Digests the discovery envelope. On success the controller id is
    /// stored and the CSRF token is cleared: the session is not logged
    /// in until the login envelope is digested too. On any failure —
    /// an envelope error, a missing payload or a missing id — the
    /// session keeps neither value.
    pub fn apply_discovery(&mut self, env: ApiResult<ApiInfo>) -> (r: Result<(), OmadaError>)
        ensures
            final(self).base_url == old(self).base_url,
            final(self).trust_invalid_certs == old(self).trust_invalid_certs,
            match r {
                Ok(_) => {
                    &&& env.error_code == 0
                    &&& env.result matches Some(info) && info.controller_id is Some
                        && final(self).controller_id == info.controller_id
                    &&& final(self).csrf_token is None
                },
                Err(e) => {
                    &&& !(env.error_code == 0 && (env.result matches Some(info)
                        && info.controller_id is Some))
                    &&& final(self).controller_id is None
                    &&& final(self).csrf_token is None
                    &&& (env.error_code != 0 ==> (e matches OmadaError::ControllerDiscoveryFailed(m)
                        && m == env.msg))
                    &&& (env.error_code == 0 ==> (e matches OmadaError::ControllerDiscoveryFailed(m)
                        && m@ == "Could not retrieve controller ID"@))
                },
            },
    {
        if env.error_code != 0 {
            self.controller_id = None;
            self.csrf_token = None;
            return Err(OmadaError::ControllerDiscoveryFailed(env.msg));
        }
        match env.result {
            Some(info) => match info.controller_id {
                Some(id) => {
                    self.controller_id = Some(id);
                    self.csrf_token = None;
                    Ok(())
                },
                None => {
                    self.controller_id = None;
                    self.csrf_token = None;
                    Err(
                        OmadaError::ControllerDiscoveryFailed(
                            String::from_str("Could not retrieve controller ID"),
                        ),
                    )
                },
            },
            None => {
                self.controller_id = None;
                self.csrf_token = None;
                Err(
                    OmadaError::ControllerDiscoveryFailed(
                        String::from_str("Could not retrieve controller ID"),
                    ),
                )
            },
        }
    }

    /// The login call: `POST {base}/{controller_id}/api/v2/login` with
    /// the credentials as a JSON object and no CSRF header. Fails
    /// exactly when discovery has not stored a controller id.
    pub fn login_request(&self, username: &str, password: &str) -> (r: Result<
        ApiRequest,
        OmadaError,
    >)
        ensures
            match r {
                Ok(req) => {
                    &&& req.method == HttpMethod::Post
                    &&& self.controller_id matches Some(id) && req.url@ == join_url_spec(
                        self.base_url@,
                        id@ + seq!['/'] + "api/v2/login"@,
                    )
                    &&& req.csrf_token is None
                    &&& req.json_body matches Some(b) && b@ == login_body_spec(
                        username@,
                        password@,
                    )
                },
                Err(e) => self.controller_id is None && (e
                    matches OmadaError::ControllerDiscoveryFailed(m) && m@
                    == "Could not retrieve controller ID"@),
            },
    {
        match self.construct_controller_url("api/v2/login") {
            Some(url) => Ok(
                ApiRequest {
                    method: HttpMethod::Post,
                    url,
                    csrf_token: None,
                    json_body: Some(login_body(username, password)),
                },
            ),
            None => Err(
                OmadaError::ControllerDiscoveryFailed(
                    String::from_str("Could not retrieve controller ID"),
                ),
            ),
        }
    }

    /// Digests the login envelope. On success the CSRF token is stored
    /// beside the controller id discovery stored, atomically completing
    /// the login; on any failure the session keeps neither value, so a
    /// failed login never leaves partial state behind.
    pub fn apply_login(&mut self, env: ApiResult<LoginResult>) -> (r: Result<(), OmadaError>)
        requires
            old(self).controller_id is Some,
        ensures
            final(self).base_url == old(self).base_url,
            final(self).trust_invalid_certs == old(self).trust_invalid_certs,
            match r {
                Ok(_) => {
                    &&& env.error_code == 0
                    &&& env.result matches Some(lr) && final(self).csrf_token == Some(lr.token)
                    &&& final(self).controller_id == old(self).controller_id
                    &&& final(self).spec_logged_in()
                },
                Err(e) => {
                    &&& !(env.error_code == 0 && env.result is Some)
                    &&& final(self).controller_id is None
                    &&& final(self).csrf_token is None
                    &&& (env.error_code != 0 ==> (e matches OmadaError::LoginFailed(m) && m
                        == env.msg))
                    &&& (env.error_code == 0 ==> (e matches OmadaError::LoginFailed(m) && m@
                        == "Could not login"@))
                },
            },
    {
        if env.error_code != 0 {
            self.controller_id = None;
            self.csrf_token = None;
            return Err(OmadaError::LoginFailed(env.msg));
        }
        match env.result {
            Some(lr) => {
                self.csrf_token = Some(lr.token);
                Ok(())
            },
            None => {
                self.controller_id = None;
                self.csrf_token = None;
                Err(OmadaError::LoginFailed(String::from_str("Could not login")))
            },
        }
    }

    /// The prepare call that must precede every download:
    /// `POST {base}/{controller_id}/api/v2/maintenance/backup/prepareBackup`
    /// with the CSRF header and an empty body. Fails with `NotLoggedIn`,
    /// before anything goes on the wire, unless the session is logged in.
    pub fn prepare_request(&self) -> (r: Result<ApiRequest, OmadaError>)
        ensures
            match r {
                Ok(req) => {
                    &&& self.spec_logged_in()
                    &&& req.method == HttpMethod::Post
                    &&& self.controller_id matches Some(id) && req.url@ == join_url_spec(
                        self.base_url@,
                        id@ + seq!['/'] + "api/v2/maintenance/backup/prepareBackup"@,
                    )
                    &&& req.csrf_token == self.csrf_token
                    &&& req.json_body is None
                },
                Err(e) => !self.spec_logged_in() && e == OmadaError::NotLoggedIn,
            },
    {
        if !self.is_logged_in() {
            return Err(OmadaError::NotLoggedIn);
        }
        let url = match self.construct_controller_url("api/v2/maintenance/backup/prepareBackup") {
            Some(u) => u,
            None => {
                proof {
                    assert(false);
                }
                String::new()
            },
        };
        let token = match &self.csrf_token {
            Some(t) => t.clone(),
            None => {
                proof {
                    assert(false);
                }
                String::new()
            },
        };
        Ok(ApiRequest { method: HttpMethod::Post, url, csrf_token: Some(token), json_body: None })
    }

    /// The download call:
    /// `GET {base}/{controller_id}/api/v2/files/backup?retention={value}`
    /// with the CSRF header; its response is an opaque byte stream, not
    /// an envelope. Fails with `NotLoggedIn`, before anything goes on
    /// the wire, unless the session is logged in.
    pub fn download_request(&self, retention: BackupRetention) -> (r: Result<
        ApiRequest,
        OmadaError,
    >)
        ensures
            match r {
                Ok(req) => {
                    &&& self.spec_logged_in()
                    &&& req.method == HttpMethod::Get
                    &&& self.controller_id matches Some(id) && req.url@ == join_url_spec(
                        self.base_url@,
                        id@ + seq!['/'] + "api/v2/files/backup"@,
                    ) + "?retention="@ + retention_wire_spec(retention)
                    &&& req.csrf_token == self.csrf_token
                    &&& req.json_body is None
                },
                Err(e) => !self.spec_logged_in() && e == OmadaError::NotLoggedIn,
            },
    {
        if !self.is_logged_in() {
            return Err(OmadaError::NotLoggedIn);
        }
        let mut url = match self.construct_controller_url("api/v2/files/backup") {
            Some(u) => u,
            None => {
                proof {
                    assert(false);
                }
                String::new()
            },
        };
        url.append("?retention=");
        url.append(retention.wire_value());
        let token = match &self.csrf_token {
            Some(t) => t.clone(),
            None => {
                proof {
                    assert(false);
                }
                String::new()
            },
        };
        proof {
            assert(url@ =~= join_url_spec(
                self.base_url@,
                self.controller_id->Some_0@ + seq!['/'] + "api/v2/files/backup"@,
            ) + "?retention="@ + retention_wire_spec(retention));
        }
        Ok(ApiRequest { method: HttpMethod::Get, url, csrf_token: Some(token), json_body: None })
    }
}

/// Digests the prepare envelope: the server must acknowledge the
/// prepare with a zero error code before the download may be issued.
pub fn check_prepare<T>(env: ApiResult<T>) -> (r: Result<(), OmadaError>)
    ensures
        match r {
            Ok(_) => env.error_code == 0,
            Err(e) => env.error_code != 0 && (e matches OmadaError::PrepareFailed(m) && m
                == env.msg),
        },
{
    if env.error_code != 0 {
        Err(OmadaError::PrepareFailed(env.msg))
    } else {
        Ok(())
    }
}

/// Judges the status of the download response: any 2xx status is a
/// success, anything else is `DownloadFailed` carrying the status and
/// the envelope message when the body held one.
pub fn check_download_status(status: u16, envelope_msg: Option<String>) -> (r: Result<
    (),
    OmadaError,
>)
    ensures
        match r {
            Ok(_) => 200 <= status < 300,
            Err(e) => !(200 <= status < 300) && (e matches OmadaError::DownloadFailed(s, m) && s
                == status && m@ == (match envelope_msg {
                Some(x) => x@,
                None => Seq::<char>::empty(),
            })),
        },
{
    if 200 <= status && status < 300 {
        Ok(())
    } else {
        match envelope_msg {
            Some(m) => Err(OmadaError::DownloadFailed(status, m)),
            None => Err(OmadaError::DownloadFailed(status, String::new())),
        }
    }
}

} // verus!
