use vstd::prelude::*;

verus! {

/// The uniform JSON envelope the controller wraps every API response in.
///
/// `error_code` zero means success; anything else is a server-side
/// rejection and `msg` carries the reason. `result` is present only when
/// the call returned data.
#[derive(Debug, Clone)]
pub struct ApiResult<T> {
    pub error_code: i32,
    pub msg: String,
    pub result: Option<T>,
}

/// Payload of the unauthenticated discovery probe.
///
/// Only `controller_id` (the wire field `omadacId`) is consumed; the other
/// fields are carried for completeness and are tolerated absent.
#[derive(Debug, Clone)]
pub struct ApiInfo {
    pub controller_ver: Option<String>,
    pub api_ver: Option<String>,
    pub configured: Option<bool>,
    pub _type: Option<i32>,
    pub support_app: Option<bool>,
    pub controller_id: Option<String>,
}

/// Payload of a successful login call: the CSRF token to echo on every
/// authenticated request, and the role the server assigned.
#[derive(Debug, Clone)]
pub struct LoginResult {
    pub role_type: i32,
    pub token: String,
}

} // verus!
