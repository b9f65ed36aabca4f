use vstd::prelude::*;
use vstd::string::*;

use crate::json::{append_dec_u64, dec_str};

verus! {

/// Every way an operation against the controller can fail. The payload
/// of a variant is the server's own message where one was received, and
/// the HTTP status for a failed download.
#[derive(Debug, Clone)]
pub enum OmadaError {
    /// The base URL could not be parsed.
    ConfigInvalid,
    /// The discovery probe failed or its envelope reported an error.
    ControllerDiscoveryFailed(String),
    /// The credentials were rejected or the login envelope reported an error.
    LoginFailed(String),
    /// A backup was requested before a successful login.
    NotLoggedIn,
    /// The prepare call returned an error envelope.
    PrepareFailed(String),
    /// The download call returned a non-2xx status, with the envelope
    /// message when the body held one.
    DownloadFailed(u16, String),
    /// The destination file could not be created or written.
    FilesystemError(String),
}

/// The one-line diagnostic for an error, stated exactly.
pub open spec fn spec_message(e: OmadaError) -> Seq<char> {
    match e {
        OmadaError::ConfigInvalid => "Invalid base URL"@,
        OmadaError::ControllerDiscoveryFailed(m) => "Could not retrieve controller ID: "@ + m@,
        OmadaError::LoginFailed(m) => "Could not login: "@ + m@,
        OmadaError::NotLoggedIn => "Not Logged In"@,
        OmadaError::PrepareFailed(m) => "Could not prepare backup: "@ + m@,
        OmadaError::DownloadFailed(status, m) => "Could not download backup: status "@ + dec_str(
            status as int,
        ) + " "@ + m@,
        OmadaError::FilesystemError(m) => "Could not write backup file: "@ + m@,
    }
}

impl OmadaError {
    /// The one-line diagnostic to print for this error.
    pub fn message(&self) -> (r: String)
        ensures
            r@ == spec_message(*self),
    {
        match self {
            OmadaError::ConfigInvalid => String::from_str("Invalid base URL"),
            OmadaError::ControllerDiscoveryFailed(m) => {
                let mut out = String::from_str("Could not retrieve controller ID: ");
                out.append(m.as_str());
                out
            },
            OmadaError::LoginFailed(m) => {
                let mut out = String::from_str("Could not login: ");
                out.append(m.as_str());
                out
            },
            OmadaError::NotLoggedIn => String::from_str("Not Logged In"),
            OmadaError::PrepareFailed(m) => {
                let mut out = String::from_str("Could not prepare backup: ");
                out.append(m.as_str());
                out
            },
            OmadaError::DownloadFailed(status, m) => {
                let mut out = String::from_str("Could not download backup: status ");
                append_dec_u64(&mut out, *status as u64);
                out.append(" ");
                out.append(m.as_str());
                proof {
                    assert(out@ =~= spec_message(*self));
                }
                out
            },
            OmadaError::FilesystemError(m) => {
                let mut out = String::from_str("Could not write backup file: ");
                out.append(m.as_str());
                out
            },
        }
    }
}

} // verus!
