//! Session client for a TP-Link Omada SDN controller's backup API.
//!
//! The crate models the controller session as an explicit state machine:
//! every HTTP exchange is described by a request value built here and a
//! response value handed back in, so the protocol decisions (discovery,
//! login, prepare, download, filename selection) are verified, while the
//! transport itself stays outside.

pub mod api_models;
pub mod error;
pub mod helpers;
pub mod json;
pub mod omada_client;
pub mod urls;
