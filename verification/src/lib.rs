//! Client logic for deriving the chain of short-lived credentials that the
//! Nintendo Switch Online companion web services require, from a completed
//! browser authorization step down to per-game bearer tokens.
//!
//! Every request of the token-exchange pipeline is built here, byte for byte,
//! as an [`request::ApiRequest`]; every response field the pipeline needs is
//! extracted here from a decoded [`json::FieldValue`]. The transport itself
//! (HTTP, TLS, JSON text decoding) is left to the caller.

use vstd::prelude::*;

pub mod b64;
pub mod common;
pub mod encode;
pub mod json;
pub mod login;
pub mod request;
pub mod splatoon2;
pub mod splatoon3;

verus! {

/// The version of Nintendo Switch Online that this library was built to mimic
pub const NSO_VERSION: &'static str = "2.3.1";

/// The user agent used to mock Nintendo Switch Online calls
pub const NSO_USER_AGENT: &'static str = "com.nintendo.znca/2.3.1, (Android/7.1.2)";

/// The user agent used to mock Nintendo Switch Online Lounge calls
pub const ONLINE_LOUNGE_USER_AGENT: &'static str = "OnlineLounge/2.3.1 NASDKAPI Android";

/// The user agent used to mock webview calls
pub const WEB_VIEW_USER_AGENT: &'static str = "Mozilla/5.0 (Linux; Android 7.1.2; Pixel Build/NJH47D; wv) AppleWebKit/537.36 (KHTML, like Gecko) Version/4.0 Chrome/59.0.3071.125 Mobile Safari/537.36";

/// The user agent used to communicate with non-Nintendo servers such as imink
pub const RUST_NSO_USER_AGENT: &'static str = "rust-nso/0.1.0";

/// Why a response could not be turned into the credential a pipeline stage owes.
///
/// Transport failures (connection, TLS, timeouts) never reach this library:
/// they stay with the HTTP client that performs the calls.
#[derive(Clone, Copy, Debug, PartialEq, Eq, Structural)]
pub enum AuthError {
    /// The response decoded, but an expected field was missing or had the
    /// wrong type, so the remote service rejected the exchange in substance.
    RemoteRejection,
}

} // verus!
