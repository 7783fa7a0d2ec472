//! Error types of the library and their flattening for foreign callers.
use vstd::prelude::*;
use vstd::string::*;

use crate::text::{decimal, join2, join4, u64_to_decimal};

verus! {

/// Errors of the network layer. The HTTP transport error is carried by its
/// rendered message.
#[derive(Debug, Clone, PartialEq, Eq)]
pub enum NetError {
    Http(String),
    Server(u16, String),
    Base64(String),
    WebSocket(String),
}

/// Errors of the cryptographic layer.
#[derive(Debug, Clone, PartialEq, Eq)]
pub enum CryptoError {
    InvalidKey,
    Other(String),
}

/// Internal application error.
#[derive(Debug, Clone, PartialEq, Eq)]
pub enum AppError {
    Crypto(CryptoError),
    Store(String),
    Net(NetError),
    NoAccount,
    Protocol(String),
    Provisioning(String),
    Blocked(String),
}

/// Error surfaced to mobile callers, flattened to strings.
#[derive(Debug, Clone, PartialEq, Eq)]
pub enum AppErrorFfi {
    Crypto { reason: String },
    Store { reason: String },
    Net { reason: String },
    NoAccount,
    Protocol { reason: String },
    Blocked { reason: String },
}

/// Rendered message of a network error.
pub open spec fn net_error_text(e: NetError) -> Seq<char> {
    match e {
        NetError::Http(m) => "HTTP error: "@ + m@,
        NetError::Server(code, m) => "server returned "@ + decimal(code as nat) + ": "@ + m@,
        NetError::Base64(m) => "invalid base64: "@ + m@,
        NetError::WebSocket(m) => "WebSocket error: "@ + m@,
    }
}

/// Rendered message of a cryptographic error.
pub open spec fn crypto_error_text(e: CryptoError) -> Seq<char> {
    match e {
        CryptoError::InvalidKey => "invalid key"@,
        CryptoError::Other(m) => m@,
    }
}

impl NetError {
    /// The message this error displays.
    pub fn message(&self) -> (r: String)
        ensures
            r@ == net_error_text(*self),
    {
        match self {
            NetError::Http(m) => join2("HTTP error: ", m.as_str()),
            NetError::Server(code, m) => {
                let c = u64_to_decimal(*code as u64);
                join4("server returned ", c.as_str(), ": ", m.as_str())
            },
            NetError::Base64(m) => join2("invalid base64: ", m.as_str()),
            NetError::WebSocket(m) => join2("WebSocket error: ", m.as_str()),
        }
    }
}

impl CryptoError {
    /// The message this error displays.
    pub fn message(&self) -> (r: String)
        ensures
            r@ == crypto_error_text(*self),
    {
        match self {
            CryptoError::InvalidKey => String::from_str("invalid key"),
            CryptoError::Other(m) => m.clone(),
        }
    }
}

impl AppErrorFfi {
    /// Flattens an internal error for a foreign caller, keeping each inner
    /// error's message as the reason.
    pub fn from_app_error(e: AppError) -> (r: AppErrorFfi)
        ensures
            match e {
                AppError::Crypto(c) => r matches AppErrorFfi::Crypto { reason } && reason@
                    == crypto_error_text(c),
                AppError::Store(m) => r matches AppErrorFfi::Store { reason } && reason@ == m@,
                AppError::Net(n) => r matches AppErrorFfi::Net { reason } && reason@
                    == net_error_text(n),
                AppError::NoAccount => r is NoAccount,
                AppError::Protocol(m) => r matches AppErrorFfi::Protocol { reason } && reason@
                    == m@,
                AppError::Provisioning(m) => r matches AppErrorFfi::Protocol { reason }
                    && reason@ == m@,
                AppError::Blocked(m) => r matches AppErrorFfi::Blocked { reason } && reason@
                    == m@,
            },
    {
        match e {
            AppError::Crypto(c) => AppErrorFfi::Crypto { reason: c.message() },
            AppError::Store(m) => AppErrorFfi::Store { reason: m },
            AppError::Net(n) => AppErrorFfi::Net { reason: n.message() },
            AppError::NoAccount => AppErrorFfi::NoAccount,
            AppError::Protocol(m) => AppErrorFfi::Protocol { reason: m },
            AppError::Provisioning(m) => AppErrorFfi::Protocol { reason: m },
            AppError::Blocked(m) => AppErrorFfi::Blocked { reason: m },
        }
    }
}

/// A protocol error with a fixed message.
pub fn protocol(msg: &str) -> (r: AppError)
    ensures
        r matches AppError::Protocol(m) && m@ == msg@,
{
    AppError::Protocol(String::from_str(msg))
}

/// A provisioning error with a fixed message.
pub fn provisioning(msg: &str) -> (r: AppError)
    ensures
        r matches AppError::Provisioning(m) && m@ == msg@,
{
    AppError::Provisioning(String::from_str(msg))
}

} // verus!
