//! What is checked and said before the dashboard starts.

use vstd::prelude::*;
use vstd::string::StringExecFns;
use crate::api::{ApiError, LoginError};
use crate::text::{starts, str_starts_with};

verus! {

/// Whether an address names the scheme of the service: plain or secured
/// HTTP.
pub open spec fn has_scheme(url: Seq<char>) -> bool {
    starts("http://"@, url) || starts("https://"@, url)
}

/// Whether an address is one that the service can be reached at.
pub fn is_valid_url(url: &str) -> (valid: bool)
    ensures
        valid == has_scheme(url@),
{
    str_starts_with(url, "http://") || str_starts_with(url, "https://")
}

/// What is said of an address that is none.
pub fn url_format_message() -> (message: &'static str)
    ensures
        message@ == "Url format: \"http://<host>:<port>\""@,
{
    "Url format: \"http://<host>:<port>\""
}

/// What is to blame for a failure to reach the service, in words.
pub open spec fn advice(e: ApiError, at_login: bool) -> Option<Seq<char>> {
    match e {
        ApiError::External(_) => Some("Check connection!"@),
        ApiError::Login(LoginError::WrongCredentials) => if at_login {
            Some("Check credentials!"@)
        } else {
            None
        },
        ApiError::Login(LoginError::TooManyAttempts) => if at_login {
            Some("Too many failed login attempts!"@)
        } else {
            None
        },
        ApiError::NotAuthenticated => if at_login {
            None
        } else {
            Some("Authentication is required!"@)
        },
    }
}

/// What is said when the service at `url` could not be reached.
pub open spec fn failure_text(e: ApiError, url: Seq<char>, at_login: bool) -> Option<Seq<char>> {
    match advice(e, at_login) {
        Some(advice) => Some("Could not connect to "@ + url + ": "@ + advice),
        None => None,
    }
}

fn failure(url: &str, advice: &str) -> (message: String)
    ensures
        message@ == "Could not connect to "@ + url@ + ": "@ + advice@,
{
    let mut message = String::from_str("Could not connect to ");
    message.append(url);
    message.append(": ");
    message.append(advice);
    message
}

/// What is said when the login at the start failed; nothing for a failure
/// that no login ends with.
pub fn login_failure_message(e: &ApiError, url: &str) -> (message: Option<String>)
    ensures
        message is Some <==> failure_text(*e, url@, true) is Some,
        message matches Some(m) ==> Some(m@) == failure_text(*e, url@, true),
{
    match e {
        ApiError::External(_) => Some(failure(url, "Check connection!")),
        ApiError::Login(LoginError::WrongCredentials) => Some(failure(url, "Check credentials!")),
        ApiError::Login(LoginError::TooManyAttempts) => Some(
            failure(url, "Too many failed login attempts!"),
        ),
        ApiError::NotAuthenticated => None,
    }
}

/// What is said when the first fetch of everything failed; nothing for a
/// failure that no fetch ends with.
pub fn reload_failure_message(e: &ApiError, url: &str) -> (message: Option<String>)
    ensures
        message is Some <==> failure_text(*e, url@, false) is Some,
        message matches Some(m) ==> Some(m@) == failure_text(*e, url@, false),
{
    match e {
        ApiError::External(_) => Some(failure(url, "Check connection!")),
        ApiError::NotAuthenticated => Some(failure(url, "Authentication is required!")),
        ApiError::Login(_) => None,
    }
}

} // verus!
