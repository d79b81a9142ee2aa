//! The error kinds of the upstream API.

use vstd::prelude::*;

verus! {

/// Why an operation against the upstream API failed.
#[derive(Debug, Clone, Copy, PartialEq, Eq, Structural)]
pub enum EaseeError {
    /// The upstream API refused the access token.
    Unathorized,
    /// No fresh token could be obtained.
    LoginFailed,
    /// A request did not get through, timed out, or its body could not be read.
    HttpFailed,
    /// A response was not the JSON that was expected.
    InvalidResponse,
    /// The upstream API is throttling this client.
    RateLimit,
}

impl EaseeError {
    /// The HTTP status under which the query surface reports this error.
    pub open spec fn spec_status(self) -> u16 {
        match self {
            EaseeError::Unathorized => 401,
            EaseeError::RateLimit => 429,
            _ => 500,
        }
    }

    /// The HTTP status under which the query surface reports this error:
    /// 401 for a refused token, 429 for throttling, 500 for everything else.
    #[verifier::when_used_as_spec(spec_status)]
    pub fn status(self) -> (code: u16)
        ensures
            code == self.spec_status(),
    {
        match self {
            EaseeError::Unathorized => 401,
            EaseeError::RateLimit => 429,
            _ => 500,
        }
    }

    /// The text of [`EaseeError::description`].
    pub open spec fn spec_description(self) -> Seq<char> {
        match self {
            EaseeError::Unathorized => "Unauthorized"@,
            EaseeError::LoginFailed => "Login failed"@,
            EaseeError::HttpFailed => "Http failed"@,
            EaseeError::InvalidResponse => "Invalid response"@,
            EaseeError::RateLimit => "Rate limit"@,
        }
    }

    /// A short description of the error.
    pub fn description(&self) -> (text: &'static str)
        ensures
            text@ == self.spec_description(),
    {
        match *self {
            EaseeError::Unathorized => "Unauthorized",
            EaseeError::LoginFailed => "Login failed",
            EaseeError::HttpFailed => "Http failed",
            EaseeError::InvalidResponse => "Invalid response",
            EaseeError::RateLimit => "Rate limit",
        }
    }

    /// The text of [`EaseeError::to_string`].
    pub open spec fn spec_to_string(self) -> Seq<char> {
        match self {
            EaseeError::Unathorized => "Unathorized"@,
            EaseeError::LoginFailed => "Login failed"@,
            EaseeError::HttpFailed => "Http failed"@,
            EaseeError::InvalidResponse => "Invalid response"@,
            EaseeError::RateLimit => "Rate limit"@,
        }
    }

    /// The error as it is written to logs.
    pub fn to_string(&self) -> (text: String)
        ensures
            text@ == self.spec_to_string(),
    {
        match self {
            EaseeError::Unathorized => "Unathorized".to_owned(),
            EaseeError::LoginFailed => "Login failed".to_owned(),
            EaseeError::HttpFailed => "Http failed".to_owned(),
            EaseeError::InvalidResponse => "Invalid response".to_owned(),
            EaseeError::RateLimit => "Rate limit".to_owned(),
        }
    }
}

} // verus!
