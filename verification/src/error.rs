//! The kinds of failure that a token acquisition can end in.

use vstd::prelude::*;
use vstd::string::*;

verus! {

/// Why an attempt to obtain a usable access token failed.
#[derive(Clone, Copy, Debug, PartialEq, Eq, Structural)]
pub enum ErrorCodes {
    /// No record is cached at the location.
    NotFound,
    /// What is cached at the location is no token record.
    Malformed,
    /// The cached token has expired and carries no refresh token.
    NoRefreshToken,
    /// The identity provider rejected an exchange.
    ExchangeError,
    /// The user refused the device authorization.
    Denied,
    /// The device authorization session ran out before the user acted.
    Expired,
    /// The request never reached the identity provider, or its answer never came back.
    TransportError,
    /// Reading, writing or removing the cached record failed.
    IoError,
    /// A text that should be a URL is none.
    InvalidUrl,
    /// A text cannot stand in an HTTP header.
    InvalidHeader,
    /// The redirect that should carry the authorization code carries none.
    InvalidRedirect,
    /// The library was answered something that it had not asked for.
    OutOfTurn,
}

/// A failure: its kind, and a text for the person who reads the log.
#[derive(Clone, Debug, PartialEq, Eq)]
pub struct OAuth2Error {
    pub error_code: ErrorCodes,
    pub error_message: String,
}

pub type OAuth2Result<T> = Result<T, OAuth2Error>;

impl OAuth2Error {
    pub fn new(error_code: ErrorCodes, error_message: String) -> (e: Self)
        ensures
            e.error_code == error_code,
            e.error_message@ == error_message@,
    {
        OAuth2Error { error_code, error_message }
    }

    /// A failure of the given kind with a fixed text.
    pub fn with_text(error_code: ErrorCodes, text: &str) -> (e: Self)
        ensures
            e.error_code == error_code,
            e.error_message@ == text@,
    {
        OAuth2Error { error_code, error_message: String::from_str(text) }
    }

    /// The failure as one line: the kind's name, a colon, the text.
    pub fn describe(&self) -> (line: String)
        ensures
            line@ == kind_name(self.error_code) + ": "@ + self.error_message@,
    {
        let mut line = String::from_str(self.error_code.name());
        line.append(": ");
        line.append(self.error_message.as_str());
        line
    }
}

/// The name under which a kind of failure is reported.
pub open spec fn kind_name(code: ErrorCodes) -> Seq<char> {
    match code {
        ErrorCodes::NotFound => "NotFound"@,
        ErrorCodes::Malformed => "Malformed"@,
        ErrorCodes::NoRefreshToken => "NoRefreshToken"@,
        ErrorCodes::ExchangeError => "ExchangeError"@,
        ErrorCodes::Denied => "Denied"@,
        ErrorCodes::Expired => "Expired"@,
        ErrorCodes::TransportError => "TransportError"@,
        ErrorCodes::IoError => "IoError"@,
        ErrorCodes::InvalidUrl => "InvalidUrl"@,
        ErrorCodes::InvalidHeader => "InvalidHeader"@,
        ErrorCodes::InvalidRedirect => "InvalidRedirect"@,
        ErrorCodes::OutOfTurn => "OutOfTurn"@,
    }
}

impl ErrorCodes {
    pub fn name(&self) -> (text: &'static str)
        ensures
            text@ == kind_name(*self),
    {
        match self {
            ErrorCodes::NotFound => "NotFound",
            ErrorCodes::Malformed => "Malformed",
            ErrorCodes::NoRefreshToken => "NoRefreshToken",
            ErrorCodes::ExchangeError => "ExchangeError",
            ErrorCodes::Denied => "Denied",
            ErrorCodes::Expired => "Expired",
            ErrorCodes::TransportError => "TransportError",
            ErrorCodes::IoError => "IoError",
            ErrorCodes::InvalidUrl => "InvalidUrl",
            ErrorCodes::InvalidHeader => "InvalidHeader",
            ErrorCodes::InvalidRedirect => "InvalidRedirect",
            ErrorCodes::OutOfTurn => "OutOfTurn",
        }
    }

    /// Whether a failure of this kind, met while reading the cache, calls for a new login
    /// rather than ending the attempt.
    pub fn calls_for_login(&self) -> (yes: bool)
        ensures
            yes == (*self == ErrorCodes::NotFound || *self == ErrorCodes::Malformed),
    {
        match self {
            ErrorCodes::NotFound => true,
            ErrorCodes::Malformed => true,
            _ => false,
        }
    }
}

} // verus!
