//! What can go wrong while a request is authenticated.

use vstd::prelude::*;

use crate::outside;
use crate::outside::debug_quote;

verus! {

/// An authentication error.
#[derive(Debug)]
pub enum Error {
    /// A parameter that must be there is absent; its name.
    MissingPatameter(String),
    /// A text that is no URL.
    NotValidUri(String),
    /// The query of the callback could not be read; why.
    InvalidCodeResponse(String),
    /// No code verifier is stored for the state that came back.
    MissingCodeVerifier,
    /// The cache could not be used; why.
    CacheAccessError(String),
    /// There is no session any more, or it cannot be renewed.
    SessionExpired,
    /// The renewed session could not be stored; the cache's error, as it is debugged.
    SessionUpdateFailed(String),
    /// The tokens could not be renewed; the error, as it is debugged.
    TokenRefreshFailedAuth(String),
    /// The request carries no cache.
    AuthCacheNotConfigured,
    /// The request carries no configuration.
    OAuthConfigNotConfigured,
    /// The request carries no HTTP client.
    HttpClientNotConfigured,
    /// The request carries no session cookie.
    SessionNotFound,
    /// The provider's answer could not be used; why.
    InvalidResponse(String),
    /// The provider could not be asked; why.
    Request(String),
    /// The provider answered with another status than the one expected.
    Status {
        /// The status code.
        code: u16,
        /// The body of the answer.
        body: String,
    },
}

/// The mathematical counterpart of [`Error`].
pub enum ErrorModel {
    MissingPatameter(Seq<char>),
    NotValidUri(Seq<char>),
    InvalidCodeResponse(Seq<char>),
    MissingCodeVerifier,
    CacheAccessError(Seq<char>),
    SessionExpired,
    SessionUpdateFailed(Seq<char>),
    TokenRefreshFailedAuth(Seq<char>),
    AuthCacheNotConfigured,
    OAuthConfigNotConfigured,
    HttpClientNotConfigured,
    SessionNotFound,
    InvalidResponse(Seq<char>),
    Request(Seq<char>),
    Status { code: u16, body: Seq<char> },
}

impl View for Error {
    type V = ErrorModel;

    open spec fn view(&self) -> ErrorModel {
        match *self {
            Error::MissingPatameter(text) => ErrorModel::MissingPatameter(text@),
            Error::NotValidUri(text) => ErrorModel::NotValidUri(text@),
            Error::InvalidCodeResponse(text) => ErrorModel::InvalidCodeResponse(text@),
            Error::MissingCodeVerifier => ErrorModel::MissingCodeVerifier,
            Error::CacheAccessError(text) => ErrorModel::CacheAccessError(text@),
            Error::SessionExpired => ErrorModel::SessionExpired,
            Error::SessionUpdateFailed(text) => ErrorModel::SessionUpdateFailed(text@),
            Error::TokenRefreshFailedAuth(text) => ErrorModel::TokenRefreshFailedAuth(text@),
            Error::AuthCacheNotConfigured => ErrorModel::AuthCacheNotConfigured,
            Error::OAuthConfigNotConfigured => ErrorModel::OAuthConfigNotConfigured,
            Error::HttpClientNotConfigured => ErrorModel::HttpClientNotConfigured,
            Error::SessionNotFound => ErrorModel::SessionNotFound,
            Error::InvalidResponse(text) => ErrorModel::InvalidResponse(text@),
            Error::Request(text) => ErrorModel::Request(text@),
            Error::Status { code, body } => ErrorModel::Status { code, body: body@ },
        }
    }
}

/// The decimal digits of a number.
pub open spec fn decimal(number: u16) -> Seq<char>
    decreases number,
{
    let digit = (0x30 + number % 10) as char;
    if number < 10 {
        seq![digit]
    } else {
        decimal(number / 10).push(digit)
    }
}

/// A variant with one text, as it is debugged: the text is given quoted.
pub open spec fn debugged_variant(name: Seq<char>, quoted: Seq<char>) -> Seq<char> {
    name + "("@ + quoted + ")"@
}

/// A status error, as it is debugged: its body is given quoted.
pub open spec fn debugged_status(code: u16, quoted: Seq<char>) -> Seq<char> {
    "Status { code: "@ + decimal(code) + ", body: "@ + quoted + " }"@
}

/// An error as it is debugged: its variant and what the variant holds.
pub open spec fn debugged(error: ErrorModel) -> Seq<char> {
    match error {
        ErrorModel::MissingPatameter(text) => debugged_variant(
            "MissingPatameter"@,
            outside::debug_quoted(text),
        ),
        ErrorModel::NotValidUri(text) => debugged_variant(
            "NotValidUri"@,
            outside::debug_quoted(text),
        ),
        ErrorModel::InvalidCodeResponse(text) => debugged_variant(
            "InvalidCodeResponse"@,
            outside::debug_quoted(text),
        ),
        ErrorModel::MissingCodeVerifier => "MissingCodeVerifier"@,
        ErrorModel::CacheAccessError(text) => debugged_variant(
            "CacheAccessError"@,
            outside::debug_quoted(text),
        ),
        ErrorModel::SessionExpired => "SessionExpired"@,
        ErrorModel::SessionUpdateFailed(text) => debugged_variant(
            "SessionUpdateFailed"@,
            outside::debug_quoted(text),
        ),
        ErrorModel::TokenRefreshFailedAuth(text) => debugged_variant(
            "TokenRefreshFailedAuth"@,
            outside::debug_quoted(text),
        ),
        ErrorModel::AuthCacheNotConfigured => "AuthCacheNotConfigured"@,
        ErrorModel::OAuthConfigNotConfigured => "OAuthConfigNotConfigured"@,
        ErrorModel::HttpClientNotConfigured => "HttpClientNotConfigured"@,
        ErrorModel::SessionNotFound => "SessionNotFound"@,
        ErrorModel::InvalidResponse(text) => debugged_variant(
            "InvalidResponse"@,
            outside::debug_quoted(text),
        ),
        ErrorModel::Request(text) => debugged_variant("Request"@, outside::debug_quoted(text)),
        ErrorModel::Status { code, body } => debugged_status(code, outside::debug_quoted(body)),
    }
}

/// Writes a number in decimal.
pub fn write_decimal(number: u16) -> (text: String)
    ensures
        text@ == decimal(number),
    decreases number,
{
    let digits = "0123456789";
    proof {
        reveal_strlit("0123456789");
    }
    let at: usize = (number % 10) as usize;
    let mut text = if number < 10 {
        String::new()
    } else {
        write_decimal(number / 10)
    };
    text.append(digits.substring_char(at, at + 1));
    assert(text@ =~= decimal(number));
    text
}

/// Writes a variant with one text, which is given quoted, as it is debugged.
pub fn write_variant(name: &str, quoted: &str) -> (text: String)
    ensures
        text@ == debugged_variant(name@, quoted@),
{
    let mut text = name.to_owned();
    text.append("(");
    text.append(quoted);
    text.append(")");
    text
}

/// Writes a status error, whose body is given quoted, as it is debugged.
pub fn write_status(code: u16, quoted: &str) -> (text: String)
    ensures
        text@ == debugged_status(code, quoted@),
{
    let mut text = "Status { code: ".to_owned();
    text.append(write_decimal(code).as_str());
    text.append(", body: ");
    text.append(quoted);
    text.append(" }");
    text
}

impl Error {
    /// The error as it is debugged: its variant and what the variant holds.
    pub fn debug_text(&self) -> (text: String)
        ensures
            text@ == debugged(self@),
    {
        match self {
            Error::MissingPatameter(text) => write_variant(
                "MissingPatameter",
                debug_quote(text.as_str()).as_str(),
            ),
            Error::NotValidUri(text) => write_variant(
                "NotValidUri",
                debug_quote(text.as_str()).as_str(),
            ),
            Error::InvalidCodeResponse(text) => write_variant(
                "InvalidCodeResponse",
                debug_quote(text.as_str()).as_str(),
            ),
            Error::MissingCodeVerifier => "MissingCodeVerifier".to_owned(),
            Error::CacheAccessError(text) => write_variant(
                "CacheAccessError",
                debug_quote(text.as_str()).as_str(),
            ),
            Error::SessionExpired => "SessionExpired".to_owned(),
            Error::SessionUpdateFailed(text) => write_variant(
                "SessionUpdateFailed",
                debug_quote(text.as_str()).as_str(),
            ),
            Error::TokenRefreshFailedAuth(text) => write_variant(
                "TokenRefreshFailedAuth",
                debug_quote(text.as_str()).as_str(),
            ),
            Error::AuthCacheNotConfigured => "AuthCacheNotConfigured".to_owned(),
            Error::OAuthConfigNotConfigured => "OAuthConfigNotConfigured".to_owned(),
            Error::HttpClientNotConfigured => "HttpClientNotConfigured".to_owned(),
            Error::SessionNotFound => "SessionNotFound".to_owned(),
            Error::InvalidResponse(text) => write_variant(
                "InvalidResponse",
                debug_quote(text.as_str()).as_str(),
            ),
            Error::Request(text) => write_variant("Request", debug_quote(text.as_str()).as_str()),
            Error::Status { code, body } => write_status(
                *code,
                debug_quote(body.as_str()).as_str(),
            ),
        }
    }
}

} // verus!
