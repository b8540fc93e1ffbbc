//! The failures a request can end in, and how each is shown to the caller.

use crate::signature_validation::ExtractFailure;
use vstd::prelude::*;
use vstd::string::StringExecFns;

verus! {

/// Every way in which handling a request can fail.
#[derive(Debug, PartialEq, Eq)]
pub enum Error {
    S3,
    Redis,
    Http,
    DiscordApiRequestValidate,
    DiscordApiHttp,
    DiscordApiDeserializeModel,
    Askama,
    Json,
    Image,
    OAuth2RequestToken,
    OAuth2Url,
    Join,
    CodeExchangeFailed,
    MissingHeader(&'static str),
    WebPStr(String),
    InvalidSignature(ExtractFailure),
    InvalidState,
    NoPermissions,
    Unauthorized,
    NotFound,
    MissingCommandData,
    MissingTarget,
    NoResolvedData,
    MessageNotFound,
}

/// How loudly a failure is logged.
#[derive(Debug, Clone, Copy, PartialEq, Eq)]
pub enum Severity {
    /// Something inside the service or behind it broke.
    Error,
    /// The request may have been forged.
    Warning,
    /// The client made a mistake.
    Debug,
}

/// The HTTP status that stands for `e`: 400 for a login handshake that cannot
/// be completed and for an image that cannot be read, 401 for a request whose
/// sender is not established, 403 for a principal without standing, 404 for a
/// missing page, and 500 for everything that went wrong on the service's side.
pub open spec fn status_code(e: Error) -> u16 {
    match e {
        Error::InvalidState | Error::CodeExchangeFailed | Error::Image => 400,
        Error::MissingHeader(_) | Error::InvalidSignature(_) | Error::Unauthorized => 401,
        Error::NoPermissions => 403,
        Error::NotFound => 404,
        _ => 500,
    }
}

/// The verbosity at which `e` is logged.
pub open spec fn severity_of(e: Error) -> Severity {
    if status_code(e) == 500 {
        Severity::Error
    } else if e is InvalidSignature {
        Severity::Warning
    } else {
        Severity::Debug
    }
}

/// The sentence shown for `e`.
pub open spec fn message_text(e: Error) -> Seq<char> {
    match e {
        Error::S3 => "S3 error"@,
        Error::Redis => "Redis error"@,
        Error::Http => "HTTP error"@,
        Error::DiscordApiRequestValidate => "Discord API HTTP error"@,
        Error::DiscordApiHttp => "Discord API HTTP error"@,
        Error::DiscordApiDeserializeModel => "Discord API model error"@,
        Error::Askama => "Templating error"@,
        Error::Json => "JSON error"@,
        Error::Image => "Image load error"@,
        Error::OAuth2RequestToken => "OAuth2 token error"@,
        Error::OAuth2Url => "OAuth2 URL parse error"@,
        Error::Join => "Join error"@,
        Error::CodeExchangeFailed => "OAuth2 Code Exchange failed"@,
        Error::MissingHeader(name) => "Missing required header with name "@ + name@,
        Error::WebPStr(detail) => "WebP reported an unusual error: "@ + detail@,
        Error::InvalidSignature(_) => "Failed to extract secure interaction"@,
        Error::InvalidState => "Invalid OAuth2 State"@,
        Error::NoPermissions => "You do not have the required role to access this application"@,
        Error::Unauthorized => "You must authenticate to use this application"@,
        Error::NotFound => "404 Page Not Found"@,
        Error::MissingCommandData => "Discord did not send CommandData!"@,
        Error::MissingTarget => "Missing target ID"@,
        Error::NoResolvedData => "Missing discord resolved data"@,
        Error::MessageNotFound => "Message not sent in resolved data"@,
    }
}

impl Error {
    /// The HTTP status with which this failure is answered.
    pub fn status(&self) -> (code: u16)
        ensures
            code == status_code(*self),
    {
        match self {
            Error::S3
            | Error::Redis
            | Error::Http
            | Error::DiscordApiRequestValidate
            | Error::DiscordApiHttp
            | Error::DiscordApiDeserializeModel
            | Error::Askama
            | Error::Json
            | Error::Join
            | Error::OAuth2Url
            | Error::OAuth2RequestToken
            | Error::WebPStr(_)
            | Error::MissingCommandData
            | Error::MissingTarget
            | Error::NoResolvedData
            | Error::MessageNotFound => 500,
            Error::InvalidState | Error::CodeExchangeFailed | Error::Image => 400,
            Error::NoPermissions => 403,
            Error::Unauthorized | Error::MissingHeader(_) | Error::InvalidSignature(_) => 401,
            Error::NotFound => 404,
        }
    }

    /// The verbosity at which this failure is logged.
    pub fn severity(&self) -> (level: Severity)
        ensures
            level == severity_of(*self),
    {
        if self.status() == 500 {
            Severity::Error
        } else {
            match self {
                Error::InvalidSignature(_) => Severity::Warning,
                _ => Severity::Debug,
            }
        }
    }

    /// The sentence shown to the user for this failure.
    pub fn message(&self) -> (text: String)
        ensures
            text@ == message_text(*self),
    {
        match self {
            Error::S3 => String::from_str("S3 error"),
            Error::Redis => String::from_str("Redis error"),
            Error::Http => String::from_str("HTTP error"),
            Error::DiscordApiRequestValidate => String::from_str("Discord API HTTP error"),
            Error::DiscordApiHttp => String::from_str("Discord API HTTP error"),
            Error::DiscordApiDeserializeModel => String::from_str("Discord API model error"),
            Error::Askama => String::from_str("Templating error"),
            Error::Json => String::from_str("JSON error"),
            Error::Image => String::from_str("Image load error"),
            Error::OAuth2RequestToken => String::from_str("OAuth2 token error"),
            Error::OAuth2Url => String::from_str("OAuth2 URL parse error"),
            Error::Join => String::from_str("Join error"),
            Error::CodeExchangeFailed => String::from_str("OAuth2 Code Exchange failed"),
            Error::MissingHeader(name) => String::from_str(
                "Missing required header with name ",
            ).concat(name),
            Error::WebPStr(detail) => String::from_str("WebP reported an unusual error: ").concat(
                detail.as_str(),
            ),
            Error::InvalidSignature(_) => String::from_str("Failed to extract secure interaction"),
            Error::InvalidState => String::from_str("Invalid OAuth2 State"),
            Error::NoPermissions => String::from_str(
                "You do not have the required role to access this application",
            ),
            Error::Unauthorized => String::from_str(
                "You must authenticate to use this application",
            ),
            Error::NotFound => String::from_str("404 Page Not Found"),
            Error::MissingCommandData => String::from_str("Discord did not send CommandData!"),
            Error::MissingTarget => String::from_str("Missing target ID"),
            Error::NoResolvedData => String::from_str("Missing discord resolved data"),
            Error::MessageNotFound => String::from_str("Message not sent in resolved data"),
        }
    }
}

} // verus!
