//! Error types, their text, and how each is shown to a caller over HTTP.

use vstd::prelude::*;

use crate::text::{decimal_text, i64_to_string};

verus! {

/// A failure of the storage layer.
#[derive(Debug)]
pub enum StorageError {
    /// A database query failed.
    Database(String),
    /// Any other storage failure.
    Other(String),
}

/// What a `StorageError` holds, as plain values.
pub ghost enum StorageErrorView {
    Database(Seq<char>),
    Other(Seq<char>),
}

impl View for StorageError {
    type V = StorageErrorView;

    open spec fn view(&self) -> StorageErrorView {
        match self {
            StorageError::Database(m) => StorageErrorView::Database(m@),
            StorageError::Other(m) => StorageErrorView::Other(m@),
        }
    }
}

impl StorageErrorView {
    /// The text of the error.
    pub open spec fn text(self) -> Seq<char> {
        match self {
            StorageErrorView::Database(m) => "database error: "@ + m,
            StorageErrorView::Other(m) => "storage error: "@ + m,
        }
    }
}

impl StorageError {
    /// The text of the error.
    pub fn to_string(&self) -> (s: String)
        ensures
            s@ == self@.text(),
    {
        match self {
            StorageError::Database(m) => prefixed("database error: ", m.as_str()),
            StorageError::Other(m) => prefixed("storage error: ", m.as_str()),
        }
    }
}

/// A storage error with the given message.
pub fn storage_error(msg: &str) -> (e: StorageError)
    ensures
        e@ == StorageErrorView::Other(msg@),
{
    StorageError::Other(msg.to_owned())
}

/// An error of an OAuth operation.
#[derive(Debug)]
pub enum Error {
    /// A storage operation failed.
    Storage(StorageError),
    /// A request to the Discord API failed or its answer was malformed.
    DiscordApi(String),
    /// A session token could not be signed.
    Jwt(String),
    /// Encryption or decryption failed.
    Encryption(String),
    /// No user has this id.
    UserNotFound(i64),
    /// A credential was missing, invalid or expired.
    AuthFailed(String),
    /// The caller's input was malformed.
    InvalidRequest(String),
    /// The service itself failed, in a way that none of the others names.
    Internal(String),
}

/// What an `Error` holds, as plain values.
pub ghost enum ErrorView {
    Storage(StorageErrorView),
    DiscordApi(Seq<char>),
    Jwt(Seq<char>),
    Encryption(Seq<char>),
    UserNotFound(i64),
    AuthFailed(Seq<char>),
    InvalidRequest(Seq<char>),
    Internal(Seq<char>),
}

impl View for Error {
    type V = ErrorView;

    open spec fn view(&self) -> ErrorView {
        match self {
            Error::Storage(e) => ErrorView::Storage(e@),
            Error::DiscordApi(m) => ErrorView::DiscordApi(m@),
            Error::Jwt(m) => ErrorView::Jwt(m@),
            Error::Encryption(m) => ErrorView::Encryption(m@),
            Error::UserNotFound(id) => ErrorView::UserNotFound(*id),
            Error::AuthFailed(m) => ErrorView::AuthFailed(m@),
            Error::InvalidRequest(m) => ErrorView::InvalidRequest(m@),
            Error::Internal(m) => ErrorView::Internal(m@),
        }
    }
}

impl ErrorView {
    /// The text of the error.
    pub open spec fn text(self) -> Seq<char> {
        match self {
            ErrorView::Storage(e) => "storage error: "@ + e.text(),
            ErrorView::DiscordApi(m) => "discord API error: "@ + m,
            ErrorView::Jwt(m) => "JWT error: "@ + m,
            ErrorView::Encryption(m) => "encryption error: "@ + m,
            ErrorView::UserNotFound(id) => "user not found: "@ + decimal_text(id as int),
            ErrorView::AuthFailed(m) => "authentication failed: "@ + m,
            ErrorView::InvalidRequest(m) => "invalid request: "@ + m,
            ErrorView::Internal(m) => "internal error: "@ + m,
        }
    }

    /// The HTTP status under which the error is shown: storage, encryption
    /// and internal failures are internal errors, a Discord failure is a bad
    /// gateway, token and credential failures are unauthorized.
    pub open spec fn status_code(self) -> u16 {
        match self {
            ErrorView::Storage(_) => 500,
            ErrorView::DiscordApi(_) => 502,
            ErrorView::Jwt(_) => 401,
            ErrorView::Encryption(_) => 500,
            ErrorView::UserNotFound(_) => 404,
            ErrorView::AuthFailed(_) => 401,
            ErrorView::InvalidRequest(_) => 400,
            ErrorView::Internal(_) => 500,
        }
    }

    /// The message shown with the status. Token, encryption and internal
    /// failures show a fixed message, so that no detail of them leaves the
    /// process.
    pub open spec fn response_message(self) -> Seq<char> {
        match self {
            ErrorView::Jwt(_) => "invalid token"@,
            ErrorView::Encryption(_) => "encryption error"@,
            ErrorView::Internal(_) => "internal error"@,
            _ => self.text(),
        }
    }
}

/// A result that carries text, as plain values.
pub open spec fn text_result(r: Result<String, Error>) -> Result<Seq<char>, ErrorView> {
    match r {
        Ok(s) => Ok(s@),
        Err(e) => Err(e@),
    }
}

fn prefixed(prefix: &str, rest: &str) -> (s: String)
    ensures
        s@ == prefix@ + rest@,
{
    let mut s = String::from_str(prefix);
    s.append(rest);
    s
}

impl Error {
    /// The text of the error.
    pub fn to_string(&self) -> (s: String)
        ensures
            s@ == self@.text(),
    {
        match self {
            Error::Storage(e) => {
                let inner = e.to_string();
                prefixed("storage error: ", inner.as_str())
            },
            Error::DiscordApi(m) => prefixed("discord API error: ", m.as_str()),
            Error::Jwt(m) => prefixed("JWT error: ", m.as_str()),
            Error::Encryption(m) => prefixed("encryption error: ", m.as_str()),
            Error::UserNotFound(id) => {
                let number = i64_to_string(*id);
                prefixed("user not found: ", number.as_str())
            },
            Error::AuthFailed(m) => prefixed("authentication failed: ", m.as_str()),
            Error::InvalidRequest(m) => prefixed("invalid request: ", m.as_str()),
            Error::Internal(m) => prefixed("internal error: ", m.as_str()),
        }
    }

    /// The HTTP status under which the error is shown.
    pub fn status_code(&self) -> (status: u16)
        ensures
            status == self@.status_code(),
    {
        match self {
            Error::Storage(_) => 500,
            Error::DiscordApi(_) => 502,
            Error::Jwt(_) => 401,
            Error::Encryption(_) => 500,
            Error::UserNotFound(_) => 404,
            Error::AuthFailed(_) => 401,
            Error::InvalidRequest(_) => 400,
            Error::Internal(_) => 500,
        }
    }

    /// The message shown with the status.
    pub fn response_message(&self) -> (message: String)
        ensures
            message@ == self@.response_message(),
    {
        match self {
            Error::Jwt(_) => String::from_str("invalid token"),
            Error::Encryption(_) => String::from_str("encryption error"),
            Error::Internal(_) => String::from_str("internal error"),
            _ => self.to_string(),
        }
    }

    /// Status and message of the HTTP response that shows the error.
    pub fn into_response(self) -> (response: (u16, String))
        ensures
            response.0 == self@.status_code(),
            response.1@ == self@.response_message(),
    {
        (self.status_code(), self.response_message())
    }
}

impl From<StorageError> for Error {
    fn from(e: StorageError) -> (r: Error) {
        Error::Storage(e)
    }
}

impl vstd::std_specs::convert::FromSpecImpl<StorageError> for Error {
    open spec fn obeys_from_spec() -> bool {
        true
    }

    open spec fn from_spec(e: StorageError) -> Error {
        Error::Storage(e)
    }
}

} // verus!
