//! The error type that every economy rule reports.

use vstd::prelude::*;

verus! {

/// Why an economy operation was refused.
#[derive(Clone, Debug)]
pub enum AppError {
    /// A configuration value could not be used.
    Config(String),
    /// The runtime configuration carries no Discord token.
    MissingDiscordToken,
    /// A Manifold URL could not be parsed.
    Url(String),
    /// The request itself is malformed.
    Validation(String),
    /// Something the request names does not exist.
    NotFound(String),
    /// The request conflicts with the current state of the economy.
    Conflict(String),
    /// Data from outside the economy is missing or inconsistent.
    External(String),
    /// Stored data could not be interpreted.
    Other(String),
}

/// The variant of an [`AppError`], without its message.
#[derive(Clone, Copy, Debug, PartialEq, Eq, Structural)]
pub enum ErrorKind {
    Config,
    MissingDiscordToken,
    Url,
    Validation,
    NotFound,
    Conflict,
    External,
    Other,
}

impl AppError {
    /// The variant of this error.
    pub open spec fn kind(&self) -> ErrorKind {
        match self {
            AppError::Config(_) => ErrorKind::Config,
            AppError::MissingDiscordToken => ErrorKind::MissingDiscordToken,
            AppError::Url(_) => ErrorKind::Url,
            AppError::Validation(_) => ErrorKind::Validation,
            AppError::NotFound(_) => ErrorKind::NotFound,
            AppError::Conflict(_) => ErrorKind::Conflict,
            AppError::External(_) => ErrorKind::External,
            AppError::Other(_) => ErrorKind::Other,
        }
    }

    /// The text carried by this error (empty for the token error).
    pub open spec fn message(&self) -> Seq<char> {
        match self {
            AppError::Config(m) => m@,
            AppError::MissingDiscordToken => Seq::empty(),
            AppError::Url(m) => m@,
            AppError::Validation(m) => m@,
            AppError::NotFound(m) => m@,
            AppError::Conflict(m) => m@,
            AppError::External(m) => m@,
            AppError::Other(m) => m@,
        }
    }

    /// The kind of this error, computed.
    pub fn error_kind(&self) -> (k: ErrorKind)
        ensures
            k == self.kind(),
    {
        match self {
            AppError::Config(_) => ErrorKind::Config,
            AppError::MissingDiscordToken => ErrorKind::MissingDiscordToken,
            AppError::Url(_) => ErrorKind::Url,
            AppError::Validation(_) => ErrorKind::Validation,
            AppError::NotFound(_) => ErrorKind::NotFound,
            AppError::Conflict(_) => ErrorKind::Conflict,
            AppError::External(_) => ErrorKind::External,
            AppError::Other(_) => ErrorKind::Other,
        }
    }
}

/// `r` is an error of kind `k` carrying the text `m`.
pub open spec fn fails_with<T>(r: Result<T, AppError>, k: ErrorKind, m: Seq<char>) -> bool {
    r matches Err(e) && e.kind() == k && e.message() == m
}

/// A validation error with the given text.
pub fn validation(m: String) -> (e: AppError)
    ensures
        e.kind() == ErrorKind::Validation,
        e.message() == m@,
{
    AppError::Validation(m)
}

/// A not-found error with the given text.
pub fn not_found(m: String) -> (e: AppError)
    ensures
        e.kind() == ErrorKind::NotFound,
        e.message() == m@,
{
    AppError::NotFound(m)
}

/// A conflict error with the given text.
pub fn conflict(m: String) -> (e: AppError)
    ensures
        e.kind() == ErrorKind::Conflict,
        e.message() == m@,
{
    AppError::Conflict(m)
}

/// An external-data error with the given text.
pub fn external(m: String) -> (e: AppError)
    ensures
        e.kind() == ErrorKind::External,
        e.message() == m@,
{
    AppError::External(m)
}

} // verus!
