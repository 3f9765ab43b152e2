//! Errors and results of the application.
//!
//! Errors that come from other libraries are carried by the text that they
//! display, which is all that the application shows of them.

use vstd::prelude::*;

use crate::text::{i64_to_decimal, push_str, signed_decimal, string_of};

verus! {

/// Everything that can go wrong in the application.
#[derive(Debug)]
pub enum Error {
    ScreenAlreadyOpen,
    MissingDatabaseDir,
    LabelRequired,
    SecretRequired,
    EncryptionPasswordRequired,
    ConfirmPasswordMismatch,
    AccountNameSingleLine,
    SelectionRequired,
    /// An I/O error, by its text.
    Io(String),
    /// A UTF-8 decoding error, by its text.
    Utf8(String),
    /// A JSON error, by its text.
    Json(String),
    /// A database error, by its text.
    Db(String),
    /// An SQLite driver error, by its text.
    Sqlite(String),
    SchemaVersionMismatch { expected: i64, actual: i64 },
    /// A password hashing error, by its text.
    Argon2(String),
    XChaCha20Poly1305,
    Unpad,
    /// A key or nonce of the wrong length, by its text.
    InvalidLength(String),
    /// A clipboard error, by its text.
    Clipboard(String),
    InvalidChannelId(String),
    Url(String),
    /// A zone indexer error, by its text.
    ZoneIndexer(String),
    /// An error with a message that says what was being done.
    Context { message: String, source: String },
}

/// The text that an error displays.
pub open spec fn error_message(e: Error) -> Seq<char> {
    match e {
        Error::ScreenAlreadyOpen => "Can't re-open screen guard while one is already open"@,
        Error::MissingDatabaseDir => "Can't find database directory"@,
        Error::LabelRequired => "Label is required and must be a single line"@,
        Error::SecretRequired => "Secret is required"@,
        Error::EncryptionPasswordRequired =>
            "Encryption (master) password is required and must be a single line"@,
        Error::ConfirmPasswordMismatch => "Passwords do not match"@,
        Error::AccountNameSingleLine => "Account name must be a single line if specified"@,
        Error::SelectionRequired => "No item is currently selected"@,
        Error::Io(s) => "I/O error: "@ + s@,
        Error::Utf8(s) => "Secret is not valid UTF-8: "@ + s@,
        Error::Json(s) => "JSON error: "@ + s@,
        Error::Db(s) => "Database error: "@ + s@,
        Error::Sqlite(s) => "Rusqlite Database error: "@ + s@,
        Error::SchemaVersionMismatch { expected, actual } => "Database schema version too high: need <= "@
            + signed_decimal(expected as int) + ", got "@ + signed_decimal(actual as int),
        Error::Argon2(s) => "Password hashing error: "@ + s@,
        Error::XChaCha20Poly1305 => "Encryption, decryption, or authentication error"@,
        Error::Unpad => "Invalid padding in decrypted secret"@,
        Error::InvalidLength(s) => s@,
        Error::Clipboard(s) => s@,
        Error::InvalidChannelId(s) => s@,
        Error::Url(s) => "URL parse error: "@ + s@,
        Error::ZoneIndexer(s) => s@,
        Error::Context { message, source } => message@ + ": "@ + source@,
    }
}

/// `prefix` followed by `s`.
fn prefixed(prefix: &str, s: &String) -> (r: String)
    ensures
        r@ == prefix@ + s@,
{
    let mut r = string_of(prefix);
    push_str(&mut r, s.as_str());
    r
}

impl Error {
    /// Wraps the text of an error with a message that says what was being done.
    pub fn context(source: String, message: String) -> (r: Error)
        ensures
            r == (Error::Context { message, source }),
    {
        Error::Context { message, source }
    }

    /// The text that this error displays.
    pub fn message(&self) -> (r: String)
        ensures
            r@ == error_message(*self),
    {
        match self {
            Error::ScreenAlreadyOpen => string_of("Can't re-open screen guard while one is already open"),
            Error::MissingDatabaseDir => string_of("Can't find database directory"),
            Error::LabelRequired => string_of("Label is required and must be a single line"),
            Error::SecretRequired => string_of("Secret is required"),
            Error::EncryptionPasswordRequired => string_of(
                "Encryption (master) password is required and must be a single line",
            ),
            Error::ConfirmPasswordMismatch => string_of("Passwords do not match"),
            Error::AccountNameSingleLine => string_of("Account name must be a single line if specified"),
            Error::SelectionRequired => string_of("No item is currently selected"),
            Error::Io(s) => prefixed("I/O error: ", s),
            Error::Utf8(s) => prefixed("Secret is not valid UTF-8: ", s),
            Error::Json(s) => prefixed("JSON error: ", s),
            Error::Db(s) => prefixed("Database error: ", s),
            Error::Sqlite(s) => prefixed("Rusqlite Database error: ", s),
            Error::SchemaVersionMismatch { expected, actual } => {
                let mut r = string_of("Database schema version too high: need <= ");
                let e = i64_to_decimal(*expected);
                push_str(&mut r, e.as_str());
                push_str(&mut r, ", got ");
                let a = i64_to_decimal(*actual);
                push_str(&mut r, a.as_str());
                r
            },
            Error::Argon2(s) => prefixed("Password hashing error: ", s),
            Error::XChaCha20Poly1305 => string_of("Encryption, decryption, or authentication error"),
            Error::Unpad => string_of("Invalid padding in decrypted secret"),
            Error::InvalidLength(s) => string_of(s.as_str()),
            Error::Clipboard(s) => string_of(s.as_str()),
            Error::InvalidChannelId(s) => string_of(s.as_str()),
            Error::Url(s) => prefixed("URL parse error: ", s),
            Error::ZoneIndexer(s) => string_of(s.as_str()),
            Error::Context { message, source } => {
                let mut r = string_of(message.as_str());
                push_str(&mut r, ": ");
                push_str(&mut r, source.as_str());
                r
            },
        }
    }
}

/// A result whose error is an [`Error`].
pub type Result<T> = core::result::Result<T, Error>;

/// Adds a message that says what was being done to the error of a result.
pub trait ResultExt<T>: Sized {
    fn context(self, message: String) -> Result<T>;
}

impl<T> ResultExt<T> for core::result::Result<T, Error> {
    /// An error becomes a [`Error::Context`] whose source is the error's text;
    /// a success passes through.
    fn context(self, message: String) -> (r: Result<T>)
        ensures
            match self {
                Ok(v) => r == Ok::<T, Error>(v),
                Err(e) => r matches Err(Error::Context { message: m, source: s }) && m == message
                    && s@ == error_message(e),
            },
    {
        match self {
            Ok(v) => Ok(v),
            Err(e) => Err(Error::context(e.message(), message)),
        }
    }
}

impl<T> ResultExt<T> for core::result::Result<T, String> {
    /// An error, given by its text, becomes a [`Error::Context`] with that
    /// text as its source; a success passes through.
    fn context(self, message: String) -> (r: Result<T>)
        ensures
            match self {
                Ok(v) => r == Ok::<T, Error>(v),
                Err(e) => r == Err::<T, Error>(Error::Context { message, source: e }),
            },
    {
        match self {
            Ok(v) => Ok(v),
            Err(e) => Err(Error::context(e, message)),
        }
    }
}

} // verus!
