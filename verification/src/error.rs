//! The ways in which a credentials lookup can fail.

use vstd::prelude::*;

verus! {

/// `rusqlite::Error`, carried through unopened inside
/// [`CredentialsError::SqlLite`].
#[verifier::external_type_specification]
#[verifier::external_body]
pub struct ExSqliteError(rusqlite::Error);

/// `std::io::Error`, carried through unopened inside
/// [`CredentialsError::Io`].
#[verifier::external_type_specification]
#[verifier::external_body]
pub struct ExIoError(std::io::Error);

/// Error enum for crate functions. Used for all `Result` returns as the error
/// enum.
#[derive(Debug)]
pub enum CredentialsError {
    /// A fault of the file system, other than the file being absent.
    Io(std::io::Error),
    /// The account-info file is there, but SQLite could not open or query it.
    SqlLite(rusqlite::Error),
    /// An environment variable is set to something that is not valid Unicode.
    /// Holds the value with every undecodable part replaced by U+FFFD.
    Env(String),
    /// Set when no credentials exist
    NoCreds,
    /// Set when it's impossible to find your base directory, or to write its
    /// path as Unicode text
    NoBaseDirs,
}

/// A [`CredentialsError`] with its text as a sequence of characters.
pub enum CredentialsErrorView {
    /// The fault of the file system, as it was reported.
    Io(std::io::Error),
    /// The error of SQLite, as it was reported.
    SqlLite(rusqlite::Error),
    /// The undecodable value, with U+FFFD in place of what could not be read.
    Env(Seq<char>),
    /// No usable credentials where they were looked for.
    NoCreds,
    /// No home directory.
    NoBaseDirs,
}

impl View for CredentialsError {
    type V = CredentialsErrorView;

    open spec fn view(&self) -> CredentialsErrorView {
        match *self {
            CredentialsError::Io(error) => CredentialsErrorView::Io(error),
            CredentialsError::SqlLite(error) => CredentialsErrorView::SqlLite(error),
            CredentialsError::Env(raw) => CredentialsErrorView::Env(raw@),
            CredentialsError::NoCreds => CredentialsErrorView::NoCreds,
            CredentialsError::NoBaseDirs => CredentialsErrorView::NoBaseDirs,
        }
    }
}

/// The sentence that describes each kind of error.
pub open spec fn error_message(error: CredentialsErrorView) -> Seq<char> {
    match error {
        CredentialsErrorView::Io(_) => "Failed to read credentials file"@,
        CredentialsErrorView::SqlLite(_) => "Failed to parse sqlite file"@,
        CredentialsErrorView::Env(_) => "Failed to parse env vars"@,
        CredentialsErrorView::NoCreds => "No credentials exist"@,
        CredentialsErrorView::NoBaseDirs =>
            "No base directory on this OS. Unable to find default b2 accounts"@,
    }
}

impl CredentialsError {
    /// Describes the error in one sentence.
    pub fn message(&self) -> (text: &'static str)
        ensures
            text@ == error_message(self@),
    {
        match self {
            CredentialsError::Io(_) => "Failed to read credentials file",
            CredentialsError::SqlLite(_) => "Failed to parse sqlite file",
            CredentialsError::Env(_) => "Failed to parse env vars",
            CredentialsError::NoCreds => "No credentials exist",
            CredentialsError::NoBaseDirs =>
                "No base directory on this OS. Unable to find default b2 accounts",
        }
    }
}

impl From<rusqlite::Error> for CredentialsError {
    fn from(error: rusqlite::Error) -> (converted: CredentialsError)
        ensures
            converted == CredentialsError::SqlLite(error),
    {
        CredentialsError::SqlLite(error)
    }
}

impl vstd::std_specs::convert::FromSpecImpl<rusqlite::Error> for CredentialsError {
    open spec fn obeys_from_spec() -> bool {
        true
    }

    open spec fn from_spec(error: rusqlite::Error) -> CredentialsError {
        CredentialsError::SqlLite(error)
    }
}

impl From<std::io::Error> for CredentialsError {
    fn from(error: std::io::Error) -> (converted: CredentialsError)
        ensures
            converted == CredentialsError::Io(error),
    {
        CredentialsError::Io(error)
    }
}

impl vstd::std_specs::convert::FromSpecImpl<std::io::Error> for CredentialsError {
    open spec fn obeys_from_spec() -> bool {
        true
    }

    open spec fn from_spec(error: std::io::Error) -> CredentialsError {
        CredentialsError::Io(error)
    }
}

} // verus!
