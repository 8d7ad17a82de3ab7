//! Where the account-info file is looked for.

use vstd::prelude::*;
use vstd::string::StringExecFns;

use crate::environment::EnvVar;
use crate::error::{CredentialsError, CredentialsErrorView};

verus! {

/// Name of the account-info file in the home directory.
pub const DEFAULT_FILE_NAME: &'static str = ".b2_account_info";

/// What stands between a directory and the name of a file in it.
pub const SEPARATOR: &'static str = "/";

/// The path of the account-info file of the user whose home directory is
/// `home`.
pub open spec fn creds_file_in(home: Seq<char>) -> Seq<char> {
    home + SEPARATOR@ + DEFAULT_FILE_NAME@
}

/// The path that a lookup in the account-info file is told to use: the one
/// given by the caller, else the one that the `B2_ACCOUNT_INFO` variable
/// names. `Ok(None)` where neither names one; an error where the caller
/// names none and the variable is set to something that is not valid
/// Unicode.
pub open spec fn named_store_path(db_path: Option<&str>, account_info: EnvVar) -> Result<
    Option<Seq<char>>,
    CredentialsErrorView,
> {
    match db_path {
        Some(path) => Ok(Some(path@)),
        None => match account_info {
            EnvVar::Present(path) => Ok(Some(path@)),
            EnvVar::NotUnicode(raw) => Err(CredentialsErrorView::Env(raw@)),
            EnvVar::NotPresent => Ok(None),
        },
    }
}

/// Asks `directories::BaseDirs::new` for the directories of the current user
/// and hands out the home directory among them as text, by
/// `std::path::Path::to_str`: a home directory whose path is not valid
/// Unicode cannot be handed out, and counts as none. Nothing is claimed of
/// the result: it is read from the environment of the process and the user
/// database.
#[verifier::external_body]
fn home_directory() -> (home: Option<String>) {
    directories::BaseDirs::new().and_then(|dirs| dirs.home_dir().to_str().map(str::to_owned))
}

/// Returns the path of the account-info file in the home directory `home`.
pub fn default_creds_file_in(home: &str) -> (path: String)
    ensures
        path@ == creds_file_in(home@),
{
    String::from_str(home).concat(SEPARATOR).concat(DEFAULT_FILE_NAME)
}

/// Returns the path of the account-info file for a home directory as it was
/// determined: the file in it, or [`CredentialsError::NoBaseDirs`] where
/// there is none.
pub fn creds_file_of(home: Option<String>) -> (path: Result<String, CredentialsError>)
    ensures
        match home {
            Some(directory) => path matches Ok(file) && file@ == creds_file_in(directory@),
            None => path matches Err(error) && error == CredentialsError::NoBaseDirs,
        },
{
    match home {
        Some(directory) => Ok(default_creds_file_in(directory.as_str())),
        None => Err(CredentialsError::NoBaseDirs),
    }
}

/// Returns the default credentials file path: the account-info file in the
/// home directory of the current user. Fails with
/// [`CredentialsError::NoBaseDirs`] where no home directory can be
/// determined, or none that is valid Unicode.
pub fn default_creds_file() -> (path: Result<String, CredentialsError>)
    ensures
        match path {
            Ok(file) => exists|home: Seq<char>| file@ == #[trigger] creds_file_in(home),
            Err(error) => error == CredentialsError::NoBaseDirs,
        },
{
    creds_file_of(home_directory())
}

/// Returns the path that the caller or the environment names for the
/// account-info file, if either does: `db_path` where it is given, else the
/// value of `account_info` where that is set. Fails with
/// [`CredentialsError::Env`] where the variable is needed and holds something
/// that is not valid Unicode.
pub fn named_path(db_path: Option<&str>, account_info: &EnvVar) -> (path: Result<
    Option<String>,
    CredentialsError,
>)
    ensures
        match path {
            Ok(Some(named)) => named_store_path(db_path, *account_info) == Ok::<
                Option<Seq<char>>,
                CredentialsErrorView,
            >(Some(named@)),
            Ok(None) => named_store_path(db_path, *account_info) == Ok::<
                Option<Seq<char>>,
                CredentialsErrorView,
            >(None),
            Err(error) => named_store_path(db_path, *account_info) == Err::<
                Option<Seq<char>>,
                CredentialsErrorView,
            >(error@),
        },
{
    match db_path {
        Some(path) => Ok(Some(path.to_owned())),
        None => match account_info {
            EnvVar::Present(path) => Ok(Some(path.clone())),
            EnvVar::NotUnicode(raw) => Err(CredentialsError::Env(raw.clone())),
            EnvVar::NotPresent => Ok(None),
        },
    }
}

} // verus!
