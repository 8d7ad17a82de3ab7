//! The part of the process environment that a lookup reads, as plain values.

use vstd::prelude::*;

verus! {

/// Name of the variable that holds the application key.
pub const KEY_ENV_VAR_NAME: &'static str = "B2_APPLICATION_KEY";

/// Name of the variable that holds the application key id.
pub const KEY_ID_ENV_VAR_NAME: &'static str = "B2_APPLICATION_KEY_ID";

/// Name of the variable that may name the account-info file.
pub const ACCOUNT_INFO_ENV_VAR_NAME: &'static str = "B2_ACCOUNT_INFO";

/// How one environment variable was found.
#[derive(Debug, PartialEq, Eq)]
pub enum EnvVar {
    /// The variable is not set.
    NotPresent,
    /// The variable is set, but not to valid Unicode. Holds the value with
    /// every undecodable part replaced by U+FFFD.
    NotUnicode(String),
    /// The variable is set to this text.
    Present(String),
}

/// The three variables that a lookup reads, each as it was found.
#[derive(Debug, PartialEq, Eq)]
pub struct Environment {
    /// `B2_APPLICATION_KEY`
    pub application_key: EnvVar,
    /// `B2_APPLICATION_KEY_ID`
    pub application_key_id: EnvVar,
    /// `B2_ACCOUNT_INFO`
    pub account_info: EnvVar,
}

impl Clone for EnvVar {
    fn clone(&self) -> (copy: EnvVar)
        ensures
            copy == *self,
    {
        match self {
            EnvVar::NotPresent => EnvVar::NotPresent,
            EnvVar::NotUnicode(raw) => EnvVar::NotUnicode(raw.clone()),
            EnvVar::Present(value) => EnvVar::Present(value.clone()),
        }
    }
}

impl Clone for Environment {
    fn clone(&self) -> (copy: Environment)
        ensures
            copy == *self,
    {
        Environment {
            application_key: self.application_key.clone(),
            application_key_id: self.application_key_id.clone(),
            account_info: self.account_info.clone(),
        }
    }
}

} // verus!
