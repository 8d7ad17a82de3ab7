//! Locates Backblaze B2 credentials following the same logic as the B2
//! command-line tool: first the process environment, then the account-info
//! database that the tool keeps.
//!
//! The environment is handed in as an [`Environment`]: the caller reads the
//! three variables named in [`environment`] and says how each was found.
//!
//! Look at [`Credentials::default`], [`Credentials::from_env`] and
//! [`Credentials::from_file`] to understand how credentials are found.

pub mod credentials;
pub mod environment;
pub mod error;
pub mod location;
pub mod store;

pub use credentials::{Credentials, CredentialsView, Outcome};
pub use environment::{EnvVar, Environment};
pub use error::{CredentialsError, CredentialsErrorView};
pub use location::default_creds_file;
pub use store::{RowRead, StoreRead};
