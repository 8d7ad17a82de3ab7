//! The credentials record and the lookups that produce it.

use vstd::prelude::*;
use vstd::std_specs::cmp::PartialEqSpecImpl;

use crate::environment::{EnvVar, Environment};
use crate::error::{CredentialsError, CredentialsErrorView};
use crate::location::{default_creds_file, named_path, named_store_path};
use crate::store::{read_store, RowRead, StoreRead};

verus! {

/// Holds the application key id and application key which make up your
/// credentials
#[derive(Debug)]
pub struct Credentials {
    /// The application key id
    pub application_key_id: String,
    /// The application key
    pub application_key: String,
}

/// A [`Credentials`] record with its two texts as sequences of characters.
pub struct CredentialsView {
    /// The application key id
    pub application_key_id: Seq<char>,
    /// The application key
    pub application_key: Seq<char>,
}

/// What a lookup comes to: the record that was found, or why none was.
pub type Outcome = Result<CredentialsView, CredentialsErrorView>;

impl View for Credentials {
    type V = CredentialsView;

    open spec fn view(&self) -> CredentialsView {
        CredentialsView {
            application_key_id: self.application_key_id@,
            application_key: self.application_key@,
        }
    }
}

impl PartialEq for Credentials {
    fn eq(&self, other: &Credentials) -> (equal: bool) {
        self.application_key_id == other.application_key_id && self.application_key
            == other.application_key
    }
}

impl PartialEqSpecImpl for Credentials {
    open spec fn obeys_eq_spec() -> bool {
        true
    }

    open spec fn eq_spec(&self, other: &Credentials) -> bool {
        self@ == other@
    }
}

impl Eq for Credentials {

}

impl Clone for Credentials {
    fn clone(&self) -> (copy: Credentials)
        ensures
            copy == *self,
    {
        Credentials {
            application_key_id: self.application_key_id.clone(),
            application_key: self.application_key.clone(),
        }
    }
}

/// The view of a lookup's result.
pub open spec fn outcome_view(found: Result<Credentials, CredentialsError>) -> Outcome {
    match found {
        Ok(credentials) => Ok(credentials@),
        Err(error) => Err(error@),
    }
}

/// What the environment holds as credentials. The key is looked at before
/// the key id, and the first of the two that is not set to valid Unicode
/// decides how the lookup fails.
pub open spec fn env_credentials(env: Environment) -> Outcome {
    match env.application_key {
        EnvVar::NotPresent => Err(CredentialsErrorView::NoCreds),
        EnvVar::NotUnicode(raw) => Err(CredentialsErrorView::Env(raw@)),
        EnvVar::Present(key) => match env.application_key_id {
            EnvVar::NotPresent => Err(CredentialsErrorView::NoCreds),
            EnvVar::NotUnicode(raw) => Err(CredentialsErrorView::Env(raw@)),
            EnvVar::Present(key_id) => Ok(
                CredentialsView { application_key_id: key_id@, application_key: key@ },
            ),
        },
    }
}

/// Whether the step at `index` decides a lookup over `steps`: it is the first
/// that did anything but reach a row without a record.
pub open spec fn is_deciding_step(steps: Seq<RowRead>, index: int) -> bool {
    &&& 0 <= index < steps.len()
    &&& steps[index] != Ok::<Option<Credentials>, rusqlite::Error>(None)
    &&& forall|earlier: int|
        0 <= earlier < index ==> #[trigger] steps[earlier] == Ok::<
            Option<Credentials>,
            rusqlite::Error,
        >(None)
}

/// The step that decides a lookup over `steps`, if one does.
pub open spec fn deciding_step(steps: Seq<RowRead>) -> Option<int> {
    if exists|index: int| is_deciding_step(steps, index) {
        Some(choose|index: int| is_deciding_step(steps, index))
    } else {
        None
    }
}

/// What a lookup makes of the steps of an account query. Rows without a
/// record are passed over. The first step that reached a record gives the
/// credentials; one that failed before that gives its error. A query that
/// ends before either holds no credentials.
pub open spec fn steps_lookup(steps: Seq<RowRead>) -> Outcome {
    match deciding_step(steps) {
        Some(index) => match steps[index] {
            Ok(Some(credentials)) => Ok(credentials@),
            Ok(None) => Err(CredentialsErrorView::NoCreds),
            Err(error) => Err(CredentialsErrorView::SqlLite(error)),
        },
        None => Err(CredentialsErrorView::NoCreds),
    }
}

/// What a lookup makes of what was found at the path of the account-info
/// file. A path at which nothing exists holds no credentials.
pub open spec fn store_lookup(read: StoreRead) -> Outcome {
    match read {
        StoreRead::Missing => Err(CredentialsErrorView::NoCreds),
        StoreRead::Unreachable(error) => Err(CredentialsErrorView::Io(error)),
        StoreRead::Failed(error) => Err(CredentialsErrorView::SqlLite(error)),
        StoreRead::Accounts(steps) => steps_lookup(steps@),
    }
}

/// What a lookup in the account-info file comes to, where `home` is the home
/// directory as it was determined and `read` what was found at the path of
/// the file. The home directory only matters where neither the caller nor
/// the environment names a path.
pub open spec fn file_lookup(
    db_path: Option<&str>,
    account_info: EnvVar,
    home: Option<Seq<char>>,
    read: StoreRead,
) -> Outcome {
    match named_store_path(db_path, account_info) {
        Err(refusal) => Err(refusal),
        Ok(Some(_)) => store_lookup(read),
        Ok(None) => match home {
            Some(_) => store_lookup(read),
            None => Err(CredentialsErrorView::NoBaseDirs),
        },
    }
}

/// What the search through both sources comes to. Whatever keeps the
/// environment from yielding credentials, the account-info file is tried
/// next, at the path that the environment names or else at the default one.
pub open spec fn default_lookup(env: Environment, home: Option<Seq<char>>, read: StoreRead) -> Outcome {
    match env_credentials(env) {
        Ok(credentials) => Ok(credentials),
        Err(_) => file_lookup(None, env.account_info, home, read),
    }
}

impl Credentials {
    /// Returns the default credentials for b2. This function will search for b2
    /// credentials in the following order:
    ///
    /// 1. In what `env` holds of the B2_APPLICATION_KEY and
    ///    B2_APPLICATION_KEY_ID environmental variables
    ///
    /// 2. In the sqlite database pointed to by the environmental variable
    ///    B2_ACCOUNT_INFO
    ///
    /// 3. In the default sqlite database ~/.b2_account_info
    ///
    /// Whatever keeps the environment from yielding credentials, the file is
    /// tried next. If that search runs into an unexpected error, that error is
    /// returned. Otherwise `CredentialsError::NoCreds` is returned.
    ///
    /// The result is [`default_lookup`] of the environment and of what was
    /// found on this machine; with both variables set it is their values,
    /// whatever is on disk.
    pub fn default(env: &Environment) -> (found: Result<Credentials, CredentialsError>)
        ensures
            env_credentials(*env) is Ok ==> outcome_view(found) == env_credentials(*env),
            exists|home: Option<Seq<char>>, read: StoreRead|
                outcome_view(found) == #[trigger] default_lookup(*env, home, read),
    {
        match Self::from_env(env) {
            Ok(credentials) => {
                assert(outcome_view(Ok(credentials)) == default_lookup(
                    *env,
                    None,
                    StoreRead::Missing,
                ));
                Ok(credentials)
            },
            Err(_) => {
                let found = Self::from_file(None, None, env);
                proof {
                    let (home, read) = choose|home: Option<Seq<char>>, read: StoreRead|
                        outcome_view(found) == #[trigger] file_lookup(
                            None,
                            env.account_info,
                            home,
                            read,
                        );
                    assert(outcome_view(found) == default_lookup(*env, home, read));
                }
                found
            },
        }
    }

    /// Attempts to extract b2 credentials from environmental variables.
    /// Specifically, it reads what `env` holds of the B2_APPLICATION_KEY and
    /// B2_APPLICATION_KEY_ID environmental variables.
    ///
    /// Succeeds only where both are set to valid Unicode. Fails with
    /// [`CredentialsError::NoCreds`] where one is not set, and with
    /// [`CredentialsError::Env`] where one is set to something else.
    pub fn from_env(env: &Environment) -> (found: Result<Credentials, CredentialsError>)
        ensures
            outcome_view(found) == env_credentials(*env),
    {
        let key = match &env.application_key {
            EnvVar::Present(value) => value.clone(),
            EnvVar::NotPresent => return Err(CredentialsError::NoCreds),
            EnvVar::NotUnicode(raw) => return Err(CredentialsError::Env(raw.clone())),
        };
        let key_id = match &env.application_key_id {
            EnvVar::Present(value) => value.clone(),
            EnvVar::NotPresent => return Err(CredentialsError::NoCreds),
            EnvVar::NotUnicode(raw) => return Err(CredentialsError::Env(raw.clone())),
        };
        Ok(Credentials { application_key_id: key_id, application_key: key })
    }

    /// Attempts to extract b2 credentials from a b2 account info file. The path
    /// to this file may be specified via the `db_path` argument. If that argument
    /// is None, the path that `env` holds for the variable B2_ACCOUNT_INFO is
    /// used, and if that variable is not set, the path searched defaults to
    /// ~/.b2_account_info.
    ///
    /// The account info file may have multiple accounts stored inside. By
    /// default, the first account is chosen, but users may pick another by
    /// setting the `account_id` argument.
    ///
    /// # Arguments
    ///
    /// * `db_path` - The (optional) path to the credentials. If not set, it
    ///               defaults to the B2_ACCOUNT_INFO env variable and then ~/.b2_account_info.
    ///
    /// * `account_id` - The ID of the account whose credentials we are querying
    ///                  for. If None, the first account is used.
    ///
    /// * `env` - The environment as the caller found it.
    ///
    /// The result is [`file_lookup`] of the arguments and of what was found on
    /// this machine.
    pub fn from_file(db_path: Option<&str>, account_id: Option<&str>, env: &Environment) -> (found:
        Result<Credentials, CredentialsError>)
        ensures
            named_store_path(db_path, env.account_info) matches Err(refusal) ==> outcome_view(found)
                == Err::<CredentialsView, CredentialsErrorView>(refusal),
            exists|home: Option<Seq<char>>, read: StoreRead|
                outcome_view(found) == #[trigger] file_lookup(
                    db_path,
                    env.account_info,
                    home,
                    read,
                ),
    {
        let path = match named_path(db_path, &env.account_info) {
            Ok(Some(path)) => path,
            Ok(None) => match default_creds_file() {
                Ok(path) => path,
                Err(error) => {
                    assert(outcome_view(Err(error)) == file_lookup(
                        db_path,
                        env.account_info,
                        None,
                        StoreRead::Missing,
                    ));
                    return Err(error);
                },
            },
            Err(error) => {
                assert(outcome_view(Err(error)) == file_lookup(
                    db_path,
                    env.account_info,
                    None,
                    StoreRead::Missing,
                ));
                return Err(error);
            },
        };
        let found = Self::from_file_internal(path.as_str(), account_id);
        proof {
            let read = choose|read: StoreRead| outcome_view(found) == #[trigger] store_lookup(read);
            assert(outcome_view(found) == file_lookup(
                db_path,
                env.account_info,
                Some(path@),
                read,
            ));
        }
        found
    }

    fn from_file_internal(db_path: &str, account_id: Option<&str>) -> (found: Result<
        Credentials,
        CredentialsError,
    >)
        ensures
            exists|read: StoreRead| outcome_view(found) == #[trigger] store_lookup(read),
    {
        Self::from_store(read_store(db_path, account_id))
    }

    /// Picks the credentials out of what was found at the path of the
    /// account-info file.
    pub fn from_store(read: StoreRead) -> (found: Result<Credentials, CredentialsError>)
        ensures
            outcome_view(found) == store_lookup(read),
    {
        match read {
            StoreRead::Missing => Err(CredentialsError::NoCreds),
            StoreRead::Unreachable(error) => Err(CredentialsError::Io(error)),
            StoreRead::Failed(error) => Err(CredentialsError::SqlLite(error)),
            StoreRead::Accounts(steps) => Self::from_steps(steps),
        }
    }

    /// Picks the credentials out of the steps of an account query: rows
    /// without a record are passed over, and the first step that reached a
    /// record, or failed, decides.
    pub fn from_steps(steps: Vec<RowRead>) -> (found: Result<Credentials, CredentialsError>)
        ensures
            outcome_view(found) == steps_lookup(steps@),
    {
        let ghost all = steps@;
        for step in remaining: steps.into_iter()
            invariant
                remaining.seq() == all,
                forall|earlier: int|
                    0 <= earlier < remaining.index() ==> #[trigger] all[earlier] == Ok::<
                        Option<Credentials>,
                        rusqlite::Error,
                    >(None),
        {
            match step {
                Ok(Some(credentials)) => {
                    proof {
                        lemma_first_record_wins(all, remaining.index() as int);
                    }
                    return Ok(credentials);
                },
                Ok(None) => {},
                Err(error) => {
                    proof {
                        lemma_deciding_step_is_unique(all, remaining.index() as int);
                    }
                    return Err(CredentialsError::SqlLite(error));
                },
            }
        }
        proof {
            lemma_no_record_no_credentials(all);
        }
        Err(CredentialsError::NoCreds)
    }
}

/// At most one step decides a lookup.
pub proof fn lemma_deciding_step_is_unique(steps: Seq<RowRead>, index: int)
    requires
        is_deciding_step(steps, index),
    ensures
        deciding_step(steps) == Some(index),
{
    let chosen = choose|other: int| is_deciding_step(steps, other);
    if chosen < index {
        assert(steps[chosen] == Ok::<Option<Credentials>, rusqlite::Error>(None));
    } else if index < chosen {
        assert(steps[index] == Ok::<Option<Credentials>, rusqlite::Error>(None));
    }
}

/// With both variables set to valid Unicode, the environment yields exactly
/// their values, and the search through both sources yields the same,
/// whatever the home directory is and whatever is on disk.
pub proof fn lemma_environment_comes_first(
    env: Environment,
    key: String,
    key_id: String,
    home: Option<Seq<char>>,
    read: StoreRead,
)
    requires
        env.application_key == EnvVar::Present(key),
        env.application_key_id == EnvVar::Present(key_id),
    ensures
        env_credentials(env) == Ok::<CredentialsView, CredentialsErrorView>(
            CredentialsView { application_key_id: key_id@, application_key: key@ },
        ),
        default_lookup(env, home, read) == env_credentials(env),
{
}

/// Without both variables there are no credentials in the environment: where
/// neither is set, and where only one of the two is.
pub proof fn lemma_one_variable_is_not_enough(env: Environment)
    requires
        env.application_key is NotPresent || (env.application_key is Present
            && env.application_key_id is NotPresent),
    ensures
        env_credentials(env) == Err::<CredentialsView, CredentialsErrorView>(
            CredentialsErrorView::NoCreds,
        ),
{
}

/// The first row that holds a record is the one returned, whatever follows
/// it: where the step at `index` reached a record and every step before it a
/// row without one, the lookup gives that record.
pub proof fn lemma_first_record_wins(steps: Seq<RowRead>, index: int)
    requires
        0 <= index < steps.len(),
        steps[index] matches Ok(Some(_)),
        forall|earlier: int|
            0 <= earlier < index ==> #[trigger] steps[earlier] == Ok::<
                Option<Credentials>,
                rusqlite::Error,
            >(None),
    ensures
        steps_lookup(steps) == Ok::<CredentialsView, CredentialsErrorView>(
            steps[index]->Ok_0->Some_0@,
        ),
{
    lemma_deciding_step_is_unique(steps, index);
}

/// A query whose every step reached a row without a record, and so one that
/// reached no row at all, holds no credentials.
pub proof fn lemma_no_record_no_credentials(steps: Seq<RowRead>)
    requires
        forall|index: int|
            0 <= index < steps.len() ==> #[trigger] steps[index] == Ok::<
                Option<Credentials>,
                rusqlite::Error,
            >(None),
    ensures
        steps_lookup(steps) == Err::<CredentialsView, CredentialsErrorView>(
            CredentialsErrorView::NoCreds,
        ),
{
    assert(forall|index: int| !is_deciding_step(steps, index));
}

/// Looking twice gives the same answer, as long as the environment reads the
/// same and the same is found on the machine: whichever two results one of
/// the three lookups gave for them, they agree.
pub proof fn lemma_lookup_repeats(
    env: Environment,
    db_path: Option<&str>,
    home: Option<Seq<char>>,
    read: StoreRead,
    first: Result<Credentials, CredentialsError>,
    second: Result<Credentials, CredentialsError>,
)
    requires
        ({
            ||| outcome_view(first) == env_credentials(env) && outcome_view(second)
                == env_credentials(env)
            ||| outcome_view(first) == file_lookup(db_path, env.account_info, home, read)
                && outcome_view(second) == file_lookup(db_path, env.account_info, home, read)
            ||| outcome_view(first) == default_lookup(env, home, read) && outcome_view(second)
                == default_lookup(env, home, read)
        }),
    ensures
        outcome_view(first) == outcome_view(second),
{
}

} // verus!
