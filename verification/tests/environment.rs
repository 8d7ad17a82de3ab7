use b2creds::environment::{ACCOUNT_INFO_ENV_VAR_NAME, KEY_ENV_VAR_NAME, KEY_ID_ENV_VAR_NAME};
use b2creds::{Credentials, CredentialsError, EnvVar, Environment};

fn env_of(key: EnvVar, key_id: EnvVar) -> Environment {
    Environment { application_key: key, application_key_id: key_id, account_info: EnvVar::NotPresent }
}

fn present(text: &str) -> EnvVar {
    EnvVar::Present(text.to_string())
}

fn not_unicode(text: &str) -> EnvVar {
    EnvVar::NotUnicode(text.to_string())
}

#[test]
fn variable_names_are_those_of_the_b2_tool() {
    assert_eq!(KEY_ENV_VAR_NAME, "B2_APPLICATION_KEY");
    assert_eq!(KEY_ID_ENV_VAR_NAME, "B2_APPLICATION_KEY_ID");
    assert_eq!(ACCOUNT_INFO_ENV_VAR_NAME, "B2_ACCOUNT_INFO");
}

#[test]
fn from_env_returns_exactly_the_pair() {
    for (key, key_id) in [("key", "keyid"), ("", ""), ("K001 with space", "0012ab"), ("ключ", "鍵")] {
        let env = env_of(present(key), present(key_id));
        let found = Credentials::from_env(&env).unwrap();
        assert_eq!(
            found,
            Credentials { application_key_id: key_id.to_string(), application_key: key.to_string() }
        );
    }
}

#[test]
fn from_env_keeps_key_and_key_id_apart() {
    let env = env_of(present("the-key"), present("the-id"));
    let found = Credentials::from_env(&env).unwrap();
    assert_eq!(found.application_key, "the-key");
    assert_eq!(found.application_key_id, "the-id");
    assert_ne!(found.application_key, found.application_key_id);
}

#[test]
fn from_env_reports_an_undecodable_key() {
    let env = env_of(not_unicode("k\u{fffd}y"), present("keyid"));
    match Credentials::from_env(&env).unwrap_err() {
        CredentialsError::Env(raw) => assert_eq!(raw, "k\u{fffd}y"),
        other => panic!("unexpected error {:?}", other),
    }
}

#[test]
fn from_env_reports_an_undecodable_key_id() {
    let env = env_of(present("key"), not_unicode("\u{fffd}"));
    match Credentials::from_env(&env).unwrap_err() {
        CredentialsError::Env(raw) => assert_eq!(raw, "\u{fffd}"),
        other => panic!("unexpected error {:?}", other),
    }
}

#[test]
fn from_env_looks_at_the_key_first() {
    let env = env_of(EnvVar::NotPresent, not_unicode("\u{fffd}"));
    assert!(matches!(Credentials::from_env(&env).unwrap_err(), CredentialsError::NoCreds));

    let env = env_of(not_unicode("bad-key"), EnvVar::NotPresent);
    match Credentials::from_env(&env).unwrap_err() {
        CredentialsError::Env(raw) => assert_eq!(raw, "bad-key"),
        other => panic!("unexpected error {:?}", other),
    }

    let env = env_of(not_unicode("bad-key"), not_unicode("bad-id"));
    match Credentials::from_env(&env).unwrap_err() {
        CredentialsError::Env(raw) => assert_eq!(raw, "bad-key"),
        other => panic!("unexpected error {:?}", other),
    }
}

#[test]
fn from_env_ignores_the_account_info_variable() {
    let mut env = env_of(present("key"), present("keyid"));
    env.account_info = not_unicode("\u{fffd}");
    let found = Credentials::from_env(&env).unwrap();
    assert_eq!(found.application_key, "key");
    assert_eq!(found.application_key_id, "keyid");
}

#[test]
fn from_env_twice_gives_the_same() {
    let env = env_of(present("key"), present("keyid"));
    assert_eq!(Credentials::from_env(&env).unwrap(), Credentials::from_env(&env).unwrap());

    let env = env_of(present("key"), EnvVar::NotPresent);
    let first = Credentials::from_env(&env).unwrap_err();
    let second = Credentials::from_env(&env).unwrap_err();
    assert!(matches!(first, CredentialsError::NoCreds));
    assert!(matches!(second, CredentialsError::NoCreds));
}

#[test]
fn environment_clone_is_equal() {
    let mut env = env_of(present("key"), not_unicode("x"));
    env.account_info = present("/tmp/info");
    assert_eq!(env.clone(), env);
    assert_eq!(EnvVar::NotPresent.clone(), EnvVar::NotPresent);
}
