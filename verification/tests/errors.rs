use b2creds::{Credentials, CredentialsError};

#[test]
fn messages_name_what_failed() {
    let io = CredentialsError::Io(std::io::Error::new(std::io::ErrorKind::Other, "fault"));
    assert_eq!(io.message(), "Failed to read credentials file");
    let sqlite = CredentialsError::SqlLite(rusqlite::Error::InvalidQuery);
    assert_eq!(sqlite.message(), "Failed to parse sqlite file");
    let env = CredentialsError::Env("\u{fffd}".to_string());
    assert_eq!(env.message(), "Failed to parse env vars");
    assert_eq!(CredentialsError::NoCreds.message(), "No credentials exist");
    assert_eq!(
        CredentialsError::NoBaseDirs.message(),
        "No base directory on this OS. Unable to find default b2 accounts"
    );
}

#[test]
fn sqlite_errors_convert() {
    match CredentialsError::from(rusqlite::Error::InvalidQuery) {
        CredentialsError::SqlLite(error) => assert_eq!(error, rusqlite::Error::InvalidQuery),
        other => panic!("unexpected error {:?}", other),
    }
}

#[test]
fn io_errors_convert() {
    let fault = std::io::Error::new(std::io::ErrorKind::NotFound, "gone");
    match CredentialsError::from(fault) {
        CredentialsError::Io(error) => assert_eq!(error.kind(), std::io::ErrorKind::NotFound),
        other => panic!("unexpected error {:?}", other),
    }
}

#[test]
fn question_mark_converts_outside_errors() {
    fn open_missing() -> Result<(), CredentialsError> {
        rusqlite::Connection::open_with_flags(
            "asgasgasldghuaskdjgkkajsjuugasdgasg",
            rusqlite::OpenFlags::SQLITE_OPEN_READ_ONLY,
        )?;
        Ok(())
    }
    assert!(matches!(open_missing().unwrap_err(), CredentialsError::SqlLite(_)));
}

#[test]
fn credentials_clone_is_equal() {
    let credentials = Credentials {
        application_key_id: "keyid".to_string(),
        application_key: "key".to_string(),
    };
    let copy = credentials.clone();
    assert_eq!(copy, credentials);
    assert_eq!(copy.application_key_id, "keyid");
    assert_eq!(copy.application_key, "key");
}

#[test]
fn credentials_equality_is_by_both_fields() {
    let one = Credentials { application_key_id: "a".to_string(), application_key: "b".to_string() };
    let swapped =
        Credentials { application_key_id: "b".to_string(), application_key: "a".to_string() };
    let other_key =
        Credentials { application_key_id: "a".to_string(), application_key: "c".to_string() };
    assert_ne!(one, swapped);
    assert_ne!(one, other_key);
}
