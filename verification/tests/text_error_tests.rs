use demo_sqlite::error::{Error, ResultExt};
use demo_sqlite::text::{i64_to_decimal, u64_decimal_ascii, u64_to_decimal};

#[test]
fn decimal_rendering() {
    assert_eq!(u64_to_decimal(0), "0");
    assert_eq!(u64_to_decimal(7), "7");
    assert_eq!(u64_to_decimal(10), "10");
    assert_eq!(u64_to_decimal(1234567890), "1234567890");
    assert_eq!(u64_to_decimal(u64::MAX), "18446744073709551615");
    assert_eq!(u64_decimal_ascii(305), b"305".to_vec());
}

#[test]
fn signed_decimal_rendering() {
    assert_eq!(i64_to_decimal(0), "0");
    assert_eq!(i64_to_decimal(-5), "-5");
    assert_eq!(i64_to_decimal(42), "42");
    assert_eq!(i64_to_decimal(i64::MIN), "-9223372036854775808");
    assert_eq!(i64_to_decimal(i64::MAX), "9223372036854775807");
}

#[test]
fn fixed_error_messages() {
    assert_eq!(Error::ScreenAlreadyOpen.message(), "Can't re-open screen guard while one is already open");
    assert_eq!(Error::MissingDatabaseDir.message(), "Can't find database directory");
    assert_eq!(Error::LabelRequired.message(), "Label is required and must be a single line");
    assert_eq!(Error::SecretRequired.message(), "Secret is required");
    assert_eq!(
        Error::EncryptionPasswordRequired.message(),
        "Encryption (master) password is required and must be a single line"
    );
    assert_eq!(Error::ConfirmPasswordMismatch.message(), "Passwords do not match");
    assert_eq!(Error::AccountNameSingleLine.message(), "Account name must be a single line if specified");
    assert_eq!(Error::SelectionRequired.message(), "No item is currently selected");
    assert_eq!(Error::XChaCha20Poly1305.message(), "Encryption, decryption, or authentication error");
    assert_eq!(Error::Unpad.message(), "Invalid padding in decrypted secret");
}

#[test]
fn wrapped_error_messages() {
    assert_eq!(Error::Io("disk full".to_string()).message(), "I/O error: disk full");
    assert_eq!(Error::Utf8("bad byte".to_string()).message(), "Secret is not valid UTF-8: bad byte");
    assert_eq!(Error::Json("eof".to_string()).message(), "JSON error: eof");
    assert_eq!(Error::Db("locked".to_string()).message(), "Database error: locked");
    assert_eq!(Error::Sqlite("busy".to_string()).message(), "Rusqlite Database error: busy");
    assert_eq!(Error::Argon2("salt".to_string()).message(), "Password hashing error: salt");
    assert_eq!(Error::InvalidLength("Invalid Length".to_string()).message(), "Invalid Length");
    assert_eq!(Error::Clipboard("no display".to_string()).message(), "no display");
    assert_eq!(Error::InvalidChannelId("bad id".to_string()).message(), "bad id");
    assert_eq!(Error::Url("empty host".to_string()).message(), "URL parse error: empty host");
    assert_eq!(Error::ZoneIndexer("gone".to_string()).message(), "gone");
}

#[test]
fn schema_version_message() {
    let e = Error::SchemaVersionMismatch { expected: 3, actual: 4 };
    assert_eq!(e.message(), "Database schema version too high: need <= 3, got 4");
    let e = Error::SchemaVersionMismatch { expected: -1, actual: i64::MIN };
    assert_eq!(e.message(), "Database schema version too high: need <= -1, got -9223372036854775808");
}

#[test]
fn context_message() {
    let e = Error::context("permission denied".to_string(), "Found .steelsaferc but cannot open".to_string());
    assert_eq!(e.message(), "Found .steelsaferc but cannot open: permission denied");
}

#[test]
fn result_context_on_library_error() {
    let r: Result<u8, Error> = Err(Error::SecretRequired);
    match r.context("Saving".to_string()) {
        Err(Error::Context { message, source }) => {
            assert_eq!(message, "Saving");
            assert_eq!(source, "Secret is required");
        }
        _ => panic!("expected a context error"),
    }
    let ok: Result<u8, Error> = Ok(5);
    assert!(matches!(ok.context("unused".to_string()), Ok(5)));
}

#[test]
fn result_context_on_text_error() {
    let r: Result<u8, String> = Err("expected value at line 1".to_string());
    let e = r.context("Invalid .steelsaferc".to_string()).unwrap_err();
    assert_eq!(e.message(), "Invalid .steelsaferc: expected value at line 1");
    let ok: Result<u8, String> = Ok(1);
    assert!(matches!(ok.context("x".to_string()), Ok(1)));
}
