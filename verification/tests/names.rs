use lenvironment::env::Environment;
use lenvironment::runtime::container_name;
use lenvironment::validation::{sanitize_username, validate_name};
use lenvironment::LenvError;

#[test]
fn empty_name_is_refused() {
    assert_eq!(validate_name(""), Err(LenvError::EmptyName));
}

#[test]
fn name_of_65_bytes_is_too_long() {
    let name = "a".repeat(65);
    assert_eq!(validate_name(&name), Err(LenvError::NameTooLong));
}

#[test]
fn name_of_64_bytes_is_accepted() {
    let name = "a".repeat(64);
    assert_eq!(validate_name(&name), Ok(()));
}

#[test]
fn name_length_is_counted_in_bytes() {
    // 33 characters, 66 bytes: the length check comes before the character check.
    let name = "é".repeat(33);
    assert_eq!(validate_name(&name), Err(LenvError::NameTooLong));
    // 10 characters, 20 bytes: short enough, but not letters of ASCII.
    let name = "é".repeat(10);
    assert_eq!(validate_name(&name), Err(LenvError::InvalidNameChar));
}

#[test]
fn name_with_space_or_dot_is_refused() {
    assert_eq!(validate_name("my env"), Err(LenvError::InvalidNameChar));
    assert_eq!(validate_name("dev.1"), Err(LenvError::InvalidNameChar));
    assert_eq!(validate_name("a/b"), Err(LenvError::InvalidNameChar));
}

#[test]
fn name_of_letters_digits_dash_underscore_is_accepted() {
    assert_eq!(validate_name("develop"), Ok(()));
    assert_eq!(validate_name("Dev_Box-2"), Ok(()));
    assert_eq!(validate_name("-"), Ok(()));
}

#[test]
fn sanitize_drops_other_characters() {
    assert_eq!(sanitize_username("John.Doe!"), "JohnDoe");
    assert_eq!(sanitize_username("ann marie"), "annmarie");
    assert_eq!(sanitize_username("jürgen"), "jrgen");
    assert_eq!(sanitize_username("DOMAIN\\user"), "DOMAINuser");
    assert_eq!(sanitize_username("...."), "");
}

#[test]
fn sanitize_keeps_clean_names() {
    assert_eq!(sanitize_username("alice_1-b"), "alice_1-b");
}

#[test]
fn sanitize_twice_is_sanitize_once() {
    let once = sanitize_username("a.b c@d");
    assert_eq!(sanitize_username(&once), once);
}

#[test]
fn sanitized_name_passes_validation() {
    let s = sanitize_username("j.doe@example");
    assert_eq!(s, "jdoeexample");
    assert_eq!(validate_name(&s), Ok(()));
}

#[test]
fn container_name_has_prefix() {
    assert_eq!(container_name("develop"), "lenv-develop");
    assert_eq!(container_name(""), "lenv-");
}

#[test]
fn container_names_differ_for_different_environments() {
    assert_ne!(container_name("a"), container_name("b"));
}

#[test]
fn file_name_appends_toml() {
    assert_eq!(Environment::file_name("develop"), "develop.toml");
}

#[test]
fn error_messages() {
    assert_eq!(LenvError::EmptyName.message(), "environment name cannot be empty");
    assert_eq!(LenvError::NameTooLong.message(), "environment name is too long");
    assert_eq!(
        LenvError::InvalidNameChar.message(),
        "environment name may only contain letters, numbers, '-' and '_'"
    );
    assert_eq!(LenvError::EnvironmentMissing.message(), "environment does not exist");
    assert_eq!(LenvError::NoUsableShell.message(), "no usable shell found");
    assert_eq!(
        LenvError::CommandFailed("apt update".to_string()).message(),
        "command failed: apt update"
    );
    assert_eq!(LenvError::CreateFailed.message(), "failed to create container");
    assert_eq!(LenvError::RemoveFailed.message(), "failed to remove container");
    assert_eq!(LenvError::StartFailed.message(), "failed to start container");
    assert_eq!(LenvError::StopFailed.message(), "failed to stop container");
    assert_eq!(LenvError::RestartFailed.message(), "failed to restart container");
    assert_eq!(
        LenvError::InvalidMount("nocolon".to_string()).message(),
        "invalid mount 'nocolon': expected HOST_DIR:CONTAINER_DIR"
    );
    assert_eq!(LenvError::Io("disk full".to_string()).message(), "disk full");
}
