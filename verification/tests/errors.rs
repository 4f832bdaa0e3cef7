use pass_rs::error::StoreError;

fn all() -> [StoreError; 7] {
    [
        StoreError::ConfigMissing,
        StoreError::ConfigCorrupt,
        StoreError::ConfigUnwritable,
        StoreError::SecretNotFound,
        StoreError::ConfirmationMismatch,
        StoreError::ToolFailure,
        StoreError::HomeUnknown,
    ]
}

#[test]
fn every_error_ends_the_program_with_a_failure() {
    for error in all() {
        assert_ne!(error.exit_code(), 0);
    }
}

#[test]
fn exit_codes_are_as_stated() {
    assert_eq!(StoreError::ConfirmationMismatch.exit_code(), -1);
    assert_eq!(StoreError::ConfigMissing.exit_code(), 1);
    assert_eq!(StoreError::ConfigCorrupt.exit_code(), 1);
    assert_eq!(StoreError::ConfigUnwritable.exit_code(), 1);
    assert_eq!(StoreError::SecretNotFound.exit_code(), 1);
    assert_eq!(StoreError::ToolFailure.exit_code(), 1);
    assert_eq!(StoreError::HomeUnknown.exit_code(), 1);
}

#[test]
fn messages_are_as_stated() {
    assert_eq!(StoreError::ConfirmationMismatch.message(), "The passwords don't match!");
    assert_eq!(StoreError::ConfigMissing.message(), "The password store is not initialized!");
    assert_eq!(StoreError::ConfigCorrupt.message(), "The configuration file cannot be read!");
    assert_eq!(StoreError::ConfigUnwritable.message(), "The configuration cannot be written!");
    assert_eq!(StoreError::SecretNotFound.message(), "There is no such password!");
    assert_eq!(StoreError::ToolFailure.message(), "The encryption tool failed!");
    assert_eq!(StoreError::HomeUnknown.message(), "The home directory is not known!");
}

#[test]
fn messages_differ_from_one_another() {
    let errors = all();
    for (i, first) in errors.iter().enumerate() {
        for second in errors.iter().skip(i + 1) {
            assert_ne!(first.message(), second.message());
        }
    }
}
