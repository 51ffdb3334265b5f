use aqkanji2koe::error::AqKanji2KoeError;
use aqkanji2koe::session::{create_outcome, set_dev_key_outcome};

#[test]
fn create_with_a_handle_succeeds() {
    assert_eq!(create_outcome(false, 0), Ok(()));
    // the out-parameter code plays no part once a handle was handed back
    assert_eq!(create_outcome(false, 106), Ok(()));
}

#[test]
fn create_with_a_null_handle_maps_the_code() {
    assert_eq!(
        create_outcome(true, 106),
        Err(AqKanji2KoeError::NoSystemDictionary)
    );
    assert_eq!(
        create_outcome(true, 250),
        Err(AqKanji2KoeError::InvaildSystemDictionary(250))
    );
    assert_eq!(
        create_outcome(true, 350),
        Err(AqKanji2KoeError::InvaildUserDictionary(350))
    );
    assert_eq!(create_outcome(true, 42), Err(AqKanji2KoeError::Unknown(42)));
}

#[test]
fn set_dev_key_with_zero_succeeds() {
    assert_eq!(set_dev_key_outcome(0), Ok(()));
}

#[test]
fn set_dev_key_failure_is_always_the_license_error() {
    // never a code-specific variant, whatever the native code was
    for code in [1, 100, 105, 106, 107, 250, 350, 400, -1] {
        assert_eq!(
            set_dev_key_outcome(code),
            Err(AqKanji2KoeError::InvaildLicenseKey)
        );
    }
}
