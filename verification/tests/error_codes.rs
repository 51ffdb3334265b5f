use aqkanji2koe::error::AqKanji2KoeError;

#[test]
fn maps_each_documented_code() {
    assert_eq!(AqKanji2KoeError::from(100), AqKanji2KoeError::Other);
    assert_eq!(AqKanji2KoeError::from(105), AqKanji2KoeError::InputTooLong);
    assert_eq!(AqKanji2KoeError::from(106), AqKanji2KoeError::NoSystemDictionary);
    assert_eq!(AqKanji2KoeError::from(107), AqKanji2KoeError::InvaildCharCode);
}

#[test]
fn system_dictionary_codes_keep_the_code() {
    assert_eq!(
        AqKanji2KoeError::from(200),
        AqKanji2KoeError::InvaildSystemDictionary(200)
    );
    assert_eq!(
        AqKanji2KoeError::from(250),
        AqKanji2KoeError::InvaildSystemDictionary(250)
    );
    assert_eq!(
        AqKanji2KoeError::from(299),
        AqKanji2KoeError::InvaildSystemDictionary(299)
    );
}

#[test]
fn user_dictionary_codes_keep_the_code() {
    assert_eq!(
        AqKanji2KoeError::from(300),
        AqKanji2KoeError::InvaildUserDictionary(300)
    );
    assert_eq!(
        AqKanji2KoeError::from(350),
        AqKanji2KoeError::InvaildUserDictionary(350)
    );
    assert_eq!(
        AqKanji2KoeError::from(399),
        AqKanji2KoeError::InvaildUserDictionary(399)
    );
}

#[test]
fn unmapped_codes_keep_the_code() {
    for code in [0, 1, 99, 101, 104, 108, 199, 400, 1000, -1, i32::MIN, i32::MAX] {
        assert_eq!(AqKanji2KoeError::from(code), AqKanji2KoeError::Unknown(code));
    }
}
