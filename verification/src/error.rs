//! The wrapper's error taxonomy, and the one-way mapping from the native
//! library's integer result codes into it.

use vstd::prelude::*;

verus! {

/// An error surfaced by the conversion wrapper.
///
/// All variants but [`AqKanji2KoeError::InvalidEncoding`] are mapped from a
/// native integer result code; the dictionary-range variants and
/// [`AqKanji2KoeError::Unknown`] retain the original code for diagnostics.
/// [`AqKanji2KoeError::InvalidEncoding`] is raised on the wrapper's own side
/// of the boundary, before (or after) any native call, when text cannot
/// cross it as a NUL-terminated byte string.
#[derive(Clone, Copy, Debug, PartialEq, Eq, Structural)]
pub enum AqKanji2KoeError {
    /// Native code 100: other/unspecified error.
    Other,
    /// Native code 105: the input text exceeds the native library's maximum
    /// length.
    InputTooLong,
    /// Native code 106: no system dictionary was supplied.
    NoSystemDictionary,
    /// Native code 107: an invalid character code was encountered in the
    /// input.
    InvaildCharCode,
    /// Native codes 200–299: the system dictionary is invalid or corrupt;
    /// the original code is kept.
    InvaildSystemDictionary(i32),
    /// Native codes 300–399: the user dictionary is invalid or corrupt; the
    /// original code is kept.
    InvaildUserDictionary(i32),
    /// Setting the license key failed, whatever the native code was.
    InvaildLicenseKey,
    /// Any other native code; the original code is kept.
    Unknown(i32),
    /// Text could not cross the native boundary as a NUL-terminated byte
    /// string: the input holds a NUL byte, or the native output is not
    /// valid UTF-8. No native code corresponds to this variant.
    InvalidEncoding,
}

/// The error that a native result code denotes.
pub open spec fn error_for_code(code: i32) -> AqKanji2KoeError {
    if code == 100 {
        AqKanji2KoeError::Other
    } else if code == 105 {
        AqKanji2KoeError::InputTooLong
    } else if code == 106 {
        AqKanji2KoeError::NoSystemDictionary
    } else if code == 107 {
        AqKanji2KoeError::InvaildCharCode
    } else if 200 <= code <= 299 {
        AqKanji2KoeError::InvaildSystemDictionary(code)
    } else if 300 <= code <= 399 {
        AqKanji2KoeError::InvaildUserDictionary(code)
    } else {
        AqKanji2KoeError::Unknown(code)
    }
}

impl core::convert::From<i32> for AqKanji2KoeError {
    /// Maps a native result code to its error, as [`error_for_code`] says.
    fn from(code: i32) -> (r: Self) {
        match code {
            100 => Self::Other,
            105 => Self::InputTooLong,
            106 => Self::NoSystemDictionary,
            107 => Self::InvaildCharCode,
            200..=299 => Self::InvaildSystemDictionary(code),
            300..=399 => Self::InvaildUserDictionary(code),
            _ => Self::Unknown(code),
        }
    }
}

impl vstd::std_specs::convert::FromSpecImpl<i32> for AqKanji2KoeError {
    open spec fn obeys_from_spec() -> bool {
        true
    }

    open spec fn from_spec(code: i32) -> Self {
        error_for_code(code)
    }
}

/// Law: the mapping from native codes preserves the original code wherever
/// the taxonomy says it is kept. A dictionary-range code comes back inside
/// the dictionary variant it maps to, and a code outside the whole table
/// comes back inside [`AqKanji2KoeError::Unknown`]; so the numeric code can
/// be read back from the error for diagnostics.
pub proof fn lemma_code_preserved(code: i32)
    ensures
        200 <= code <= 299 ==> error_for_code(code)
            == AqKanji2KoeError::InvaildSystemDictionary(code),
        300 <= code <= 399 ==> error_for_code(code)
            == AqKanji2KoeError::InvaildUserDictionary(code),
        !(code == 100 || code == 105 || code == 106 || code == 107 || (200 <= code <= 299) || (
        300 <= code <= 399)) ==> error_for_code(code) == AqKanji2KoeError::Unknown(code),
{
}

} // verus!
