//! The conversion operation's own side of the native boundary: sizing and
//! allocating the output buffer the native library writes into, and turning
//! the native result — an integer code and the written buffer — into the
//! wrapper's result.

use crate::error::AqKanji2KoeError;
use crate::error::error_for_code;
use crate::text::nul_prefix;
use crate::text::nul_terminated_prefix;
use vstd::prelude::*;
use vstd::utf8::decode_utf8;
use vstd::utf8::valid_utf8;

verus! {

/// Bytes of headroom granted beyond twice the input length when the output
/// buffer is sized.
pub const KOE_BUFFER_SLACK: usize = 256;

/// The output buffer capacity for an input of `len` bytes.
pub open spec fn koe_capacity(len: int) -> int {
    2 * len + 256
}

/// Allocates the zero-filled output buffer for an input of `len` bytes,
/// with capacity `2 * len + 256`. `None` exactly when that capacity does
/// not fit in `usize` — the one input size the machine itself rules out.
pub fn koe_buffer(len: usize) -> (r: Option<Vec<u8>>)
    ensures
        match r {
            Some(v) => {
                &&& koe_capacity(len as int) <= usize::MAX
                &&& v@.len() == koe_capacity(len as int)
                &&& forall|i: int| 0 <= i < v@.len() ==> v@[i] == 0
            },
            None => koe_capacity(len as int) > usize::MAX,
        },
{
    let doubled = match len.checked_mul(2) {
        Some(d) => d,
        None => {
            return None;
        },
    };
    let size = match doubled.checked_add(KOE_BUFFER_SLACK) {
        Some(s) => s,
        None => {
            return None;
        },
    };
    let mut v: Vec<u8> = Vec::new();
    let mut i: usize = 0;
    while i < size
        invariant
            0 <= i <= size,
            v@.len() == i,
            forall|j: int| 0 <= j < i ==> v@[j] == 0,
        decreases size - i,
    {
        v.push(0);
        i = i + 1;
    }
    Some(v)
}

/// Relies on `core::str::from_utf8`: it returns `Ok` exactly when the bytes
/// are valid UTF-8, and then borrows the same bytes as a string, so the
/// decoded characters are `decode_utf8` of the bytes (`str::to_owned` then
/// copies them into an owned `String`).
#[verifier::external_body]
fn decode_utf8_bytes(bytes: &[u8]) -> (r: Option<String>)
    ensures
        r is Some <==> valid_utf8(bytes@),
        r is Some ==> r.unwrap()@ == decode_utf8(bytes@),
{
    core::str::from_utf8(bytes).ok().map(|s| s.to_owned())
}

/// The result `convert` surfaces for a given native outcome: a nonzero
/// result code is failure, mapped through the error taxonomy; a zero code
/// is success, and the characters of the NUL-terminated UTF-8 string the
/// native library wrote into the buffer are the answer — unless those bytes
/// are not valid UTF-8, which is the distinct encoding error. A function of
/// the result code and the buffer contents alone: for one native outcome
/// there is one result.
pub open spec fn convert_spec(error_code: i32, buffer: Seq<u8>) -> Result<
    Seq<char>,
    AqKanji2KoeError,
> {
    if error_code != 0 {
        Err(error_for_code(error_code))
    } else if valid_utf8(nul_prefix(buffer)) {
        Ok(decode_utf8(nul_prefix(buffer)))
    } else {
        Err(AqKanji2KoeError::InvalidEncoding)
    }
}

/// What `convert` returns once the native conversion call came back with
/// result code `error_code`, having written into `buffer`: exactly what
/// [`convert_spec`] says for that outcome. Output that is not valid UTF-8
/// is the distinct encoding error, not a crash, and nothing past the
/// buffer's first NUL — nor past the buffer itself — is ever read.
pub fn convert_outcome(error_code: i32, buffer: &[u8]) -> (r: Result<String, AqKanji2KoeError>)
    ensures
        match r {
            Ok(s) => convert_spec(error_code, buffer@) == Ok::<Seq<char>, AqKanji2KoeError>(s@),
            Err(e) => convert_spec(error_code, buffer@) == Err::<Seq<char>, AqKanji2KoeError>(e),
        },
{
    if error_code != 0 {
        return Err(AqKanji2KoeError::from(error_code));
    }
    let koe = nul_terminated_prefix(buffer);
    match decode_utf8_bytes(koe.as_slice()) {
        Some(s) => Ok(s),
        None => Err(AqKanji2KoeError::InvalidEncoding),
    }
}

} // verus!
