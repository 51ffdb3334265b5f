//! Text at the native boundary.
//!
//! The native library exchanges text as NUL-terminated UTF-8 byte strings.
//! Going out, a host string is encoded as its UTF-8 bytes followed by one
//! terminating NUL — which is possible exactly when the text itself holds no
//! NUL byte. Coming back, the native library writes a NUL-terminated string
//! into a caller-supplied buffer, and the wrapper reads the bytes before the
//! first NUL.

use crate::error::AqKanji2KoeError;
use vstd::prelude::*;
use vstd::string::StrSliceExecFns;
use vstd::string::StringSliceAdditionalSpecFns;

verus! {

/// Whether `bytes` holds a NUL byte.
pub open spec fn has_nul(bytes: Seq<u8>) -> bool {
    exists|i: int| 0 <= i < bytes.len() && bytes[i] == 0
}

/// The number of bytes before the first NUL in `bytes` (all of them, if
/// there is no NUL).
pub open spec fn nul_free_len(bytes: Seq<u8>) -> int
    decreases bytes.len(),
{
    if bytes.len() == 0 || bytes[0] == 0 {
        0
    } else {
        1 + nul_free_len(bytes.drop_first())
    }
}

/// The bytes of `bytes` before its first NUL: what a NUL-terminated string
/// written into a buffer denotes.
pub open spec fn nul_prefix(bytes: Seq<u8>) -> Seq<u8> {
    bytes.take(nul_free_len(bytes))
}

/// `nul_free_len` is the index of the first NUL: an index below which no
/// byte is NUL, and which carries a NUL or is the whole length.
proof fn lemma_nul_free_len_at(bytes: Seq<u8>, i: int)
    requires
        0 <= i <= bytes.len(),
        forall|j: int| 0 <= j < i ==> bytes[j] != 0,
        i == bytes.len() || bytes[i] == 0,
    ensures
        nul_free_len(bytes) == i,
    decreases i,
{
    if i > 0 {
        lemma_nul_free_len_at(bytes.drop_first(), i - 1);
    }
}

/// Encodes `s` for the native boundary: its UTF-8 bytes followed by one
/// terminating NUL. This succeeds exactly when the text holds no NUL byte
/// of its own; otherwise no NUL-terminated encoding of it exists, and the
/// distinct encoding error is returned before any native call is made.
pub fn to_nul_terminated(s: &str) -> (r: Result<Vec<u8>, AqKanji2KoeError>)
    ensures
        match r {
            Ok(v) => !has_nul(s.spec_bytes()) && v@ == s.spec_bytes().push(0u8),
            Err(e) => has_nul(s.spec_bytes()) && e == AqKanji2KoeError::InvalidEncoding,
        },
{
    let mut v = s.as_bytes_vec();
    let mut i: usize = 0;
    while i < v.len()
        invariant
            v@ == s.spec_bytes(),
            0 <= i <= v@.len(),
            forall|j: int| 0 <= j < i ==> v@[j] != 0,
        decreases v@.len() - i,
    {
        if v[i] == 0 {
            proof {
                assert(has_nul(s.spec_bytes()));
            }
            return Err(AqKanji2KoeError::InvalidEncoding);
        }
        i = i + 1;
    }
    v.push(0);
    Ok(v)
}

/// The bytes a NUL-terminated native string denotes inside its buffer: the
/// longest NUL-free prefix of the buffer. A buffer that holds no NUL at all
/// (which a well-behaved native library never hands back) is taken whole,
/// so the read is bounded by the buffer either way.
pub fn nul_terminated_prefix(buffer: &[u8]) -> (r: Vec<u8>)
    ensures
        r@ == nul_prefix(buffer@),
        r@.len() <= buffer@.len(),
        r@ == buffer@.take(r@.len() as int),
        forall|i: int| 0 <= i < r@.len() ==> buffer@[i] != 0,
        r@.len() < buffer@.len() ==> buffer@[r@.len() as int] == 0,
{
    let mut r: Vec<u8> = Vec::new();
    let mut i: usize = 0;
    while i < buffer.len()
        invariant
            0 <= i <= buffer@.len(),
            r@ == buffer@.take(i as int),
            forall|j: int| 0 <= j < i ==> buffer@[j] != 0,
        decreases buffer@.len() - i,
    {
        let b = buffer[i];
        if b == 0 {
            proof {
                lemma_nul_free_len_at(buffer@, i as int);
            }
            return r;
        }
        r.push(b);
        proof {
            assert(r@ =~= buffer@.take(i + 1));
        }
        i = i + 1;
    }
    proof {
        lemma_nul_free_len_at(buffer@, buffer@.len() as int);
        assert(r@ =~= buffer@.take(buffer@.len() as int));
    }
    r
}

} // verus!
