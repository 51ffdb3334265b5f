//! The handle lifecycle at the native boundary.
//!
//! The unsafe outer layer makes the native calls; every decision it takes
//! about them stands here, verified. Creation: a null handle from the native
//! create call is failure, mapped from the out-parameter code; a non-null
//! handle is owned by exactly one wrapper instance until its lifetime ends,
//! and released exactly once then — on every exit path, whether or not a
//! conversion was driven and however the conversion came out. The license
//! key call is process-wide and handle-independent; any nonzero code from it
//! is the one license error.

use crate::error::AqKanji2KoeError;
use crate::error::error_for_code;
use vstd::prelude::*;

verus! {

/// The decision `create` takes once the native create call came back:
/// whether the returned handle was null, and what the out-parameter error
/// code held. A null handle is failure, mapped through the error taxonomy;
/// a non-null handle is success, and the wrapper owns it from here on.
pub fn create_outcome(handle_is_null: bool, error_code: i32) -> (r: Result<(), AqKanji2KoeError>)
    ensures
        handle_is_null ==> r == Err::<(), _>(error_for_code(error_code)),
        !handle_is_null ==> r == Ok::<(), AqKanji2KoeError>(()),
{
    if handle_is_null {
        Err(AqKanji2KoeError::from(error_code))
    } else {
        Ok(())
    }
}

/// The decision `set_dev_key` takes once the native call came back: zero is
/// success, and every nonzero code — whichever it is — is the single
/// license-key error, never a code-specific variant.
pub fn set_dev_key_outcome(error_code: i32) -> (r: Result<(), AqKanji2KoeError>)
    ensures
        error_code == 0 ==> r == Ok::<(), AqKanji2KoeError>(()),
        error_code != 0 ==> r == Err::<(), _>(AqKanji2KoeError::InvaildLicenseKey),
{
    if error_code != 0 {
        Err(AqKanji2KoeError::InvaildLicenseKey)
    } else {
        Ok(())
    }
}

/// One call a wrapper session makes across the native boundary.
pub enum NativeCall {
    /// The native create call, made once at the start of every session.
    Create,
    /// The native conversion call, made when the session's owner asks for a
    /// conversion; it consumes the wrapper.
    Convert,
    /// The native release call, which invalidates the handle.
    Release,
}

/// How many of `calls` are releases.
pub open spec fn count_releases(calls: Seq<NativeCall>) -> nat
    decreases calls.len(),
{
    if calls.len() == 0 {
        0
    } else {
        count_releases(calls.drop_last()) + (if calls.last() is Release {
            1nat
        } else {
            0nat
        })
    }
}

/// The native calls one wrapper session makes, in order. `handle_obtained`
/// says whether the native create call handed back a handle;
/// `convert_result` is `Some` of the native conversion result code when the
/// session's owner drove a conversion, and `None` when the wrapper was
/// dropped without one. The conversion's code plays no part in which calls
/// are made: the wrapper surfaces it as a value and releases the handle
/// regardless, when its lifetime ends.
pub open spec fn session_calls(handle_obtained: bool, convert_result: Option<i32>) -> Seq<
    NativeCall,
> {
    if !handle_obtained {
        seq![NativeCall::Create]
    } else if convert_result is Some {
        seq![NativeCall::Create, NativeCall::Convert, NativeCall::Release]
    } else {
        seq![NativeCall::Create, NativeCall::Release]
    }
}

/// Law: a session whose creation succeeded releases its handle exactly
/// once — also when the conversion it drove failed with any code — and a
/// session whose creation failed never releases anything, since no handle
/// was ever obtained.
pub proof fn lemma_release_exactly_once(handle_obtained: bool, convert_result: Option<i32>)
    ensures
        handle_obtained ==> count_releases(session_calls(handle_obtained, convert_result)) == 1,
        !handle_obtained ==> count_releases(session_calls(handle_obtained, convert_result)) == 0,
{
    let calls = session_calls(handle_obtained, convert_result);
    assert(count_releases(Seq::<NativeCall>::empty()) == 0);
    assert(seq![NativeCall::Create].drop_last() =~= Seq::<NativeCall>::empty());
    assert(count_releases(seq![NativeCall::Create]) == 0);
    if !handle_obtained {
        assert(count_releases(calls) == 0);
    } else if convert_result is Some {
        assert(calls.drop_last().drop_last() =~= seq![NativeCall::Create]);
        assert(count_releases(calls.drop_last()) == 0);
        assert(count_releases(calls) == 1);
    } else {
        assert(calls.drop_last() =~= seq![NativeCall::Create]);
        assert(count_releases(calls) == 1);
    }
}

} // verus!
