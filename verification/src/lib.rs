//! Verified decision logic for a safe wrapper around the AqKanji2Koe native
//! kanji-to-phonetic-symbol conversion library.
//!
//! The native library itself is reached over a foreign-function boundary that
//! a verifier cannot cross; the unsafe calls live in a thin outer layer. This
//! crate holds everything the wrapper decides and computes on its own side of
//! that boundary, with contracts:
//!
//! * [`error`]: the typed error taxonomy and the mapping from native integer
//!   result codes into it.
//! * [`text`]: encoding text as NUL-terminated byte strings for the boundary,
//!   and reading NUL-terminated output back.
//! * [`convert`]: sizing and allocating the conversion output buffer, and
//!   turning a native conversion result into the wrapper's result.
//! * [`session`]: the create / set-key decisions and the handle lifecycle,
//!   with the proof that a handle obtained from the native library is
//!   released exactly once.

pub mod convert;
pub mod error;
pub mod session;
pub mod text;
