//! Fingerprints of clipboard text.
//!
//! A fingerprint is the digest that std's default hasher gives for the UTF-8
//! bytes of a text, hashed as a byte slice. The watcher compares fingerprints
//! instead of keeping the text itself.

use std::collections::hash_map::DefaultHasher;
use std::hash::{Hash, Hasher};
use vstd::prelude::*;
use vstd::std_specs::hash::DefaultHasherAdditionalSpecFns;
use vstd::utf8::encode_utf8;

verus! {

/// The fingerprint that stands for "nothing is known about the clipboard".
///
/// It is held before the first read and after every failed read. A text whose
/// digest happens to be this value is indistinguishable from no text at all.
pub const SENTINEL: u64 = 0;

/// What a default hasher has been fed once a byte slice was hashed into it,
/// given what it had been fed before.
pub uninterp spec fn slice_hashed(before: Seq<Seq<u8>>, bytes: Seq<u8>) -> Seq<Seq<u8>>;

/// Calls `<[u8] as Hash>::hash` on a `DefaultHasher`.
///
/// The contract claims only that hashing a byte slice is deterministic: the
/// writes that reach the hasher depend on what it had received before and on
/// the bytes of the slice, and on nothing else.
#[verifier::external_body]
fn hash_slice(bytes: &[u8], state: &mut DefaultHasher)
    ensures
        final(state)@ == slice_hashed(old(state)@, bytes@),
{
    bytes.hash(state);
}

/// The fingerprint of a text: the digest of its UTF-8 bytes, hashed as one
/// slice into a fresh default hasher.
pub open spec fn text_fingerprint(text: Seq<char>) -> u64 {
    DefaultHasher::spec_finish(slice_hashed(Seq::empty(), encode_utf8(text)))
}

/// Computes the fingerprint of `text`.
pub fn fingerprint(text: &str) -> (mark: u64)
    ensures
        mark == text_fingerprint(text@),
{
    let mut state = DefaultHasher::new();
    hash_slice(text.as_bytes(), &mut state);
    state.finish()
}

} // verus!
