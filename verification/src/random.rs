//! The source of the bytes that the random instruction draws.

use vstd::prelude::*;

verus! {

/// One byte from `rand::random`, which draws it from the thread-local
/// generator of the `rand` crate. Nothing is claimed of which byte comes
/// back, and two calls may differ.
#[verifier::external_body]
pub(crate) fn random_byte() -> (byte: u8) {
    rand::random::<u8>()
}

} // verus!
