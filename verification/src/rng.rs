//! The interpreter's one source of nondeterminism: the random byte consumed
//! by the `Cxkk` instruction.

use vstd::prelude::*;

verus! {

/// Relies on rand::random: a byte drawn from the thread-local generator.
/// Nothing is promised of the value; callers must hold for every byte.
#[verifier::external_body]
pub(crate) fn random_byte() -> u8 {
    rand::random::<u8>()
}

} // verus!
