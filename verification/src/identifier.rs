//! The identifier that tells the probes of one session from everyone
//! else's.

use vstd::prelude::*;

verus! {

/// Draws an identifier through `rand::random`.
///
/// Trusted, and nothing is claimed: any sixteen bits may come back.
#[verifier::external_body]
pub(crate) fn random_identifier() -> (identifier: u16) {
    rand::random::<u16>()
}

} // verus!
