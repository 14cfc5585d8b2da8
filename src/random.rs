//! The secure random source.

use vstd::prelude::*;

verus! {

#[verifier::external_type_specification]
#[verifier::external_body]
pub struct ExGetrandomError(getrandom::Error);

/// Entropy could not be obtained from the platform's secure random source.
#[derive(Clone, Copy, Debug, PartialEq, Eq, Structural)]
pub struct EntropyError;

/// Relies on getrandom::getrandom: fills the whole buffer with bytes from the
/// platform's secure source, or reports that it could not. Nothing is known of
/// the bytes.
#[verifier::external_body]
pub(crate) fn fill_random<const L: usize>(dest: &mut [u8; L]) -> (r: Result<(), getrandom::Error>) {
    getrandom::getrandom(dest)
}

/// A buffer of `L` random bytes.
pub fn random_array<const L: usize>() -> (r: Result<[u8; L], EntropyError>) {
    let mut buf: [u8; L] = [0u8; L];
    match fill_random(&mut buf) {
        Ok(()) => Ok(buf),
        Err(_) => Err(EntropyError),
    }
}

} // verus!
