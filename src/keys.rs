//! Fixed-size byte buffers exchanged with every backend.

use vstd::prelude::*;

verus! {

/// Length in bytes of a secret key seed.
pub const SECRET_KEY_LENGTH: usize = 32;

/// Length in bytes of a compressed public key.
pub const PUBLIC_KEY_LENGTH: usize = 32;

/// Length in bytes of a signature.
pub const SIGNATURE_LENGTH: usize = 64;

/// Length in bytes of a scalar or of a curve point in Montgomery form.
pub const SCALAR_LENGTH: usize = 32;

/// The integer type that carries message lengths and counts across the boundary.
pub type UInt = usize;

pub type SecretKey = [u8; SECRET_KEY_LENGTH];

pub type PublicKey = [u8; PUBLIC_KEY_LENGTH];

pub type Signature = [u8; SIGNATURE_LENGTH];

pub type Scalar = [u8; SCALAR_LENGTH];

/// The 64-byte extended secret key made of a secret key followed by its
/// extension.
pub fn join_halves(sk: &SecretKey, sk_ext: &SecretKey) -> (r: [u8; 64])
    ensures
        r@ == sk@ + sk_ext@,
{
    let mut r: [u8; 64] = [0u8; 64];
    let mut i: usize = 0;
    while i < 32
        invariant
            0 <= i <= 32,
            forall|j: int| 0 <= j < i ==> r@[j] == sk@[j],
        decreases 32 - i,
    {
        r[i] = sk[i];
        i = i + 1;
    }
    while i < 64
        invariant
            32 <= i <= 64,
            forall|j: int| 0 <= j < 32 ==> r@[j] == sk@[j],
            forall|j: int| 32 <= j < i ==> r@[j] == sk_ext@[j - 32],
        decreases 64 - i,
    {
        r[i] = sk_ext[i - 32];
        i = i + 1;
    }
    assert(r@ =~= sk@ + sk_ext@);
    r
}

/// Whether two byte buffers hold the same bytes.
pub fn bytes_equal(a: &[u8], b: &[u8]) -> (r: bool)
    ensures
        r == (a@ == b@),
{
    if a.len() != b.len() {
        return false;
    }
    let mut i: usize = 0;
    while i < a.len()
        invariant
            a@.len() == b@.len(),
            0 <= i <= a@.len(),
            forall|j: int| 0 <= j < i ==> a@[j] == b@[j],
        decreases a@.len() - i,
    {
        if a[i] != b[i] {
            return false;
        }
        i = i + 1;
    }
    assert(a@ =~= b@);
    true
}

} // verus!
