//! The operation table: the one seam between a caller and a backend.

use crate::dalek;
use crate::dalek::{
    dalek_accepts, dalek_ext_public_key, dalek_ext_signature, dalek_public_key, dalek_signature,
    x25519, x25519_base,
};
use crate::keys::{join_halves, PublicKey, Scalar, SecretKey, Signature, UInt};
use vstd::prelude::*;
use vstd::slice::slice_subrange;

verus! {

/// The implementations a driver can be bound to.
#[derive(Clone, Copy, Debug, PartialEq, Eq, Structural)]
pub enum Backend {
    /// The native implementation built on ed25519-dalek.
    Dalek,
}

/// Status code of a verification that passed.
pub const VALID: i32 = 0;

/// Status code of a verification that failed.
pub const INVALID: i32 = -1;

/// A stateless, immutable table of the eight signature operations of one
/// backend. Callers never see which backend is behind it.
#[derive(Clone, Copy, Debug, PartialEq, Eq, Structural)]
pub struct Driver {
    pub backend: Backend,
}

/// The status code that reports a verification outcome.
pub open spec fn status_of(valid: bool) -> i32 {
    if valid { VALID } else { INVALID }
}

/// The first `len` bytes of a message buffer: the bytes that are signed.
pub open spec fn message_prefix(m: Seq<u8>, len: UInt) -> Seq<u8> {
    m.subrange(0, len as int)
}

impl Driver {
    pub open spec fn backend_of(self) -> Backend {
        self.backend
    }

    /// The public key derived from a secret key seed.
    pub open spec fn public_key_of(self, sk: Seq<u8>) -> Seq<u8> {
        match self.backend {
            Backend::Dalek => dalek_public_key(sk),
        }
    }

    /// The signature over a message under a key pair. The native backend
    /// derives the key pair from the seed and does not read `pk`.
    pub open spec fn signature_of(self, m: Seq<u8>, sk: Seq<u8>, pk: Seq<u8>) -> Seq<u8> {
        match self.backend {
            Backend::Dalek => dalek_signature(m, sk),
        }
    }

    /// Whether a signature over a message is valid under a public key.
    pub open spec fn accepts(self, m: Seq<u8>, pk: Seq<u8>, sig: Seq<u8>) -> bool {
        match self.backend {
            Backend::Dalek => dalek_accepts(m, pk, sig),
        }
    }

    /// The base point multiplied by a scalar.
    pub open spec fn base_mult_of(self, e: Seq<u8>) -> Seq<u8> {
        match self.backend {
            Backend::Dalek => x25519_base(e),
        }
    }

    /// A curve point multiplied by a secret scalar.
    pub open spec fn scalar_mult_of(self, e: Seq<u8>, p: Seq<u8>) -> Seq<u8> {
        match self.backend {
            Backend::Dalek => x25519(e, p),
        }
    }

    /// The public key of the extended secret key made of `sk` and `sk_ext`:
    /// `sk` holds the secret scalar and `sk_ext` the nonce prefix, as the two
    /// halves of the SHA-512 digest of a seed would.
    pub open spec fn ext_public_key_of(self, sk: Seq<u8>, sk_ext: Seq<u8>) -> Seq<u8> {
        match self.backend {
            Backend::Dalek => dalek_ext_public_key(sk + sk_ext),
        }
    }

    /// The signature over a message under an extended secret key. The native
    /// backend derives the public key from the extended key and does not read
    /// `pk`.
    pub open spec fn ext_signature_of(
        self,
        m: Seq<u8>,
        sk: Seq<u8>,
        sk_ext: Seq<u8>,
        pk: Seq<u8>,
    ) -> Seq<u8> {
        match self.backend {
            Backend::Dalek => dalek_ext_signature(m, sk + sk_ext),
        }
    }

    /// Two drivers implement the same algorithm variant: they derive the same
    /// public keys, make the same signatures and accept the same signatures.
    pub open spec fn same_algorithm(self, other: Driver) -> bool {
        &&& forall|sk: Seq<u8>| #[trigger] self.public_key_of(sk) == other.public_key_of(sk)
        &&& forall|m: Seq<u8>, sk: Seq<u8>, pk: Seq<u8>|
            #[trigger] self.signature_of(m, sk, pk) == other.signature_of(m, sk, pk)
        &&& forall|m: Seq<u8>, pk: Seq<u8>, sig: Seq<u8>|
            #[trigger] self.accepts(m, pk, sig) == other.accepts(m, pk, sig)
    }

    /// The status that single verification reports.
    pub open spec fn verify_status(self, m: Seq<u8>, pk: Seq<u8>, sig: Seq<u8>) -> i32 {
        status_of(self.accepts(m, pk, sig))
    }

    /// Whether item `i` of a batch of parallel arrays is valid.
    pub open spec fn item_accepted(
        self,
        ms: Seq<&[u8]>,
        lens: Seq<UInt>,
        pks: Seq<PublicKey>,
        sigs: Seq<Signature>,
        i: int,
    ) -> bool {
        self.accepts(message_prefix(ms[i]@, lens[i]), pks[i]@, sigs[i]@)
    }

    /// Whether parallel arrays describe `num` well-formed items.
    pub open spec fn batch_fits(
        ms: Seq<&[u8]>,
        lens: Seq<UInt>,
        pks: Seq<PublicKey>,
        sigs: Seq<Signature>,
        num: UInt,
    ) -> bool {
        &&& num <= ms.len()
        &&& num <= lens.len()
        &&& num <= pks.len()
        &&& num <= sigs.len()
        &&& forall|i: int| 0 <= i < num ==> lens[i] <= (#[trigger] ms[i])@.len()
    }

    /// The aggregate status of batch verification.
    pub open spec fn batch_status(
        self,
        ms: Seq<&[u8]>,
        lens: Seq<UInt>,
        pks: Seq<PublicKey>,
        sigs: Seq<Signature>,
        num: UInt,
    ) -> i32 {
        status_of(forall|i: int| 0 <= i < num ==> self.item_accepted(ms, lens, pks, sigs, i))
    }

    /// The per-item statuses of batch verification: one for a valid item,
    /// zero for an invalid one.
    pub open spec fn item_statuses(
        self,
        ms: Seq<&[u8]>,
        lens: Seq<UInt>,
        pks: Seq<PublicKey>,
        sigs: Seq<Signature>,
        num: UInt,
    ) -> Seq<i32> {
        Seq::new(
            num as nat,
            |i: int|
                if self.item_accepted(ms, lens, pks, sigs, i) {
                    1i32
                } else {
                    0i32
                },
        )
    }

    /// The driver bound to a backend.
    pub fn new(backend: Backend) -> (r: Driver)
        ensures
            r.backend_of() == backend,
    {
        Driver { backend }
    }

    /// The backend this driver is bound to.
    pub fn backend(&self) -> (r: Backend)
        ensures
            r == self.backend_of(),
    {
        self.backend
    }

    /// Derives the public key of a secret key seed.
    pub fn ed25519_publickey(&self, sk: &SecretKey) -> (pk: PublicKey)
        ensures
            pk@ == self.public_key_of(sk@),
    {
        match self.backend {
            Backend::Dalek => dalek::public_key(sk),
        }
    }

    /// Signs the first `mlen` bytes of `m` under a key pair.
    pub fn ed25519_sign(&self, m: &[u8], mlen: UInt, sk: &SecretKey, pk: &PublicKey) -> (sig:
        Signature)
        requires
            mlen <= m@.len(),
        ensures
            sig@ == self.signature_of(message_prefix(m@, mlen), sk@, pk@),
            self.accepts(message_prefix(m@, mlen), self.public_key_of(sk@), sig@),
    {
        let msg = slice_subrange(m, 0, mlen);
        match self.backend {
            Backend::Dalek => dalek::sign(msg, sk),
        }
    }

    /// Verifies a signature over the first `mlen` bytes of `m`: zero when it
    /// is valid, nonzero otherwise.
    pub fn ed25519_sign_open(&self, m: &[u8], mlen: UInt, pk: &PublicKey, sig: &Signature) -> (r:
        i32)
        requires
            mlen <= m@.len(),
        ensures
            r == self.verify_status(message_prefix(m@, mlen), pk@, sig@),
    {
        let msg = slice_subrange(m, 0, mlen);
        let ok = match self.backend {
            Backend::Dalek => dalek::accepts(msg, pk, sig),
        };
        if ok {
            VALID
        } else {
            INVALID
        }
    }
    /// Verifies `num` items given as parallel arrays. Returns the aggregate
    /// status, zero exactly when every item is valid, and the status of each
    /// item, one for valid and zero for invalid.
    pub fn ed25519_sign_open_batch(
        &self,
        m: &[&[u8]],
        mlen: &[UInt],
        pk: &[PublicKey],
        sig: &[Signature],
        num: UInt,
    ) -> (r: (i32, Vec<i32>))
        requires
            Self::batch_fits(m@, mlen@, pk@, sig@, num),
        ensures
            r.0 == self.batch_status(m@, mlen@, pk@, sig@, num),
            r.1@ == self.item_statuses(m@, mlen@, pk@, sig@, num),
    {
        let mut valid: Vec<i32> = Vec::new();
        let mut all: bool = true;
        let mut i: usize = 0;
        while i < num
            invariant
                Self::batch_fits(m@, mlen@, pk@, sig@, num),
                0 <= i <= num,
                valid@ == self.item_statuses(m@, mlen@, pk@, sig@, num).subrange(0, i as int),
                all == (forall|j: int| 0 <= j < i ==> self.item_accepted(m@, mlen@, pk@, sig@, j)),
            decreases num - i,
        {
            let st = self.ed25519_sign_open(m[i], mlen[i], &pk[i], &sig[i]);
            let ok = st == VALID;
            assert(ok == self.item_accepted(m@, mlen@, pk@, sig@, i as int));
            if ok {
                valid.push(1);
            } else {
                valid.push(0);
                all = false;
            }
            assert(valid@ =~= self.item_statuses(m@, mlen@, pk@, sig@, num).subrange(0, i + 1));
            i = i + 1;
        }
        assert(valid@ =~= self.item_statuses(m@, mlen@, pk@, sig@, num));
        if all {
            (VALID, valid)
        } else {
            (INVALID, valid)
        }
    }

    /// Multiplies the base point by a scalar.
    pub fn curved25519_scalarmult_basepoint(&self, e: &Scalar) -> (r: Scalar)
        ensures
            r@ == self.base_mult_of(e@),
    {
        match self.backend {
            Backend::Dalek => dalek::base_mult(e),
        }
    }

    /// Multiplies a curve point by a secret scalar.
    pub fn curve25519_scalarmult(&self, secret: &SecretKey, basepoint: &Scalar) -> (r: Scalar)
        ensures
            r@ == self.scalar_mult_of(secret@, basepoint@),
    {
        match self.backend {
            Backend::Dalek => dalek::scalar_mult(secret, basepoint),
        }
    }

    /// Derives the public key of the extended secret key made of `sk` and
    /// `sk_ext`.
    pub fn ed25519_publickey_ext(&self, sk: &SecretKey, sk_ext: &SecretKey) -> (pk: PublicKey)
        ensures
            pk@ == self.ext_public_key_of(sk@, sk_ext@),
    {
        match self.backend {
            Backend::Dalek => {
                let esk = join_halves(sk, sk_ext);
                dalek::ext_public_key(&esk)
            },
        }
    }

    /// Signs the first `mlen` bytes of `m` under an extended secret key.
    pub fn ed25519_sign_ext(
        &self,
        m: &[u8],
        mlen: UInt,
        sk: &SecretKey,
        sk_ext: &SecretKey,
        pk: &PublicKey,
    ) -> (sig: Signature)
        requires
            mlen <= m@.len(),
        ensures
            sig@ == self.ext_signature_of(message_prefix(m@, mlen), sk@, sk_ext@, pk@),
    {
        let msg = slice_subrange(m, 0, mlen);
        match self.backend {
            Backend::Dalek => {
                let esk = join_halves(sk, sk_ext);
                dalek::ext_sign(msg, &esk)
            },
        }
    }
}

} // verus!
