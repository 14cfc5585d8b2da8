//! Randomized fixtures of signed messages, all produced by one driver.

use crate::driver::{message_prefix, status_of, Driver, VALID};
use crate::keys::{
    bytes_equal, PublicKey, SecretKey, Signature, UInt, PUBLIC_KEY_LENGTH, SECRET_KEY_LENGTH,
    SIGNATURE_LENGTH,
};
use crate::random::{random_array, EntropyError};
use vstd::prelude::*;

verus! {

/// `N` trials, each a secret key, its public key, an `M`-byte message, the
/// length of the message and its signature.
pub struct Batch<const N: usize, const M: usize> {
    pub secret_keys: [SecretKey; N],
    pub public_keys: [PublicKey; N],
    pub messages: [[u8; M]; N],
    pub lengths: [UInt; N],
    pub signatures: [Signature; N],
}

impl<const N: usize, const M: usize> Batch<N, M> {
    /// The signed bytes of trial `i`.
    pub open spec fn message(self, i: int) -> Seq<u8> {
        message_prefix(self.messages[i]@, self.lengths[i])
    }

    /// Every stored length lies within its message buffer.
    pub open spec fn lengths_fit(self) -> bool {
        forall|i: int| 0 <= i < N ==> self.lengths[i] <= M
    }

    /// Trial `i` is self-consistent under `d`: the full message length is
    /// stored, the public key is derived from the secret key and the
    /// signature is made over the message with that key pair.
    pub open spec fn trial_generated_by(self, d: Driver, i: int) -> bool {
        &&& self.lengths[i] == M
        &&& self.public_keys[i]@ == d.public_key_of(self.secret_keys[i]@)
        &&& self.signatures[i]@ == d.signature_of(
            self.messages[i]@,
            self.secret_keys[i]@,
            self.public_keys[i]@,
        )
    }

    /// Every trial is self-consistent under `d`.
    pub open spec fn generated_by(self, d: Driver) -> bool {
        forall|i: int| 0 <= i < N ==> #[trigger] self.trial_generated_by(d, i)
    }

    /// Every trial passes single verification under `d`, and the whole batch
    /// passes batch verification.
    pub open spec fn verified_by(self, d: Driver) -> bool {
        &&& forall|i: int| 0 <= i < N ==> #[trigger] self.single_status(d, i) == VALID
        &&& self.batch_status(d) == VALID
    }

    /// Whether `d` accepts trial `i`.
    pub open spec fn accepted_by(self, d: Driver, i: int) -> bool {
        d.accepts(self.message(i), self.public_keys[i]@, self.signatures[i]@)
    }

    /// The status that single verification of trial `i` under `d` reports.
    pub open spec fn single_status(self, d: Driver, i: int) -> i32 {
        status_of(self.accepted_by(d, i))
    }

    /// The aggregate status of batch verification of all trials under `d`.
    pub open spec fn batch_status(self, d: Driver) -> i32 {
        status_of(forall|i: int| 0 <= i < N ==> self.accepted_by(d, i))
    }

    /// The per-item status of trial `i` in batch verification under `d`.
    pub open spec fn batch_item_status(self, d: Driver, i: int) -> i32 {
        if self.accepted_by(d, i) {
            1
        } else {
            0
        }
    }

    /// The batch made of the given secret keys and messages, with public keys
    /// and signatures computed by `signer`.
    pub fn from_seeds(signer: &Driver, secret_keys: [SecretKey; N], messages: [[u8; M]; N]) -> (b:
        Self)
        ensures
            b.secret_keys == secret_keys,
            b.messages == messages,
            b.generated_by(*signer),
            b.lengths_fit(),
            b.verified_by(*signer),
    {
        let mut public_keys: [PublicKey; N] = [[0u8; PUBLIC_KEY_LENGTH]; N];
        let mut signatures: [Signature; N] = [[0u8; SIGNATURE_LENGTH]; N];
        let lengths: [UInt; N] = [M; N];
        let mut i: usize = 0;
        while i < N
            invariant
                0 <= i <= N,
                lengths@ == Seq::new(N as nat, |j: int| M),
                forall|j: int|
                    0 <= j < i ==> public_keys[j]@ == signer.public_key_of(secret_keys[j]@),
                forall|j: int|
                    0 <= j < i ==> signatures[j]@ == signer.signature_of(
                        messages[j]@,
                        secret_keys[j]@,
                        public_keys[j]@,
                    ),
                forall|j: int|
                    0 <= j < i ==> signer.accepts(messages[j]@, public_keys[j]@, signatures[j]@),
            decreases N - i,
        {
            let pk = signer.ed25519_publickey(&secret_keys[i]);
            let sig = signer.ed25519_sign(messages[i].as_slice(), M, &secret_keys[i], &pk);
            assert(messages[i as int]@.subrange(0, M as int) =~= messages[i as int]@);
            public_keys[i] = pk;
            signatures[i] = sig;
            i = i + 1;
        }
        let b = Batch { secret_keys, public_keys, messages, lengths, signatures };
        assert(forall|j: int| 0 <= j < N ==> b.lengths[j] == M);
        assert forall|j: int| 0 <= j < N implies #[trigger] b.accepted_by(*signer, j) by {
            assert(b.messages[j]@.subrange(0, M as int) =~= b.messages[j]@);
        }
        assert forall|j: int| 0 <= j < N implies #[trigger] b.single_status(*signer, j) == VALID by {
            assert(b.accepted_by(*signer, j));
        }
        b
    }
    /// Generates a batch with `signer`: for each trial a random secret key
    /// and a random `M`-byte message from the platform's secure source, the
    /// matching public key and the signature. Fails as a whole when the
    /// source cannot supply entropy.
    pub fn new(signer: &Driver) -> (r: Result<Self, EntropyError>)
        ensures
            r matches Ok(b) ==> b.generated_by(*signer) && b.lengths_fit() && b.verified_by(
                *signer,
            ),
            N == 0 ==> r is Ok,
    {
        let mut secret_keys: [SecretKey; N] = [[0u8; SECRET_KEY_LENGTH]; N];
        let mut messages: [[u8; M]; N] = [[0u8; M]; N];
        let mut i: usize = 0;
        while i < N
            invariant
                0 <= i <= N,
            decreases N - i,
        {
            match random_array::<SECRET_KEY_LENGTH>() {
                Ok(sk) => {
                    secret_keys[i] = sk;
                },
                Err(e) => {
                    return Err(e);
                },
            }
            match random_array::<M>() {
                Ok(m) => {
                    messages[i] = m;
                },
                Err(e) => {
                    return Err(e);
                },
            }
            i = i + 1;
        }
        Ok(Self::from_seeds(signer, secret_keys, messages))
    }

    /// Verifies each trial on its own under `d`.
    pub fn verify_with(&self, d: &Driver) -> (r: Vec<i32>)
        requires
            self.lengths_fit(),
        ensures
            r@.len() == N,
            forall|i: int| 0 <= i < N ==> r@[i] == self.single_status(*d, i),
    {
        let mut r: Vec<i32> = Vec::new();
        let mut i: usize = 0;
        while i < N
            invariant
                self.lengths_fit(),
                0 <= i <= N,
                r@.len() == i,
                forall|j: int| 0 <= j < i ==> r@[j] == self.single_status(*d, j),
            decreases N - i,
        {
            let st = d.ed25519_sign_open(
                self.messages[i].as_slice(),
                self.lengths[i],
                &self.public_keys[i],
                &self.signatures[i],
            );
            r.push(st);
            i = i + 1;
        }
        r
    }

    /// Verifies all trials in one batch call under `d`: the aggregate status
    /// and the per-item statuses.
    pub fn verify_batch_with(&self, d: &Driver) -> (r: (i32, Vec<i32>))
        requires
            self.lengths_fit(),
        ensures
            r.0 == self.batch_status(*d),
            r.1@.len() == N,
            forall|i: int| 0 <= i < N ==> r.1@[i] == self.batch_item_status(*d, i),
    {
        let mut ms: Vec<&[u8]> = Vec::new();
        let mut i: usize = 0;
        while i < N
            invariant
                0 <= i <= N,
                ms@.len() == i,
                forall|j: int| 0 <= j < i ==> (#[trigger] ms@[j])@ == self.messages[j]@,
            decreases N - i,
        {
            ms.push(self.messages[i].as_slice());
            i = i + 1;
        }
        let lens = self.lengths.as_slice();
        let pks = self.public_keys.as_slice();
        let sigs = self.signatures.as_slice();
        assert(forall|j: int|
            #![trigger d.item_accepted(ms@, lens@, pks@, sigs@, j)]
            #![trigger self.accepted_by(*d, j)]
            0 <= j < N ==> d.item_accepted(ms@, lens@, pks@, sigs@, j) == self.accepted_by(*d, j));
        let r = d.ed25519_sign_open_batch(ms.as_slice(), lens, pks, sigs, N);
        r
    }

    /// Whether `d` derives every stored public key from its secret key.
    pub fn public_keys_agree_with(&self, d: &Driver) -> (r: bool)
        ensures
            r == forall|i: int|
                0 <= i < N ==> self.public_keys[i]@ == d.public_key_of(self.secret_keys[i]@),
    {
        let mut i: usize = 0;
        while i < N
            invariant
                0 <= i <= N,
                forall|j: int|
                    0 <= j < i ==> self.public_keys[j]@ == d.public_key_of(self.secret_keys[j]@),
            decreases N - i,
        {
            let pk = d.ed25519_publickey(&self.secret_keys[i]);
            if !bytes_equal(pk.as_slice(), self.public_keys[i].as_slice()) {
                return false;
            }
            i = i + 1;
        }
        true
    }
}

} // verus!
