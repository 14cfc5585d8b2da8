//! What holds of every batch and every pair of drivers.

use crate::batch::Batch;
use crate::driver::{Driver, VALID};
use vstd::prelude::*;

verus! {

/// A second driver of the same algorithm gives, on every trial of a batch
/// generated by the first, the same verification status as the first.
pub proof fn lemma_cross_backend_agreement<const N: usize, const M: usize>(
    d1: Driver,
    d2: Driver,
    b: Batch<N, M>,
)
    requires
        b.generated_by(d1),
        d1.same_algorithm(d2),
    ensures
        forall|i: int| 0 <= i < N ==> #[trigger] b.single_status(d2, i) == b.single_status(d1, i),
{
    assert forall|i: int| 0 <= i < N implies #[trigger] b.single_status(d2, i) == b.single_status(
        d1,
        i,
    ) by {
        assert(d1.accepts(b.message(i), b.public_keys[i]@, b.signatures[i]@) == d2.accepts(
            b.message(i),
            b.public_keys[i]@,
            b.signatures[i]@,
        ));
    }
}

/// A second driver of the same algorithm derives, from every secret key of a
/// batch generated by the first, the public key stored beside it.
pub proof fn lemma_key_derivation_agreement<const N: usize, const M: usize>(
    d1: Driver,
    d2: Driver,
    b: Batch<N, M>,
)
    requires
        b.generated_by(d1),
        d1.same_algorithm(d2),
    ensures
        forall|i: int|
            0 <= i < N ==> b.public_keys[i]@ == #[trigger] d2.public_key_of(b.secret_keys[i]@),
{
    assert forall|i: int| 0 <= i < N implies b.public_keys[i]@ == #[trigger] d2.public_key_of(
        b.secret_keys[i]@,
    ) by {
        assert(b.trial_generated_by(d1, i));
        assert(d1.public_key_of(b.secret_keys[i]@) == d2.public_key_of(b.secret_keys[i]@));
    }
}

/// Batch verification of a batch passes exactly when every single
/// verification passes, and its per-item statuses mark exactly the trials
/// whose single verification fails.
pub proof fn lemma_batch_verify_equivalence<const N: usize, const M: usize>(
    d: Driver,
    b: Batch<N, M>,
)
    ensures
        (b.batch_status(d) == VALID) == (forall|i: int|
            0 <= i < N ==> #[trigger] b.single_status(d, i) == VALID),
        forall|i: int|
            0 <= i < N ==> (#[trigger] b.batch_item_status(d, i) == 0) == (b.single_status(d, i)
                != VALID),
{
    if forall|i: int| 0 <= i < N ==> #[trigger] b.single_status(d, i) == VALID {
        assert forall|i: int| 0 <= i < N implies #[trigger] b.accepted_by(d, i) by {
            assert(b.single_status(d, i) == VALID);
        }
    }
    if forall|i: int| 0 <= i < N ==> #[trigger] b.accepted_by(d, i) {
        assert forall|i: int| 0 <= i < N implies #[trigger] b.single_status(d, i) == VALID by {
            assert(b.accepted_by(d, i));
        }
    }
}

} // verus!
