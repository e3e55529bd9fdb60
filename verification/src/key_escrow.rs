use vstd::prelude::*;
use crate::errors::CommissionMarketErrors;
use crate::mask::{bit_set, clear_bit, popcnt};
use crate::pda::{derive_program_reference, derived_reference, key_eq};
use crate::state::{
    CommissionTransaction, OrbitMarketAccount, RevealProof, TransactionState, decision_monotonic,
};

verus! {

/// Whether one reveal entry is acceptable against the stored
/// commitments: the index lies inside the committed length, the
/// revealed key co-signed, and its derived reference equals the stored
/// commitment at that index.
pub open spec fn reveal_ok(
    keys: Seq<[u8; 32]>,
    idx: u8,
    proof: RevealProof,
    program: Seq<u8>,
) -> bool {
    &&& (idx as int) < keys.len()
    &&& proof.is_signer
    &&& derived_reference(proof.key@, program) == Some(keys[idx as int]@)
}

/// The error one unacceptable reveal entry draws: the bounds check
/// comes first, then the possession check, then the reference match.
pub open spec fn reveal_entry_error(
    keys: Seq<[u8; 32]>,
    idx: u8,
    proof: RevealProof,
) -> CommissionMarketErrors {
    if (idx as int) >= keys.len() {
        CommissionMarketErrors::IndexOutOfRange
    } else if !proof.is_signer {
        CommissionMarketErrors::CorruptPrivateKeyFormat
    } else {
        CommissionMarketErrors::IncorrectPrivateKey
    }
}

/// Whether one of the first `upto` submitted indexes equals `i`.
pub open spec fn index_in(indexes: Seq<u8>, upto: int, i: u64) -> bool {
    exists|k: int| 0 <= k < upto && indexes[k] == i
}

/// Law: on a well-formed transaction the pending mask is zero exactly
/// when no committed index remains pending, so "everything revealed" is
/// a constant-time check and settlement unblocks precisely then.
pub proof fn lemma_pending_none_iff_mask_zero(tx: CommissionTransaction)
    requires
        tx.wf(),
    ensures
        tx.pending_mask == 0 <==> (forall|i: u64|
            i < tx.key_arr@.len() ==> !bit_set(tx.pending_mask, i)),
{
    crate::mask::lemma_mask_zero_iff_no_bits(tx.pending_mask);
}

/// The seller reveals delivery secrets for a set of committed indexes,
/// one accompanying proof per index. The whole batch is validated
/// before anything is mutated: a single bad entry fails the submission
/// with that entry's error and zero side effects. Each accepted reveal
/// clears the index's pending bit and overwrites the commitment with
/// the revealed key; once no index remains pending the lifecycle
/// advances to `BuyerConfirmedProduct`, unblocking settlement.
#[verifier::loop_isolation(false)]
pub fn commit_subkeys_handler(
    tx: &mut CommissionTransaction,
    seller: &OrbitMarketAccount,
    signer_wallet: u64,
    indexes: &Vec<u8>,
    proofs: &Vec<RevealProof>,
    program: &[u8; 32],
) -> (r: Result<(), CommissionMarketErrors>)
    requires
        old(tx).wf(),
        indexes@.len() == proofs@.len(),
        forall|k1: int, k2: int|
            0 <= k1 < k2 < indexes@.len() ==> indexes@[k1] != indexes@[k2],
    ensures
        final(tx).wf(),
        decision_monotonic(old(tx).final_decision, final(tx).final_decision),
        r is Ok <==> (old(tx).transaction_state is BuyerConfirmedDelivery && seller.voter_id
            == old(tx).seller && signer_wallet == seller.wallet && (forall|k: int|
            0 <= k < indexes@.len() ==> reveal_ok(
                old(tx).key_arr@,
                indexes@[k],
                proofs@[k],
                program@,
            ))),
        r is Err ==> *final(tx) == *old(tx),
        !(old(tx).transaction_state is BuyerConfirmedDelivery) ==> r == Err::<
            (),
            CommissionMarketErrors,
        >(CommissionMarketErrors::InvalidState),
        old(tx).transaction_state is BuyerConfirmedDelivery && !(seller.voter_id == old(
            tx,
        ).seller && signer_wallet == seller.wallet) ==> r == Err::<(), CommissionMarketErrors>(
            CommissionMarketErrors::InvalidAuthority,
        ),
        forall|k: int|
            old(tx).transaction_state is BuyerConfirmedDelivery && seller.voter_id == old(
                tx,
            ).seller && signer_wallet == seller.wallet && 0 <= k < indexes@.len() && !reveal_ok(
                old(tx).key_arr@,
                indexes@[k],
                proofs@[k],
                program@,
            ) && (forall|j: int|
                0 <= j < k ==> reveal_ok(
                    old(tx).key_arr@,
                    indexes@[j],
                    proofs@[j],
                    program@,
                )) ==> r == Err::<(), CommissionMarketErrors>(
                reveal_entry_error(old(tx).key_arr@, indexes@[k], proofs@[k]),
            ),
        r is Ok ==> final(tx).key_arr@.len() == old(tx).key_arr@.len(),
        r is Ok ==> (forall|i: int|
            0 <= i < old(tx).key_arr@.len() && !index_in(indexes@, indexes@.len() as int, i as u64)
                ==> final(tx).key_arr@[i] == old(tx).key_arr@[i]),
        r is Ok ==> (forall|k: int|
            0 <= k < indexes@.len() ==> final(tx).key_arr@[indexes@[k] as int]
                == proofs@[k].key),
        r is Ok ==> (forall|i: u64|
            #[trigger] bit_set(final(tx).pending_mask, i) <==> (bit_set(old(tx).pending_mask, i)
                && !index_in(indexes@, indexes@.len() as int, i))),
        popcnt(final(tx).pending_mask) <= popcnt(old(tx).pending_mask),
        r is Ok ==> final(tx).transaction_state == (if final(tx).pending_mask == 0 {
            TransactionState::BuyerConfirmedProduct
        } else {
            old(tx).transaction_state
        }),
        r is Ok ==> *final(tx) == (CommissionTransaction {
            transaction_state: final(tx).transaction_state,
            key_arr: final(tx).key_arr,
            pending_mask: final(tx).pending_mask,
            ..*old(tx)
        }),
{
    if !matches!(tx.transaction_state, TransactionState::BuyerConfirmedDelivery) {
        return Err(CommissionMarketErrors::InvalidState);
    }
    if seller.voter_id != tx.seller || signer_wallet != seller.wallet {
        return Err(CommissionMarketErrors::InvalidAuthority);
    }
    // First pass: validate the whole batch against the stored
    // commitments, so a failure leaves the transaction untouched.
    let n = indexes.len();
    let mut k: usize = 0;
    while k < n
        invariant
            n == indexes@.len(),
            indexes@.len() == proofs@.len(),
            k <= n,
            tx.key_arr@.len() <= 64,
            forall|j: int|
                0 <= j < k ==> reveal_ok(tx.key_arr@, indexes@[j], proofs@[j], program@),
        decreases n - k,
    {
        let idx = indexes[k];
        if (idx as usize) >= tx.key_arr.len() {
            return Err(CommissionMarketErrors::IndexOutOfRange);
        }
        if !proofs[k].is_signer {
            return Err(CommissionMarketErrors::CorruptPrivateKeyFormat);
        }
        let derived = derive_program_reference(&proofs[k].key, program);
        match derived {
            Some(d) => {
                if !key_eq(&d, &tx.key_arr[idx as usize]) {
                    return Err(CommissionMarketErrors::IncorrectPrivateKey);
                }
            },
            None => {
                return Err(CommissionMarketErrors::IncorrectPrivateKey);
            },
        }
        k = k + 1;
    }
    // Second pass: clear each revealed index's pending bit and make the
    // revealed key durably retrievable in the commitment slot.
    let ghost keys0 = tx.key_arr@;
    let ghost mask0 = tx.pending_mask;
    let mut k: usize = 0;
    while k < n
        invariant
            n == indexes@.len(),
            indexes@.len() == proofs@.len(),
            k <= n,
            forall|k1: int, k2: int|
                0 <= k1 < k2 < indexes@.len() ==> indexes@[k1] != indexes@[k2],
            forall|j: int| 0 <= j < n ==> reveal_ok(keys0, indexes@[j], proofs@[j], program@),
            *tx == (CommissionTransaction {
                key_arr: tx.key_arr,
                pending_mask: tx.pending_mask,
                ..*old(tx)
            }),
            tx.key_arr@.len() == keys0.len(),
            keys0.len() <= 64,
            forall|i: int|
                0 <= i < keys0.len() && !index_in(indexes@, k as int, i as u64) ==> tx.key_arr@[i]
                    == keys0[i],
            forall|j: int|
                0 <= j < k ==> tx.key_arr@[indexes@[j] as int] == proofs@[j].key,
            forall|i: u64|
                #[trigger] bit_set(tx.pending_mask, i) <==> (bit_set(mask0, i) && !index_in(
                    indexes@,
                    k as int,
                    i,
                )),
            popcnt(tx.pending_mask) <= popcnt(mask0),
        decreases n - k,
    {
        let idx = indexes[k];
        assert(reveal_ok(keys0, indexes@[k as int], proofs@[k as int], program@));
        let ghost m_prev = tx.pending_mask;
        tx.pending_mask = clear_bit(tx.pending_mask, idx as u64);
        let revealed = proofs[k].key;
        tx.key_arr.set(idx as usize, revealed);
        proof {
            assert forall|i: u64|
                #[trigger] bit_set(tx.pending_mask, i) <==> (bit_set(mask0, i) && !index_in(
                    indexes@,
                    k + 1,
                    i,
                )) by {
                assert(bit_set(tx.pending_mask, i) <==> (bit_set(m_prev, i) && i != idx as u64));
                assert(bit_set(m_prev, i) <==> (bit_set(mask0, i) && !index_in(
                    indexes@,
                    k as int,
                    i,
                )));
                if i == idx as u64 {
                    assert(indexes@[k as int] == i);
                    assert(index_in(indexes@, k + 1, i));
                } else {
                    if index_in(indexes@, k + 1, i) {
                        let j = choose|j: int| 0 <= j < k + 1 && indexes@[j] == i;
                        assert(j != k);
                        assert(index_in(indexes@, k as int, i));
                    }
                    if index_in(indexes@, k as int, i) {
                        let j = choose|j: int| 0 <= j < k && indexes@[j] == i;
                        assert(0 <= j < k + 1 && indexes@[j] == i);
                        assert(index_in(indexes@, k + 1, i));
                    }
                }
            }
        }
        k = k + 1;
    }
    proof {
        assert(tx.transaction_state == old(tx).transaction_state);
        assert forall|i: u64| i >= tx.key_arr@.len() implies !bit_set(tx.pending_mask, i) by {
            assert(!bit_set(mask0, i));
        }
    }
    if tx.pending_mask == 0 {
        tx.transaction_state = TransactionState::BuyerConfirmedProduct;
    }
    Ok(())
}

} // verus!
