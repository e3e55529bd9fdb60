use vstd::prelude::*;
use crate::accounting::refund_discounts_after;
use crate::errors::CommissionMarketErrors;
use crate::mask::{bit_set, full_mask};
use crate::state::{
    BuyerDecisionState, CommissionTransaction, OrbitMarketAccount, TransactionState,
    decision_monotonic,
};

verus! {

/// The seller accepts a freshly opened commission: `Opened` moves to
/// `SellerConfirmed`. Seller-only; fails without effect in any other
/// state.
pub fn seller_accept_transaction_handler(
    tx: &mut CommissionTransaction,
    seller: &OrbitMarketAccount,
    signer_wallet: u64,
) -> (r: Result<(), CommissionMarketErrors>)
    requires
        old(tx).wf(),
    ensures
        final(tx).wf(),
        decision_monotonic(old(tx).final_decision, final(tx).final_decision),
        r is Ok <==> (old(tx).transaction_state is Opened && seller.voter_id == old(tx).seller
            && signer_wallet == seller.wallet),
        r is Ok ==> *final(tx) == (CommissionTransaction {
            transaction_state: TransactionState::SellerConfirmed,
            ..*old(tx)
        }),
        r is Err ==> *final(tx) == *old(tx),
        !(old(tx).transaction_state is Opened) ==> r == Err::<(), CommissionMarketErrors>(
            CommissionMarketErrors::InvalidState,
        ),
        old(tx).transaction_state is Opened && !(seller.voter_id == old(tx).seller
            && signer_wallet == seller.wallet) ==> r == Err::<(), CommissionMarketErrors>(
            CommissionMarketErrors::InvalidAuthority,
        ),
{
    if !matches!(tx.transaction_state, TransactionState::Opened) {
        return Err(CommissionMarketErrors::InvalidState);
    }
    if seller.voter_id != tx.seller || signer_wallet != seller.wallet {
        return Err(CommissionMarketErrors::InvalidAuthority);
    }
    tx.transaction_state = TransactionState::SellerConfirmed;
    Ok(())
}

/// The buyer confirms that the shipped commission arrived: `Shipped`
/// moves to `BuyerConfirmedDelivery`. Buyer-only, and only before a
/// final decision was made.
pub fn confirm_delivered_handler(
    tx: &mut CommissionTransaction,
    buyer: &OrbitMarketAccount,
    signer_wallet: u64,
) -> (r: Result<(), CommissionMarketErrors>)
    requires
        old(tx).wf(),
    ensures
        final(tx).wf(),
        decision_monotonic(old(tx).final_decision, final(tx).final_decision),
        r is Ok <==> (old(tx).final_decision is Null && buyer.voter_id == old(tx).buyer
            && signer_wallet == buyer.wallet && old(tx).transaction_state is Shipped),
        r is Ok ==> *final(tx) == (CommissionTransaction {
            transaction_state: TransactionState::BuyerConfirmedDelivery,
            ..*old(tx)
        }),
        r is Err ==> *final(tx) == *old(tx),
        !(old(tx).final_decision is Null) ==> r == Err::<(), CommissionMarketErrors>(
            CommissionMarketErrors::InvalidState,
        ),
        old(tx).final_decision is Null && !(buyer.voter_id == old(tx).buyer && signer_wallet
            == buyer.wallet) ==> r == Err::<(), CommissionMarketErrors>(
            CommissionMarketErrors::InvalidAuthority,
        ),
        old(tx).final_decision is Null && buyer.voter_id == old(tx).buyer && signer_wallet
            == buyer.wallet && !(old(tx).transaction_state is Shipped) ==> r == Err::<
            (),
            CommissionMarketErrors,
        >(CommissionMarketErrors::WaitingForSellerData),
{
    if !matches!(tx.final_decision, BuyerDecisionState::Null) {
        return Err(CommissionMarketErrors::InvalidState);
    }
    if buyer.voter_id != tx.buyer || signer_wallet != buyer.wallet {
        return Err(CommissionMarketErrors::InvalidAuthority);
    }
    if !matches!(tx.transaction_state, TransactionState::Shipped) {
        return Err(CommissionMarketErrors::WaitingForSellerData);
    }
    tx.transaction_state = TransactionState::BuyerConfirmedDelivery;
    Ok(())
}

/// The buyer accepts the delivered commission: the final decision is
/// fixed to `Accept` and the close rate is frozen to the current rate.
/// The lifecycle state deliberately does not advance here: settlement
/// stays blocked until every delivery secret has been released.
pub fn confirm_accept_handler(
    tx: &mut CommissionTransaction,
    buyer: &OrbitMarketAccount,
    signer_wallet: u64,
) -> (r: Result<(), CommissionMarketErrors>)
    requires
        old(tx).wf(),
    ensures
        final(tx).wf(),
        decision_monotonic(old(tx).final_decision, final(tx).final_decision),
        r is Ok <==> (old(tx).final_decision is Null && buyer.voter_id == old(tx).buyer
            && signer_wallet == buyer.wallet
            && old(tx).transaction_state is BuyerConfirmedDelivery),
        r is Ok ==> *final(tx) == (CommissionTransaction {
            final_decision: BuyerDecisionState::Accept,
            close_rate: old(tx).rate,
            ..*old(tx)
        }),
        r is Err ==> *final(tx) == *old(tx),
        !(old(tx).final_decision is Null) ==> r == Err::<(), CommissionMarketErrors>(
            CommissionMarketErrors::InvalidState,
        ),
        old(tx).final_decision is Null && !(buyer.voter_id == old(tx).buyer && signer_wallet
            == buyer.wallet) ==> r == Err::<(), CommissionMarketErrors>(
            CommissionMarketErrors::InvalidAuthority,
        ),
        old(tx).final_decision is Null && buyer.voter_id == old(tx).buyer && signer_wallet
            == buyer.wallet && !(old(tx).transaction_state is BuyerConfirmedDelivery) ==> r
            == Err::<(), CommissionMarketErrors>(CommissionMarketErrors::DidNotConfirmDelivery),
{
    if !matches!(tx.final_decision, BuyerDecisionState::Null) {
        return Err(CommissionMarketErrors::InvalidState);
    }
    if buyer.voter_id != tx.buyer || signer_wallet != buyer.wallet {
        return Err(CommissionMarketErrors::InvalidAuthority);
    }
    if !matches!(tx.transaction_state, TransactionState::BuyerConfirmedDelivery) {
        return Err(CommissionMarketErrors::DidNotConfirmDelivery);
    }
    tx.final_decision = BuyerDecisionState::Accept;
    tx.close_rate = tx.rate;
    Ok(())
}

/// The buyer denies the delivered commission: the rate collapses to
/// zero, the decision is fixed to `Declined`, the state advances to
/// `BuyerConfirmedProduct` (no key release is owed when no value moves
/// to the seller), and a consumed discount credit is refunded.
pub fn deny_accept_handler(
    tx: &mut CommissionTransaction,
    buyer_account: &mut OrbitMarketAccount,
    signer_wallet: u64,
) -> (r: Result<(), CommissionMarketErrors>)
    requires
        old(tx).wf(),
        old(buyer_account).dispute_discounts < u64::MAX,
    ensures
        final(tx).wf(),
        decision_monotonic(old(tx).final_decision, final(tx).final_decision),
        r is Ok <==> (old(tx).final_decision is Null && old(buyer_account).voter_id == old(
            tx,
        ).buyer && signer_wallet == old(buyer_account).wallet
            && old(tx).transaction_state is BuyerConfirmedDelivery),
        r is Ok ==> *final(tx) == (CommissionTransaction {
            rate: 0u8,
            close_rate: 0u8,
            final_decision: BuyerDecisionState::Declined,
            transaction_state: TransactionState::BuyerConfirmedProduct,
            ..*old(tx)
        }),
        r is Ok ==> final(buyer_account).dispute_discounts == refund_discounts_after(
            old(buyer_account).dispute_discounts as int,
            old(tx).rate,
        ) && *final(buyer_account) == (OrbitMarketAccount {
            dispute_discounts: final(buyer_account).dispute_discounts,
            ..*old(buyer_account)
        }),
        r is Err ==> *final(tx) == *old(tx) && *final(buyer_account) == *old(buyer_account),
        !(old(tx).final_decision is Null) ==> r == Err::<(), CommissionMarketErrors>(
            CommissionMarketErrors::InvalidState,
        ),
        old(tx).final_decision is Null && !(old(buyer_account).voter_id == old(tx).buyer
            && signer_wallet == old(buyer_account).wallet) ==> r == Err::<
            (),
            CommissionMarketErrors,
        >(CommissionMarketErrors::InvalidAuthority),
        old(tx).final_decision is Null && old(buyer_account).voter_id == old(tx).buyer
            && signer_wallet == old(buyer_account).wallet && !(
        old(tx).transaction_state is BuyerConfirmedDelivery) ==> r == Err::<
            (),
            CommissionMarketErrors,
        >(CommissionMarketErrors::DidNotConfirmDelivery),
{
    if !matches!(tx.final_decision, BuyerDecisionState::Null) {
        return Err(CommissionMarketErrors::InvalidState);
    }
    if buyer_account.voter_id != tx.buyer || signer_wallet != buyer_account.wallet {
        return Err(CommissionMarketErrors::InvalidAuthority);
    }
    if !matches!(tx.transaction_state, TransactionState::BuyerConfirmedDelivery) {
        return Err(CommissionMarketErrors::DidNotConfirmDelivery);
    }
    if tx.rate == 100 {
        buyer_account.dispute_discounts = buyer_account.dispute_discounts + 1;
    }
    tx.rate = 0;
    tx.close_rate = 0;
    tx.final_decision = BuyerDecisionState::Declined;
    tx.transaction_state = TransactionState::BuyerConfirmedProduct;
    Ok(())
}

/// Whether the seller guard of the staging operations passes: the
/// transaction is funded and waiting, the acting account is the seller
/// and its wallet signed.
pub open spec fn staging_guard(
    tx: CommissionTransaction,
    seller: OrbitMarketAccount,
    signer_wallet: u64,
) -> bool {
    &&& tx.transaction_state is BuyerFunded
    &&& seller.voter_id == tx.seller
    &&& signer_wallet == seller.wallet
}

/// The staging guard's error when it fails: the state first, then the
/// authority.
pub open spec fn staging_guard_error(
    tx: CommissionTransaction,
    seller: OrbitMarketAccount,
    signer_wallet: u64,
) -> CommissionMarketErrors {
    if !(tx.transaction_state is BuyerFunded) {
        CommissionMarketErrors::InvalidState
    } else {
        CommissionMarketErrors::InvalidAuthority
    }
}

/// The seller stages up to 64 delivery-secret commitments. The pending
/// mask is reset to all-ones over the submitted length: every commitment
/// starts unrevealed.
pub fn commit_init_keys_handler(
    tx: &mut CommissionTransaction,
    seller: &OrbitMarketAccount,
    signer_wallet: u64,
    submission_keys: Vec<[u8; 32]>,
) -> (r: Result<(), CommissionMarketErrors>)
    requires
        old(tx).wf(),
    ensures
        final(tx).wf(),
        decision_monotonic(old(tx).final_decision, final(tx).final_decision),
        r is Ok <==> (staging_guard(*old(tx), *seller, signer_wallet) && submission_keys@.len()
            <= 64),
        r is Ok ==> *final(tx) == (CommissionTransaction {
            key_arr: submission_keys,
            pending_mask: final(tx).pending_mask,
            ..*old(tx)
        }),
        r is Ok ==> forall|i: u64|
            bit_set(final(tx).pending_mask, i) <==> i < submission_keys@.len(),
        r is Err ==> *final(tx) == *old(tx),
        !staging_guard(*old(tx), *seller, signer_wallet) ==> r == Err::<
            (),
            CommissionMarketErrors,
        >(staging_guard_error(*old(tx), *seller, signer_wallet)),
        staging_guard(*old(tx), *seller, signer_wallet) && submission_keys@.len() > 64 ==> r
            == Err::<(), CommissionMarketErrors>(CommissionMarketErrors::IndexOutOfRange),
{
    if !matches!(tx.transaction_state, TransactionState::BuyerFunded) {
        return Err(CommissionMarketErrors::InvalidState);
    }
    if seller.voter_id != tx.seller || signer_wallet != seller.wallet {
        return Err(CommissionMarketErrors::InvalidAuthority);
    }
    if submission_keys.len() > 64 {
        return Err(CommissionMarketErrors::IndexOutOfRange);
    }
    let mask = full_mask(submission_keys.len());
    tx.key_arr = submission_keys;
    tx.pending_mask = mask;
    Ok(())
}

/// The seller stages the delivery pointer for the committed data.
pub fn commit_link_handler(
    tx: &mut CommissionTransaction,
    seller: &OrbitMarketAccount,
    signer_wallet: u64,
    link: String,
) -> (r: Result<(), CommissionMarketErrors>)
    requires
        old(tx).wf(),
    ensures
        final(tx).wf(),
        decision_monotonic(old(tx).final_decision, final(tx).final_decision),
        r is Ok <==> staging_guard(*old(tx), *seller, signer_wallet),
        r is Ok ==> *final(tx) == (CommissionTransaction { data_address: link, ..*old(tx) }),
        r is Err ==> *final(tx) == *old(tx) && r == Err::<(), CommissionMarketErrors>(
            staging_guard_error(*old(tx), *seller, signer_wallet),
        ),
{
    if !matches!(tx.transaction_state, TransactionState::BuyerFunded) {
        return Err(CommissionMarketErrors::InvalidState);
    }
    if seller.voter_id != tx.seller || signer_wallet != seller.wallet {
        return Err(CommissionMarketErrors::InvalidAuthority);
    }
    tx.data_address = link;
    Ok(())
}

/// The seller declares readiness: `BuyerFunded` moves to `Shipped`.
/// Committing data and shipping are separable so data can be staged
/// before readiness is declared.
pub fn update_status_to_shipping_handler(
    tx: &mut CommissionTransaction,
    seller: &OrbitMarketAccount,
    signer_wallet: u64,
) -> (r: Result<(), CommissionMarketErrors>)
    requires
        old(tx).wf(),
    ensures
        final(tx).wf(),
        decision_monotonic(old(tx).final_decision, final(tx).final_decision),
        r is Ok <==> staging_guard(*old(tx), *seller, signer_wallet),
        r is Ok ==> *final(tx) == (CommissionTransaction {
            transaction_state: TransactionState::Shipped,
            ..*old(tx)
        }),
        r is Err ==> *final(tx) == *old(tx) && r == Err::<(), CommissionMarketErrors>(
            staging_guard_error(*old(tx), *seller, signer_wallet),
        ),
{
    if !matches!(tx.transaction_state, TransactionState::BuyerFunded) {
        return Err(CommissionMarketErrors::InvalidState);
    }
    if seller.voter_id != tx.seller || signer_wallet != seller.wallet {
        return Err(CommissionMarketErrors::InvalidAuthority);
    }
    tx.transaction_state = TransactionState::Shipped;
    Ok(())
}

/// The seller stages the negotiated preview's address.
pub fn commit_preview_handler(
    tx: &mut CommissionTransaction,
    seller: &OrbitMarketAccount,
    signer_wallet: u64,
    link: String,
) -> (r: Result<(), CommissionMarketErrors>)
    requires
        old(tx).wf(),
    ensures
        final(tx).wf(),
        decision_monotonic(old(tx).final_decision, final(tx).final_decision),
        r is Ok <==> staging_guard(*old(tx), *seller, signer_wallet),
        r is Ok ==> *final(tx) == (CommissionTransaction { preview_address: link, ..*old(tx) }),
        r is Err ==> *final(tx) == *old(tx) && r == Err::<(), CommissionMarketErrors>(
            staging_guard_error(*old(tx), *seller, signer_wallet),
        ),
{
    if !matches!(tx.transaction_state, TransactionState::BuyerFunded) {
        return Err(CommissionMarketErrors::InvalidState);
    }
    if seller.voter_id != tx.seller || signer_wallet != seller.wallet {
        return Err(CommissionMarketErrors::InvalidAuthority);
    }
    tx.preview_address = link;
    Ok(())
}

/// Either party proposes a preview rate, recording itself as the last
/// offerer; only the other party may later accept it.
pub fn propose_rate_handler(
    tx: &mut CommissionTransaction,
    proposer: &OrbitMarketAccount,
    signer_wallet: u64,
    new_rate: u8,
) -> (r: Result<(), CommissionMarketErrors>)
    requires
        old(tx).wf(),
    ensures
        final(tx).wf(),
        decision_monotonic(old(tx).final_decision, final(tx).final_decision),
        r is Ok <==> (old(tx).transaction_state is BuyerFunded && old(tx).is_party(
            proposer.voter_id,
        ) && signer_wallet == proposer.wallet && new_rate <= 100),
        r is Ok ==> *final(tx) == (CommissionTransaction {
            preview_rate: new_rate,
            last_rate_offerer: proposer.voter_id,
            ..*old(tx)
        }),
        r is Err ==> *final(tx) == *old(tx),
        !(old(tx).transaction_state is BuyerFunded) ==> r == Err::<(), CommissionMarketErrors>(
            CommissionMarketErrors::InvalidState,
        ),
        old(tx).transaction_state is BuyerFunded && !(old(tx).is_party(proposer.voter_id)
            && signer_wallet == proposer.wallet) ==> r == Err::<(), CommissionMarketErrors>(
            CommissionMarketErrors::InvalidAuthority,
        ),
        old(tx).transaction_state is BuyerFunded && old(tx).is_party(proposer.voter_id)
            && signer_wallet == proposer.wallet && new_rate > 100 ==> r == Err::<
            (),
            CommissionMarketErrors,
        >(CommissionMarketErrors::RateOutsideRange),
{
    if !matches!(tx.transaction_state, TransactionState::BuyerFunded) {
        return Err(CommissionMarketErrors::InvalidState);
    }
    if (proposer.voter_id != tx.buyer && proposer.voter_id != tx.seller) || signer_wallet
        != proposer.wallet {
        return Err(CommissionMarketErrors::InvalidAuthority);
    }
    if new_rate > 100 {
        return Err(CommissionMarketErrors::RateOutsideRange);
    }
    tx.preview_rate = new_rate;
    tx.last_rate_offerer = proposer.voter_id;
    Ok(())
}

/// The counterparty accepts the proposed rate: the close rate is frozen
/// to the proposal and the offerer resets to the seller, arming the next
/// round. The party that last proposed cannot accept its own offer.
pub fn accept_rate_handler(
    tx: &mut CommissionTransaction,
    acceptor: &OrbitMarketAccount,
    signer_wallet: u64,
) -> (r: Result<(), CommissionMarketErrors>)
    requires
        old(tx).wf(),
    ensures
        final(tx).wf(),
        decision_monotonic(old(tx).final_decision, final(tx).final_decision),
        r is Ok <==> (old(tx).transaction_state is BuyerFunded && old(tx).is_party(
            acceptor.voter_id,
        ) && signer_wallet == acceptor.wallet && acceptor.voter_id != old(tx).last_rate_offerer),
        r is Ok ==> *final(tx) == (CommissionTransaction {
            last_rate_offerer: old(tx).seller,
            close_rate: old(tx).preview_rate,
            ..*old(tx)
        }),
        r is Err ==> *final(tx) == *old(tx),
        !(old(tx).transaction_state is BuyerFunded) ==> r == Err::<(), CommissionMarketErrors>(
            CommissionMarketErrors::InvalidState,
        ),
        old(tx).transaction_state is BuyerFunded && !(old(tx).is_party(acceptor.voter_id)
            && signer_wallet == acceptor.wallet) ==> r == Err::<(), CommissionMarketErrors>(
            CommissionMarketErrors::InvalidAuthority,
        ),
        old(tx).transaction_state is BuyerFunded && old(tx).is_party(acceptor.voter_id)
            && signer_wallet == acceptor.wallet && acceptor.voter_id == old(
            tx,
        ).last_rate_offerer ==> r == Err::<(), CommissionMarketErrors>(
            CommissionMarketErrors::InvalidRateAcceptor,
        ),
{
    if !matches!(tx.transaction_state, TransactionState::BuyerFunded) {
        return Err(CommissionMarketErrors::InvalidState);
    }
    if (acceptor.voter_id != tx.buyer && acceptor.voter_id != tx.seller) || signer_wallet
        != acceptor.wallet {
        return Err(CommissionMarketErrors::InvalidAuthority);
    }
    if acceptor.voter_id == tx.last_rate_offerer {
        return Err(CommissionMarketErrors::InvalidRateAcceptor);
    }
    tx.last_rate_offerer = tx.seller;
    tx.close_rate = tx.preview_rate;
    Ok(())
}

} // verus!
