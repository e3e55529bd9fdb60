use orbit_commission::errors::CommissionMarketErrors;
use orbit_commission::lifecycle::{
    commit_init_keys_handler, commit_link_handler, confirm_accept_handler,
    confirm_delivered_handler, deny_accept_handler, seller_accept_transaction_handler,
    update_status_to_shipping_handler,
};
use orbit_commission::key_escrow::commit_subkeys_handler;
use orbit_commission::settlement::compute_settlement;
use orbit_commission::state::{
    BuyerDecisionState, CommissionProduct, CommissionTransaction, OpenTransactionsLog,
    OrbitMarketAccount, OrbitProduct, TransactionState,
};

const BUYER_ID: u64 = 1;
const BUYER_WALLET: u64 = 11;
const SELLER_ID: u64 = 2;
const SELLER_WALLET: u64 = 22;
const REFLINK_ID: u64 = 3;
const PROGRAM_ID: [u8; 32] = [1u8; 32];

fn buyer_account(discounts: u64, used_reflink: u64) -> OrbitMarketAccount {
    OrbitMarketAccount {
        voter_id: BUYER_ID,
        wallet: BUYER_WALLET,
        dispute_discounts: discounts,
        used_reflink,
        transactions: 0,
    }
}

fn seller_account() -> OrbitMarketAccount {
    OrbitMarketAccount {
        voter_id: SELLER_ID,
        wallet: SELLER_WALLET,
        dispute_discounts: 0,
        used_reflink: 0,
        transactions: 0,
    }
}

fn product() -> CommissionProduct {
    CommissionProduct {
        metadata: OrbitProduct { index: 7, owner_catalog: SELLER_ID, seller: SELLER_ID },
        current_rate: 95,
    }
}

struct World {
    tx: CommissionTransaction,
    buyer: OrbitMarketAccount,
    seller: OrbitMarketAccount,
    buyer_log: OpenTransactionsLog,
    seller_log: OpenTransactionsLog,
}

/// Opens a transaction and drives it to a decided, fully revealed state
/// (no commitments staged), ready for settlement.
fn decided_world(price: u64, discounts: u64, used_reflink: u64, accept: bool) -> World {
    let mut buyer = buyer_account(discounts, used_reflink);
    let seller = seller_account();
    let mut buyer_log = OpenTransactionsLog::with_capacity(4);
    let mut seller_log = OpenTransactionsLog::with_capacity(4);
    let mut tx = CommissionTransaction::open_sol(
        &product(),
        &seller,
        &mut buyer,
        BUYER_WALLET,
        &mut buyer_log,
        &mut seller_log,
        0,
        1,
        price,
        discounts > 0,
        42,
    )
    .unwrap();
    seller_accept_transaction_handler(&mut tx, &seller, SELLER_WALLET).unwrap();
    tx.fund_escrow_sol(&buyer, BUYER_WALLET).unwrap();
    commit_init_keys_handler(&mut tx, &seller, SELLER_WALLET, Vec::new()).unwrap();
    commit_link_handler(&mut tx, &seller, SELLER_WALLET, String::from("ipfs://data")).unwrap();
    update_status_to_shipping_handler(&mut tx, &seller, SELLER_WALLET).unwrap();
    confirm_delivered_handler(&mut tx, &buyer, BUYER_WALLET).unwrap();
    if accept {
        confirm_accept_handler(&mut tx, &buyer, BUYER_WALLET).unwrap();
        // An empty reveal releases the (empty) key list and advances.
        commit_subkeys_handler(
            &mut tx,
            &seller,
            SELLER_WALLET,
            &Vec::new(),
            &Vec::new(),
            &PROGRAM_ID,
        )
        .unwrap();
    } else {
        deny_accept_handler(&mut tx, &mut buyer, BUYER_WALLET).unwrap();
    }
    assert_eq!(tx.transaction_state, TransactionState::BuyerConfirmedProduct);
    World { tx, buyer, seller, buyer_log, seller_log }
}

#[test]
fn accepted_regular_settlement_pays_seller_and_treasury() {
    let mut w = decided_world(1000, 0, 0, true);
    let plan = w
        .tx
        .close_sol(1000, &mut w.buyer, &mut w.seller, &mut w.buyer_log, &mut w.seller_log, 0)
        .unwrap();
    assert_eq!(plan.seller_amount, 950);
    assert_eq!(plan.treasury_amount, 50);
    assert_eq!(plan.reflink_amount, 0);
    assert_eq!(plan.buyer_amount, 0);
    assert_eq!(w.tx.transaction_state, TransactionState::Closed);
    assert_eq!(w.buyer.transactions, 1);
    assert_eq!(w.seller.transactions, 1);
    assert_eq!(w.buyer_log.slots[1], 0);
    assert_eq!(w.seller_log.slots[0], 0);
}

#[test]
fn accepted_settlement_with_matched_referral_splits_fee() {
    let mut w = decided_world(1000, 0, REFLINK_ID, true);
    let plan = w
        .tx
        .close_sol(
            1000,
            &mut w.buyer,
            &mut w.seller,
            &mut w.buyer_log,
            &mut w.seller_log,
            REFLINK_ID,
        )
        .unwrap();
    // A quarter percent to the referral, four and a half to the
    // treasury; the floor residue returns to the buyer.
    assert_eq!(plan.seller_amount, 950);
    assert_eq!(plan.reflink_amount, 2);
    assert_eq!(plan.treasury_amount, 45);
    assert_eq!(plan.buyer_amount, 3);
    assert_eq!(
        plan.seller_amount + plan.reflink_amount + plan.treasury_amount + plan.buyer_amount,
        1000
    );
}

#[test]
fn unmatched_referral_claim_sends_full_fee_to_treasury() {
    let mut w = decided_world(1000, 0, REFLINK_ID, true);
    let plan = w
        .tx
        .close_sol(1000, &mut w.buyer, &mut w.seller, &mut w.buyer_log, &mut w.seller_log, 9)
        .unwrap();
    assert_eq!(plan.reflink_amount, 0);
    assert_eq!(plan.treasury_amount, 50);
}

#[test]
fn discount_settlement_charges_no_fee() {
    let mut w = decided_world(1000, 1, 0, true);
    // The discount shaved the price to 950 and fixed the rate at 100.
    assert_eq!(w.tx.transaction_price, 950);
    assert_eq!(w.tx.close_rate, 100);
    let plan = w
        .tx
        .close_sol(950, &mut w.buyer, &mut w.seller, &mut w.buyer_log, &mut w.seller_log, 0)
        .unwrap();
    assert_eq!(plan.seller_amount, 950);
    assert_eq!(plan.treasury_amount, 0);
    assert_eq!(plan.reflink_amount, 0);
    assert_eq!(plan.buyer_amount, 0);
}

#[test]
fn declined_settlement_refunds_buyer_in_full() {
    let mut w = decided_world(1000, 0, 0, false);
    let plan = w
        .tx
        .close_sol(1000, &mut w.buyer, &mut w.seller, &mut w.buyer_log, &mut w.seller_log, 0)
        .unwrap();
    assert_eq!(plan.seller_amount, 0);
    assert_eq!(plan.treasury_amount, 0);
    assert_eq!(plan.buyer_amount, 1000);
}

#[test]
fn declined_discount_transaction_restores_credit() {
    let w = decided_world(1000, 1, 0, false);
    // One credit was consumed at open and one refunded at deny.
    assert_eq!(w.buyer.dispute_discounts, 1);
}

#[test]
fn settlement_conserves_value_on_odd_amounts() {
    for basis in [1u64, 7, 99, 997, 12345, u64::MAX] {
        for (rate, decision) in [
            (0u8, BuyerDecisionState::Declined),
            (95, BuyerDecisionState::Accept),
            (100, BuyerDecisionState::Accept),
        ] {
            for matched in [false, true] {
                let plan = compute_settlement(basis, rate, decision, matched);
                let total = plan.reflink_amount as u128 + plan.treasury_amount as u128
                    + plan.seller_amount as u128 + plan.buyer_amount as u128;
                assert_eq!(total, basis as u128);
            }
        }
    }
}

#[test]
fn settlement_exact_fee_formulas() {
    let plan = compute_settlement(10000, 95, BuyerDecisionState::Accept, true);
    assert_eq!(plan.reflink_amount, 25);
    assert_eq!(plan.treasury_amount, 450);
    assert_eq!(plan.seller_amount, 9500);
    assert_eq!(plan.buyer_amount, 25);
}

#[test]
fn close_spl_settles_against_recorded_price() {
    let mut buyer = buyer_account(0, 0);
    let seller = seller_account();
    let mut buyer_log = OpenTransactionsLog::with_capacity(4);
    let mut seller_log = OpenTransactionsLog::with_capacity(4);
    let mut tx = CommissionTransaction::open_spl(
        &product(),
        &seller,
        &mut buyer,
        BUYER_WALLET,
        &mut buyer_log,
        &mut seller_log,
        0,
        1,
        2000,
        false,
        42,
        77,
    )
    .unwrap();
    seller_accept_transaction_handler(&mut tx, &seller, SELLER_WALLET).unwrap();
    tx.fund_escrow_spl(&buyer, BUYER_WALLET).unwrap();
    commit_init_keys_handler(&mut tx, &seller, SELLER_WALLET, Vec::new()).unwrap();
    update_status_to_shipping_handler(&mut tx, &seller, SELLER_WALLET).unwrap();
    confirm_delivered_handler(&mut tx, &buyer, BUYER_WALLET).unwrap();
    confirm_accept_handler(&mut tx, &buyer, BUYER_WALLET).unwrap();
    commit_subkeys_handler(&mut tx, &seller, SELLER_WALLET, &Vec::new(), &Vec::new(), &PROGRAM_ID)
        .unwrap();
    let mut seller_mut = seller;
    let plan = tx
        .close_spl(&mut buyer, &mut seller_mut, &mut buyer_log, &mut seller_log, 0)
        .unwrap();
    assert_eq!(plan.seller_amount, 1900);
    assert_eq!(plan.treasury_amount, 100);
    assert_eq!(plan.buyer_amount, 0);
}

#[test]
fn close_from_opened_cancels_before_funding() {
    let mut buyer = buyer_account(0, 0);
    let mut seller = seller_account();
    let mut buyer_log = OpenTransactionsLog::with_capacity(4);
    let mut seller_log = OpenTransactionsLog::with_capacity(4);
    let mut tx = CommissionTransaction::open_sol(
        &product(),
        &seller,
        &mut buyer,
        BUYER_WALLET,
        &mut buyer_log,
        &mut seller_log,
        0,
        1,
        1000,
        false,
        42,
    )
    .unwrap();
    let plan = tx
        .close_sol(0, &mut buyer, &mut seller, &mut buyer_log, &mut seller_log, 0)
        .unwrap();
    assert_eq!(plan.seller_amount, 0);
    assert_eq!(plan.buyer_amount, 0);
    assert_eq!(tx.transaction_state, TransactionState::Closed);
}

#[test]
fn close_rejects_undecided_pipeline() {
    let mut buyer = buyer_account(0, 0);
    let mut seller = seller_account();
    let mut buyer_log = OpenTransactionsLog::with_capacity(4);
    let mut seller_log = OpenTransactionsLog::with_capacity(4);
    let mut tx = CommissionTransaction::open_sol(
        &product(),
        &seller,
        &mut buyer,
        BUYER_WALLET,
        &mut buyer_log,
        &mut seller_log,
        0,
        1,
        1000,
        false,
        42,
    )
    .unwrap();
    seller_accept_transaction_handler(&mut tx, &seller, SELLER_WALLET).unwrap();
    let r = tx.close_sol(1000, &mut buyer, &mut seller, &mut buyer_log, &mut seller_log, 0);
    assert_eq!(r.err(), Some(CommissionMarketErrors::InvalidState));
}

#[test]
fn early_decline_settles_at_frozen_rate_and_refunds_discount() {
    let mut buyer = buyer_account(1, 0);
    let seller = seller_account();
    let mut buyer_log = OpenTransactionsLog::with_capacity(4);
    let mut seller_log = OpenTransactionsLog::with_capacity(4);
    let mut tx = CommissionTransaction::open_sol(
        &product(),
        &seller,
        &mut buyer,
        BUYER_WALLET,
        &mut buyer_log,
        &mut seller_log,
        0,
        1,
        1000,
        true,
        42,
    )
    .unwrap();
    assert_eq!(buyer.dispute_discounts, 0);
    seller_accept_transaction_handler(&mut tx, &seller, SELLER_WALLET).unwrap();
    tx.fund_escrow_sol(&buyer, BUYER_WALLET).unwrap();
    let plan = tx
        .seller_early_decline_sol(
            950,
            &mut buyer,
            &seller,
            SELLER_WALLET,
            &mut buyer_log,
            &mut seller_log,
        )
        .unwrap();
    // close_rate was never assigned, so the seller gets nothing and the
    // whole escrow returns to the buyer.
    assert_eq!(plan.seller_amount, 0);
    assert_eq!(plan.buyer_amount, 950);
    assert_eq!(plan.treasury_amount, 0);
    assert_eq!(tx.transaction_state, TransactionState::Closed);
    // The consumed discount credit came back: net delta zero.
    assert_eq!(buyer.dispute_discounts, 1);
}

#[test]
fn early_decline_honours_a_negotiated_close_rate() {
    let mut buyer = buyer_account(0, 0);
    let seller = seller_account();
    let mut buyer_log = OpenTransactionsLog::with_capacity(4);
    let mut seller_log = OpenTransactionsLog::with_capacity(4);
    let mut tx = CommissionTransaction::open_sol(
        &product(),
        &seller,
        &mut buyer,
        BUYER_WALLET,
        &mut buyer_log,
        &mut seller_log,
        0,
        1,
        1000,
        false,
        42,
    )
    .unwrap();
    seller_accept_transaction_handler(&mut tx, &seller, SELLER_WALLET).unwrap();
    tx.fund_escrow_sol(&buyer, BUYER_WALLET).unwrap();
    orbit_commission::lifecycle::propose_rate_handler(&mut tx, &buyer, BUYER_WALLET, 80).unwrap();
    orbit_commission::lifecycle::accept_rate_handler(&mut tx, &seller, SELLER_WALLET).unwrap();
    let plan = tx
        .seller_early_decline_sol(
            1000,
            &mut buyer,
            &seller,
            SELLER_WALLET,
            &mut buyer_log,
            &mut seller_log,
        )
        .unwrap();
    // The early decline settles at whatever close rate is frozen.
    assert_eq!(plan.seller_amount, 800);
    assert_eq!(plan.buyer_amount, 200);
    assert_eq!(plan.treasury_amount, 0);
}

#[test]
fn close_rejects_wrong_parties() {
    let mut w = decided_world(1000, 0, 0, true);
    let mut stranger = OrbitMarketAccount {
        voter_id: 9,
        wallet: 99,
        dispute_discounts: 0,
        used_reflink: 0,
        transactions: 0,
    };
    let mut seller = seller_account();
    let r = w.tx.close_sol(
        1000,
        &mut stranger,
        &mut seller,
        &mut w.buyer_log,
        &mut w.seller_log,
        0,
    );
    assert_eq!(r.err(), Some(CommissionMarketErrors::InvalidAuthority));
    // Nothing was mutated by the refused close.
    assert_eq!(w.tx.transaction_state, TransactionState::BuyerConfirmedProduct);
    assert_eq!(seller.transactions, 0);
}

#[test]
fn early_decline_requires_seller_signature() {
    let mut buyer = buyer_account(0, 0);
    let seller = seller_account();
    let mut buyer_log = OpenTransactionsLog::with_capacity(4);
    let mut seller_log = OpenTransactionsLog::with_capacity(4);
    let mut tx = CommissionTransaction::open_sol(
        &product(),
        &seller,
        &mut buyer,
        BUYER_WALLET,
        &mut buyer_log,
        &mut seller_log,
        0,
        1,
        1000,
        false,
        42,
    )
    .unwrap();
    let r = tx.seller_early_decline_sol(
        1000,
        &mut buyer,
        &seller,
        BUYER_WALLET,
        &mut buyer_log,
        &mut seller_log,
    );
    assert_eq!(r.err(), Some(CommissionMarketErrors::InvalidAuthority));
}

#[test]
fn early_decline_blocked_after_decision() {
    let mut w = decided_world(1000, 0, 0, true);
    let seller = seller_account();
    let r = w.tx.seller_early_decline_sol(
        1000,
        &mut w.buyer,
        &seller,
        SELLER_WALLET,
        &mut w.buyer_log,
        &mut w.seller_log,
    );
    assert_eq!(r.err(), Some(CommissionMarketErrors::InvalidState));
}
