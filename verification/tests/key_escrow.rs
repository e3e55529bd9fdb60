use anchor_lang::prelude::Pubkey;
use orbit_commission::errors::CommissionMarketErrors;
use orbit_commission::key_escrow::commit_subkeys_handler;
use orbit_commission::lifecycle::{
    commit_init_keys_handler, commit_link_handler, confirm_accept_handler,
    confirm_delivered_handler, seller_accept_transaction_handler,
    update_status_to_shipping_handler,
};
use orbit_commission::state::{
    CommissionProduct, CommissionTransaction, OpenTransactionsLog, OrbitMarketAccount,
    OrbitProduct, RevealProof, TransactionState,
};

const BUYER_ID: u64 = 1;
const BUYER_WALLET: u64 = 11;
const SELLER_ID: u64 = 2;
const SELLER_WALLET: u64 = 22;
const PROGRAM_ID: [u8; 32] = [1u8; 32];

fn buyer() -> OrbitMarketAccount {
    OrbitMarketAccount {
        voter_id: BUYER_ID,
        wallet: BUYER_WALLET,
        dispute_discounts: 0,
        used_reflink: 0,
        transactions: 0,
    }
}

fn seller() -> OrbitMarketAccount {
    OrbitMarketAccount {
        voter_id: SELLER_ID,
        wallet: SELLER_WALLET,
        dispute_discounts: 0,
        used_reflink: 0,
        transactions: 0,
    }
}

/// What the chain derives for a revealed key: the commitment the seller
/// must have staged for the reveal to be accepted.
fn commitment_for(key: &[u8; 32]) -> [u8; 32] {
    let (derived, _bump) =
        Pubkey::find_program_address(&[key], &Pubkey::new_from_array(PROGRAM_ID));
    derived.to_bytes()
}

/// Opens a transaction, stages the given commitments and drives it to
/// `BuyerConfirmedDelivery`, where reveals are permitted.
fn world_with_commitments(commitments: Vec<[u8; 32]>) -> CommissionTransaction {
    let product = CommissionProduct {
        metadata: OrbitProduct { index: 7, owner_catalog: SELLER_ID, seller: SELLER_ID },
        current_rate: 95,
    };
    let mut buyer_acc = buyer();
    let mut buyer_log = OpenTransactionsLog::with_capacity(4);
    let mut seller_log = OpenTransactionsLog::with_capacity(4);
    let mut tx = CommissionTransaction::open_sol(
        &product,
        &seller(),
        &mut buyer_acc,
        BUYER_WALLET,
        &mut buyer_log,
        &mut seller_log,
        0,
        0,
        1000,
        false,
        42,
    )
    .unwrap();
    seller_accept_transaction_handler(&mut tx, &seller(), SELLER_WALLET).unwrap();
    tx.fund_escrow_sol(&buyer_acc, BUYER_WALLET).unwrap();
    commit_init_keys_handler(&mut tx, &seller(), SELLER_WALLET, commitments).unwrap();
    commit_link_handler(&mut tx, &seller(), SELLER_WALLET, String::from("ipfs://data")).unwrap();
    update_status_to_shipping_handler(&mut tx, &seller(), SELLER_WALLET).unwrap();
    confirm_delivered_handler(&mut tx, &buyer(), BUYER_WALLET).unwrap();
    tx
}

#[test]
fn valid_reveal_clears_bit_and_stores_key() {
    let secret = [7u8; 32];
    let mut tx = world_with_commitments(vec![commitment_for(&secret)]);
    commit_subkeys_handler(
        &mut tx,
        &seller(),
        SELLER_WALLET,
        &vec![0],
        &vec![RevealProof { key: secret, is_signer: true }],
        &PROGRAM_ID,
    )
    .unwrap();
    assert_eq!(tx.pending_mask, 0);
    // The revealed secret is durably retrievable in the slot.
    assert_eq!(tx.key_arr[0], secret);
    assert_eq!(tx.transaction_state, TransactionState::BuyerConfirmedProduct);
}

#[test]
fn partial_reveal_keeps_other_indices_pending() {
    let secrets = [[3u8; 32], [4u8; 32], [5u8; 32]];
    let commitments = secrets.iter().map(commitment_for).collect::<Vec<_>>();
    let mut tx = world_with_commitments(commitments);
    confirm_accept_handler(&mut tx, &buyer(), BUYER_WALLET).unwrap();
    assert_eq!(tx.pending_mask, 0b111);
    commit_subkeys_handler(
        &mut tx,
        &seller(),
        SELLER_WALLET,
        &vec![1],
        &vec![RevealProof { key: secrets[1], is_signer: true }],
        &PROGRAM_ID,
    )
    .unwrap();
    // Indices 0 and 2 stay pending; the lifecycle does not advance.
    assert_eq!(tx.pending_mask, 0b101);
    assert_eq!(tx.transaction_state, TransactionState::BuyerConfirmedDelivery);
    // Settlement is still blocked in this state.
    let mut buyer_acc = buyer();
    let mut seller_acc = seller();
    let mut buyer_log = OpenTransactionsLog::with_capacity(4);
    let mut seller_log = OpenTransactionsLog::with_capacity(4);
    let r = tx.close_sol(
        1000,
        &mut buyer_acc,
        &mut seller_acc,
        &mut buyer_log,
        &mut seller_log,
        0,
    );
    assert_eq!(r.err(), Some(CommissionMarketErrors::InvalidState));
}

#[test]
fn revealing_every_index_advances_the_lifecycle() {
    let secrets = [[3u8; 32], [4u8; 32], [5u8; 32]];
    let commitments = secrets.iter().map(commitment_for).collect::<Vec<_>>();
    let mut tx = world_with_commitments(commitments);
    let proofs = secrets
        .iter()
        .map(|s| RevealProof { key: *s, is_signer: true })
        .collect::<Vec<_>>();
    commit_subkeys_handler(&mut tx, &seller(), SELLER_WALLET, &vec![0, 1, 2], &proofs, &PROGRAM_ID)
        .unwrap();
    assert_eq!(tx.pending_mask, 0);
    assert_eq!(tx.transaction_state, TransactionState::BuyerConfirmedProduct);
}

#[test]
fn mismatched_reference_is_rejected_without_effect() {
    let mut tx = world_with_commitments(vec![[9u8; 32]]);
    let before_mask = tx.pending_mask;
    let r = commit_subkeys_handler(
        &mut tx,
        &seller(),
        SELLER_WALLET,
        &vec![0],
        &vec![RevealProof { key: [7u8; 32], is_signer: true }],
        &PROGRAM_ID,
    );
    assert_eq!(r.err(), Some(CommissionMarketErrors::IncorrectPrivateKey));
    assert_eq!(tx.pending_mask, before_mask);
    assert_eq!(tx.key_arr[0], [9u8; 32]);
}

#[test]
fn raw_key_as_commitment_is_rejected() {
    // Staging the bare key instead of its derived reference must fail:
    // the derivation is not the identity.
    let secret = [7u8; 32];
    let mut tx = world_with_commitments(vec![secret]);
    let r = commit_subkeys_handler(
        &mut tx,
        &seller(),
        SELLER_WALLET,
        &vec![0],
        &vec![RevealProof { key: secret, is_signer: true }],
        &PROGRAM_ID,
    );
    assert_eq!(r.err(), Some(CommissionMarketErrors::IncorrectPrivateKey));
}

#[test]
fn non_signing_proof_is_rejected() {
    let secret = [7u8; 32];
    let mut tx = world_with_commitments(vec![commitment_for(&secret)]);
    let r = commit_subkeys_handler(
        &mut tx,
        &seller(),
        SELLER_WALLET,
        &vec![0],
        &vec![RevealProof { key: secret, is_signer: false }],
        &PROGRAM_ID,
    );
    assert_eq!(r.err(), Some(CommissionMarketErrors::CorruptPrivateKeyFormat));
    assert_eq!(tx.pending_mask, 0b1);
}

#[test]
fn reveal_index_beyond_commitments_is_rejected() {
    let secret = [7u8; 32];
    let mut tx = world_with_commitments(vec![commitment_for(&secret)]);
    let r = commit_subkeys_handler(
        &mut tx,
        &seller(),
        SELLER_WALLET,
        &vec![1],
        &vec![RevealProof { key: secret, is_signer: true }],
        &PROGRAM_ID,
    );
    assert_eq!(r.err(), Some(CommissionMarketErrors::IndexOutOfRange));
}

#[test]
fn one_bad_entry_fails_the_whole_batch() {
    let secrets = [[3u8; 32], [4u8; 32]];
    let commitments = secrets.iter().map(commitment_for).collect::<Vec<_>>();
    let mut tx = world_with_commitments(commitments);
    let r = commit_subkeys_handler(
        &mut tx,
        &seller(),
        SELLER_WALLET,
        &vec![0, 1],
        &vec![
            RevealProof { key: secrets[0], is_signer: true },
            RevealProof { key: secrets[0], is_signer: true },
        ],
        &PROGRAM_ID,
    );
    assert_eq!(r.err(), Some(CommissionMarketErrors::IncorrectPrivateKey));
    // All-or-nothing: the valid first entry left no trace either.
    assert_eq!(tx.pending_mask, 0b11);
    assert_eq!(tx.key_arr[0], commitment_for(&secrets[0]));
}

#[test]
fn reveal_is_seller_only_and_delivery_gated() {
    let secret = [7u8; 32];
    let mut tx = world_with_commitments(vec![commitment_for(&secret)]);
    let proofs = vec![RevealProof { key: secret, is_signer: true }];
    let r = commit_subkeys_handler(&mut tx, &buyer(), BUYER_WALLET, &vec![0], &proofs, &PROGRAM_ID);
    assert_eq!(r.err(), Some(CommissionMarketErrors::InvalidAuthority));
    tx.transaction_state = TransactionState::Shipped;
    let r = commit_subkeys_handler(
        &mut tx,
        &seller(),
        SELLER_WALLET,
        &vec![0],
        &proofs,
        &PROGRAM_ID,
    );
    assert_eq!(r.err(), Some(CommissionMarketErrors::InvalidState));
}
