use vstd::prelude::*;
use crate::mask::bit_set;

verus! {

/// The lifecycle of a commission transaction, from the buyer opening it
/// to the final archive state. Settlement may only run once the pipeline
/// has reached `BuyerConfirmedProduct` (or straight from `Opened`, as the
/// pre-funding cancellation path).
#[derive(Clone, Copy, PartialEq, Eq, Structural, Debug)]
pub enum TransactionState {
    Opened,
    SellerConfirmed,
    BuyerFunded,
    Shipped,
    BuyerConfirmedDelivery,
    BuyerConfirmedProduct,
    Closed,
}

/// The buyer's final verdict on a delivered commission. It starts at
/// `Null` and is decided at most once, to `Accept` or `Declined`; it
/// never returns to `Null`.
#[derive(Clone, Copy, PartialEq, Eq, Structural, Debug)]
pub enum BuyerDecisionState {
    Null,
    Declined,
    Accept,
}

/// A legal move of the final decision over one transition: a decision,
/// once made, never changes and never reverts to `Null`.
pub open spec fn decision_monotonic(pre: BuyerDecisionState, post: BuyerDecisionState) -> bool {
    &&& !(pre is Null) ==> post == pre
    &&& post is Null ==> pre is Null
}

/// The currency the escrow is custodied in: the chain's native currency,
/// or a token identified by its mint.
#[derive(Clone, Copy, PartialEq, Eq, Structural, Debug)]
pub enum Currency {
    Sol,
    Spl { mint: u64 },
}

/// Which of the two parties has already used its one review slot.
#[derive(Clone, Copy, PartialEq, Eq, Structural, Debug)]
pub struct TransactionReviews {
    pub buyer: bool,
    pub seller: bool,
}

/// One party's market identity: a stable voter id, the wallet entitled to
/// sign for it, a dispute-discount credit balance, an optional referral
/// beneficiary (zero when unset), and a completed-transaction counter.
#[derive(Clone, Copy, PartialEq, Eq, Structural, Debug)]
pub struct OrbitMarketAccount {
    pub voter_id: u64,
    pub wallet: u64,
    pub dispute_discounts: u64,
    pub used_reflink: u64,
    pub transactions: u64,
}

/// A seller's reveal submission for one committed index: the revealed
/// key and whether that key co-signed the reveal, proving possession.
#[derive(Clone, Copy)]
pub struct RevealProof {
    pub key: [u8; 32],
    pub is_signer: bool,
}

/// One buyer/seller commission agreement: the parties, the product, the
/// negotiated rates, the escrow bookkeeping and the delivery-secret
/// commitments.
#[derive(Clone, Debug)]
pub struct CommissionTransaction {
    /// The buyer's voter id.
    pub buyer: u64,
    /// The seller's voter id.
    pub seller: u64,
    /// The commissioned product's index.
    pub product: u64,
    pub transaction_state: TransactionState,
    /// The commission percentage the seller is entitled to at a normal
    /// settlement: 95, or 100 when a discount credit was consumed at open
    /// time; 0 once the buyer has declined.
    pub rate: u8,
    /// The price custodied at funding time.
    pub transaction_price: u64,
    pub currency: Currency,
    pub funded: bool,
    pub reviews: TransactionReviews,
    /// The slot this transaction occupies in the buyer's open log.
    pub buyer_tx_index: u8,
    /// The slot this transaction occupies in the seller's open log.
    pub seller_tx_index: u8,
    /// Where the negotiated preview can be fetched.
    pub preview_address: String,
    /// The rate most recently proposed during negotiation.
    pub preview_rate: u8,
    /// The voter id of the party that last proposed a rate.
    pub last_rate_offerer: u64,
    /// The rate frozen at resolution time and used by settlement.
    pub close_rate: u8,
    /// Where the delivered data can be fetched.
    pub data_address: String,
    /// Delivery-secret commitments; a revealed entry is overwritten with
    /// the revealed key so the secret stays durably retrievable.
    pub key_arr: Vec<[u8; 32]>,
    /// Bit `i` set means commitment `i` is still unrevealed.
    pub pending_mask: u64,
    pub final_decision: BuyerDecisionState,
}

impl CommissionTransaction {
    /// Whether `id` is one of the two parties of this transaction.
    pub open spec fn is_party(self, id: u64) -> bool {
        id == self.buyer || id == self.seller
    }

    /// Well-formedness: every constructor establishes it and every
    /// transition preserves it.
    pub open spec fn wf(self) -> bool {
        &&& self.rate == 0 || self.rate == 95 || self.rate == 100
        &&& self.close_rate <= 100
        &&& self.preview_rate <= 100
        &&& self.key_arr@.len() <= 64
        &&& forall|i: u64| i >= self.key_arr@.len() ==> !bit_set(self.pending_mask, i)
        &&& !(self.final_decision is Null) ==> (self.transaction_state is BuyerConfirmedDelivery
            || self.transaction_state is BuyerConfirmedProduct
            || self.transaction_state is Closed)
        &&& (self.transaction_state is Opened || self.transaction_state is SellerConfirmed)
            ==> !self.funded
        &&& (self.transaction_state is BuyerFunded || self.transaction_state is Shipped
            || self.transaction_state is BuyerConfirmedDelivery
            || self.transaction_state is BuyerConfirmedProduct) ==> self.funded
    }
}

/// A bounded per-party list of in-flight transaction references. A zero
/// entry marks a free slot.
#[derive(Clone, Debug)]
pub struct OpenTransactionsLog {
    pub slots: Vec<u64>,
}

impl OpenTransactionsLog {
    /// A log of `capacity` free slots.
    pub fn with_capacity(capacity: usize) -> (log: OpenTransactionsLog)
        ensures
            log.slots@.len() == capacity,
            forall|i: int| 0 <= i < capacity ==> log.slots@[i] == 0,
    {
        let mut slots: Vec<u64> = Vec::new();
        let mut i: usize = 0;
        while i < capacity
            invariant
                i <= capacity,
                slots@.len() == i,
                forall|j: int| 0 <= j < i ==> slots@[j] == 0,
            decreases capacity - i,
        {
            slots.push(0);
            i = i + 1;
        }
        OpenTransactionsLog { slots }
    }

    /// Records transaction `tx` in slot `index`; fails without effect
    /// when the index lies beyond the log's capacity.
    pub fn add(&mut self, index: u8, tx: u64) -> (r: Result<(), crate::errors::CommissionMarketErrors>)
        ensures
            r is Ok <==> (index as int) < old(self).slots@.len(),
            r is Ok ==> final(self).slots@ == old(self).slots@.update(index as int, tx),
            r is Err ==> *final(self) == *old(self)
                && r == Err::<(), crate::errors::CommissionMarketErrors>(
                crate::errors::CommissionMarketErrors::IndexOutOfRange),
    {
        if (index as usize) < self.slots.len() {
            self.slots.set(index as usize, tx);
            Ok(())
        } else {
            Err(crate::errors::CommissionMarketErrors::IndexOutOfRange)
        }
    }

    /// Frees slot `index`; fails without effect when the index lies
    /// beyond the log's capacity.
    pub fn clear(&mut self, index: u8) -> (r: Result<(), crate::errors::CommissionMarketErrors>)
        ensures
            r is Ok <==> (index as int) < old(self).slots@.len(),
            r is Ok ==> final(self).slots@ == old(self).slots@.update(index as int, 0u64),
            r is Err ==> *final(self) == *old(self)
                && r == Err::<(), crate::errors::CommissionMarketErrors>(
                crate::errors::CommissionMarketErrors::IndexOutOfRange),
    {
        if (index as usize) < self.slots.len() {
            self.slots.set(index as usize, 0);
            Ok(())
        } else {
            Err(crate::errors::CommissionMarketErrors::IndexOutOfRange)
        }
    }
}

/// The catalog-facing description of a product: its index, the catalog
/// that owns it, and the seller's identity.
#[derive(Clone, Copy, PartialEq, Eq, Structural, Debug)]
pub struct OrbitProduct {
    pub index: u64,
    pub owner_catalog: u64,
    pub seller: u64,
}

/// A product listed for commissioning, with the seller's current rate.
#[derive(Clone, Copy, PartialEq, Eq, Structural, Debug)]
pub struct CommissionProduct {
    pub metadata: OrbitProduct,
    pub current_rate: u8,
}

/// How a digital listing is sold.
#[derive(Clone, Copy, PartialEq, Eq, Structural, Debug)]
pub enum DigitalProductType {
    Unassigned,
    Commission,
}

/// A digital listing as the marketplace catalog records it.
#[derive(Clone, Copy, PartialEq, Eq, Structural, Debug)]
pub struct DigitalProduct {
    pub metadata: OrbitProduct,
    pub digital_product_type: DigitalProductType,
}

} // verus!
