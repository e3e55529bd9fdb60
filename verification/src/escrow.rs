use vstd::prelude::*;
use crate::accounting::{
    discount_consumed, effective_price, lemma_effective_price_le, open_discounts_after, open_rate,
    refund_discounts_after,
};
use crate::errors::CommissionMarketErrors;
use crate::settlement::{
    SettlementPlan, compute_settlement, spec_buyer_amount, spec_reflink_amount,
    spec_seller_amount, spec_treasury_amount,
};
use crate::state::{
    BuyerDecisionState, CommissionProduct, CommissionTransaction, Currency, OpenTransactionsLog,
    OrbitMarketAccount, TransactionReviews, TransactionState, decision_monotonic,
};

verus! {

/// Whether the caller-supplied referral identity honours the buyer's
/// recorded beneficiary: one must be recorded (the zero sentinel means
/// none) and the claim must name exactly it.
pub open spec fn reflink_matched(buyer: OrbitMarketAccount, claimed: u64) -> bool {
    buyer.used_reflink != 0 && claimed == buyer.used_reflink
}

/// Whether a transaction may settle: the pipeline completed and a final
/// decision exists, or the transaction is still in `Opened` (the
/// pre-funding cancellation path).
pub open spec fn close_state_ok(tx: CommissionTransaction) -> bool {
    ||| (tx.transaction_state is BuyerConfirmedProduct && !(tx.final_decision is Null))
    ||| tx.transaction_state is Opened
}

/// Whether an open request passes every guard: the product belongs to
/// the seller, the buyer's wallet signed, and both open-log slots exist.
pub open spec fn open_guard(
    product: CommissionProduct,
    seller_account: OrbitMarketAccount,
    buyer_account: OrbitMarketAccount,
    signer_wallet: u64,
    buyer_log: OpenTransactionsLog,
    seller_log: OpenTransactionsLog,
    seller_index: u8,
    buyer_index: u8,
) -> bool {
    &&& product.metadata.owner_catalog == seller_account.voter_id
    &&& signer_wallet == buyer_account.wallet
    &&& (buyer_index as int) < buyer_log.slots@.len()
    &&& (seller_index as int) < seller_log.slots@.len()
}

/// The error an open request draws when its guard fails: ownership
/// first, then the signature, then the log bounds.
pub open spec fn open_error(
    product: CommissionProduct,
    seller_account: OrbitMarketAccount,
    buyer_account: OrbitMarketAccount,
    signer_wallet: u64,
) -> CommissionMarketErrors {
    if product.metadata.owner_catalog != seller_account.voter_id {
        CommissionMarketErrors::InvalidSellerForListing
    } else if signer_wallet != buyer_account.wallet {
        CommissionMarketErrors::InvalidAuthority
    } else {
        CommissionMarketErrors::IndexOutOfRange
    }
}

/// What a freshly opened transaction holds: the parties and product are
/// recorded, the rate and custodied price reflect a consumed discount,
/// every delivery and negotiation field starts empty, and nothing is
/// decided or funded yet.
pub open spec fn open_post(
    t: CommissionTransaction,
    product: CommissionProduct,
    seller_account: OrbitMarketAccount,
    buyer_pre: OrbitMarketAccount,
    seller_index: u8,
    buyer_index: u8,
    price: u64,
    use_discount: bool,
    currency: Currency,
) -> bool {
    &&& t.buyer == buyer_pre.voter_id
    &&& t.seller == seller_account.voter_id
    &&& t.product == product.metadata.index
    &&& t.transaction_state is Opened
    &&& t.rate == open_rate(buyer_pre.dispute_discounts, use_discount)
    &&& t.transaction_price == effective_price(
        price,
        discount_consumed(buyer_pre.dispute_discounts, use_discount),
    )
    &&& t.currency == currency
    &&& !t.funded
    &&& t.reviews == (TransactionReviews { buyer: false, seller: false })
    &&& t.buyer_tx_index == buyer_index
    &&& t.seller_tx_index == seller_index
    &&& t.preview_address@.len() == 0
    &&& t.preview_rate == 0
    &&& t.last_rate_offerer == 0
    &&& t.close_rate == 0
    &&& t.data_address@.len() == 0
    &&& t.key_arr@.len() == 0
    &&& t.pending_mask == 0
    &&& t.final_decision is Null
}

/// Whether a close request passes every guard: the lifecycle allows
/// settlement, the supplied accounts are the transaction's parties, and
/// both open-log slots exist so they can be released.
pub open spec fn close_guard(
    tx: CommissionTransaction,
    buyer: OrbitMarketAccount,
    seller: OrbitMarketAccount,
    buyer_log: OpenTransactionsLog,
    seller_log: OpenTransactionsLog,
) -> bool {
    &&& close_state_ok(tx)
    &&& buyer.voter_id == tx.buyer
    &&& seller.voter_id == tx.seller
    &&& (tx.buyer_tx_index as int) < buyer_log.slots@.len()
    &&& (tx.seller_tx_index as int) < seller_log.slots@.len()
}

/// The error a refused close request draws: the state first, then the
/// parties, then the log bounds.
pub open spec fn close_error(
    tx: CommissionTransaction,
    buyer: OrbitMarketAccount,
    seller: OrbitMarketAccount,
) -> CommissionMarketErrors {
    if !close_state_ok(tx) {
        CommissionMarketErrors::InvalidState
    } else if buyer.voter_id != tx.buyer || seller.voter_id != tx.seller {
        CommissionMarketErrors::InvalidAuthority
    } else {
        CommissionMarketErrors::IndexOutOfRange
    }
}

/// Whether a seller's early decline passes every guard: nothing is
/// decided yet, the supplied accounts are the parties, the seller's
/// wallet signed, and both open-log slots exist.
pub open spec fn decline_guard(
    tx: CommissionTransaction,
    buyer: OrbitMarketAccount,
    seller: OrbitMarketAccount,
    signer_wallet: u64,
    buyer_log: OpenTransactionsLog,
    seller_log: OpenTransactionsLog,
) -> bool {
    &&& tx.final_decision is Null
    &&& buyer.voter_id == tx.buyer
    &&& seller.voter_id == tx.seller
    &&& signer_wallet == seller.wallet
    &&& (tx.buyer_tx_index as int) < buyer_log.slots@.len()
    &&& (tx.seller_tx_index as int) < seller_log.slots@.len()
}

/// The error a refused early decline draws.
pub open spec fn decline_error(
    tx: CommissionTransaction,
    buyer: OrbitMarketAccount,
    seller: OrbitMarketAccount,
    signer_wallet: u64,
) -> CommissionMarketErrors {
    if !(tx.final_decision is Null) {
        CommissionMarketErrors::InvalidState
    } else if buyer.voter_id != tx.buyer || seller.voter_id != tx.seller || signer_wallet
        != seller.wallet {
        CommissionMarketErrors::InvalidAuthority
    } else {
        CommissionMarketErrors::IndexOutOfRange
    }
}

impl CommissionTransaction {
    /// The buyer opens a commission against a listed product, in the
    /// given currency: both parties' open logs record the transaction,
    /// and a requested discount credit is consumed (rate 100, price
    /// shaved by five percent) when the buyer has one.
    fn open_with_currency(
        product: &CommissionProduct,
        seller_account: &OrbitMarketAccount,
        buyer_account: &mut OrbitMarketAccount,
        signer_wallet: u64,
        buyer_log: &mut OpenTransactionsLog,
        seller_log: &mut OpenTransactionsLog,
        seller_index: u8,
        buyer_index: u8,
        price: u64,
        use_discount: bool,
        tx_id: u64,
        currency: Currency,
    ) -> (r: Result<CommissionTransaction, CommissionMarketErrors>)
        ensures
            r is Ok <==> open_guard(
                *product,
                *seller_account,
                *old(buyer_account),
                signer_wallet,
                *old(buyer_log),
                *old(seller_log),
                seller_index,
                buyer_index,
            ),
            r matches Ok(t) ==> t.wf() && open_post(
                t,
                *product,
                *seller_account,
                *old(buyer_account),
                seller_index,
                buyer_index,
                price,
                use_discount,
                currency,
            ),
            r is Ok ==> final(buyer_account).dispute_discounts == open_discounts_after(
                old(buyer_account).dispute_discounts,
                use_discount,
            ) && *final(buyer_account) == (OrbitMarketAccount {
                dispute_discounts: final(buyer_account).dispute_discounts,
                ..*old(buyer_account)
            }),
            r is Ok ==> final(buyer_log).slots@ == old(buyer_log).slots@.update(
                buyer_index as int,
                tx_id,
            ) && final(seller_log).slots@ == old(seller_log).slots@.update(
                seller_index as int,
                tx_id,
            ),
            r is Err ==> *final(buyer_account) == *old(buyer_account) && *final(buyer_log)
                == *old(buyer_log) && *final(seller_log) == *old(seller_log) && r == Err::<
                CommissionTransaction,
                CommissionMarketErrors,
            >(open_error(*product, *seller_account, *old(buyer_account), signer_wallet)),
    {
        if product.metadata.owner_catalog != seller_account.voter_id {
            return Err(CommissionMarketErrors::InvalidSellerForListing);
        }
        if signer_wallet != buyer_account.wallet {
            return Err(CommissionMarketErrors::InvalidAuthority);
        }
        if (buyer_index as usize) >= buyer_log.slots.len() || (seller_index as usize)
            >= seller_log.slots.len() {
            return Err(CommissionMarketErrors::IndexOutOfRange);
        }
        let consumed = use_discount && buyer_account.dispute_discounts > 0;
        let rate: u8 = if consumed {
            100
        } else {
            95
        };
        let custodied: u64 = if consumed {
            proof {
                lemma_effective_price_le(price, true);
            }
            ((price as u128) * 95 / 100) as u64
        } else {
            price
        };
        if consumed {
            buyer_account.dispute_discounts = buyer_account.dispute_discounts - 1;
        }
        let added_buyer = buyer_log.add(buyer_index, tx_id);
        let added_seller = seller_log.add(seller_index, tx_id);
        proof {
            assert(added_buyer is Ok && added_seller is Ok);
            crate::mask::lemma_mask_zero_iff_no_bits(0u64);
        }
        Ok(
            CommissionTransaction {
                buyer: buyer_account.voter_id,
                seller: seller_account.voter_id,
                product: product.metadata.index,
                transaction_state: TransactionState::Opened,
                rate,
                transaction_price: custodied,
                currency,
                funded: false,
                reviews: TransactionReviews { buyer: false, seller: false },
                buyer_tx_index: buyer_index,
                seller_tx_index: seller_index,
                preview_address: String::new(),
                preview_rate: 0,
                last_rate_offerer: 0,
                close_rate: 0,
                data_address: String::new(),
                key_arr: Vec::new(),
                pending_mask: 0,
                final_decision: BuyerDecisionState::Null,
            },
        )
    }

    /// Opens a commission custodied in the native currency.
    pub fn open_sol(
        product: &CommissionProduct,
        seller_account: &OrbitMarketAccount,
        buyer_account: &mut OrbitMarketAccount,
        signer_wallet: u64,
        buyer_log: &mut OpenTransactionsLog,
        seller_log: &mut OpenTransactionsLog,
        seller_index: u8,
        buyer_index: u8,
        price: u64,
        use_discount: bool,
        tx_id: u64,
    ) -> (r: Result<CommissionTransaction, CommissionMarketErrors>)
        ensures
            r is Ok <==> open_guard(
                *product,
                *seller_account,
                *old(buyer_account),
                signer_wallet,
                *old(buyer_log),
                *old(seller_log),
                seller_index,
                buyer_index,
            ),
            r matches Ok(t) ==> t.wf() && open_post(
                t,
                *product,
                *seller_account,
                *old(buyer_account),
                seller_index,
                buyer_index,
                price,
                use_discount,
                Currency::Sol,
            ),
            r is Ok ==> final(buyer_account).dispute_discounts == open_discounts_after(
                old(buyer_account).dispute_discounts,
                use_discount,
            ) && *final(buyer_account) == (OrbitMarketAccount {
                dispute_discounts: final(buyer_account).dispute_discounts,
                ..*old(buyer_account)
            }),
            r is Ok ==> final(buyer_log).slots@ == old(buyer_log).slots@.update(
                buyer_index as int,
                tx_id,
            ) && final(seller_log).slots@ == old(seller_log).slots@.update(
                seller_index as int,
                tx_id,
            ),
            r is Err ==> *final(buyer_account) == *old(buyer_account) && *final(buyer_log)
                == *old(buyer_log) && *final(seller_log) == *old(seller_log) && r == Err::<
                CommissionTransaction,
                CommissionMarketErrors,
            >(open_error(*product, *seller_account, *old(buyer_account), signer_wallet)),
    {
        Self::open_with_currency(
            product,
            seller_account,
            buyer_account,
            signer_wallet,
            buyer_log,
            seller_log,
            seller_index,
            buyer_index,
            price,
            use_discount,
            tx_id,
            Currency::Sol,
        )
    }

    /// Opens a commission custodied in a token currency, identified by
    /// its mint.
    pub fn open_spl(
        product: &CommissionProduct,
        seller_account: &OrbitMarketAccount,
        buyer_account: &mut OrbitMarketAccount,
        signer_wallet: u64,
        buyer_log: &mut OpenTransactionsLog,
        seller_log: &mut OpenTransactionsLog,
        seller_index: u8,
        buyer_index: u8,
        price: u64,
        use_discount: bool,
        tx_id: u64,
        mint: u64,
    ) -> (r: Result<CommissionTransaction, CommissionMarketErrors>)
        ensures
            r is Ok <==> open_guard(
                *product,
                *seller_account,
                *old(buyer_account),
                signer_wallet,
                *old(buyer_log),
                *old(seller_log),
                seller_index,
                buyer_index,
            ),
            r matches Ok(t) ==> t.wf() && open_post(
                t,
                *product,
                *seller_account,
                *old(buyer_account),
                seller_index,
                buyer_index,
                price,
                use_discount,
                Currency::Spl { mint },
            ),
            r is Ok ==> final(buyer_account).dispute_discounts == open_discounts_after(
                old(buyer_account).dispute_discounts,
                use_discount,
            ) && *final(buyer_account) == (OrbitMarketAccount {
                dispute_discounts: final(buyer_account).dispute_discounts,
                ..*old(buyer_account)
            }),
            r is Ok ==> final(buyer_log).slots@ == old(buyer_log).slots@.update(
                buyer_index as int,
                tx_id,
            ) && final(seller_log).slots@ == old(seller_log).slots@.update(
                seller_index as int,
                tx_id,
            ),
            r is Err ==> *final(buyer_account) == *old(buyer_account) && *final(buyer_log)
                == *old(buyer_log) && *final(seller_log) == *old(seller_log) && r == Err::<
                CommissionTransaction,
                CommissionMarketErrors,
            >(open_error(*product, *seller_account, *old(buyer_account), signer_wallet)),
    {
        Self::open_with_currency(
            product,
            seller_account,
            buyer_account,
            signer_wallet,
            buyer_log,
            seller_log,
            seller_index,
            buyer_index,
            price,
            use_discount,
            tx_id,
            Currency::Spl { mint },
        )
    }

    /// The buyer's deposit of the price into escrow custody succeeded,
    /// in the native currency: `SellerConfirmed` moves to `BuyerFunded`
    /// and the transaction is marked funded, exactly once.
    pub fn fund_escrow_sol(
        &mut self,
        buyer: &OrbitMarketAccount,
        signer_wallet: u64,
    ) -> (r: Result<(), CommissionMarketErrors>)
        requires
            old(self).wf(),
        ensures
            final(self).wf(),
            decision_monotonic(old(self).final_decision, final(self).final_decision),
            r is Ok <==> (old(self).transaction_state is SellerConfirmed && buyer.voter_id == old(
                self,
            ).buyer && signer_wallet == buyer.wallet),
            r is Ok ==> *final(self) == (CommissionTransaction {
                transaction_state: TransactionState::BuyerFunded,
                funded: true,
                ..*old(self)
            }),
            r is Ok ==> !old(self).funded,
            r is Err ==> *final(self) == *old(self),
            !(old(self).transaction_state is SellerConfirmed) ==> r == Err::<
                (),
                CommissionMarketErrors,
            >(CommissionMarketErrors::InvalidState),
            old(self).transaction_state is SellerConfirmed && !(buyer.voter_id == old(self).buyer
                && signer_wallet == buyer.wallet) ==> r == Err::<(), CommissionMarketErrors>(
                CommissionMarketErrors::InvalidAuthority,
            ),
    {
        if !matches!(self.transaction_state, TransactionState::SellerConfirmed) {
            return Err(CommissionMarketErrors::InvalidState);
        }
        if buyer.voter_id != self.buyer || signer_wallet != buyer.wallet {
            return Err(CommissionMarketErrors::InvalidAuthority);
        }
        self.funded = true;
        self.transaction_state = TransactionState::BuyerFunded;
        Ok(())
    }

    /// The buyer's deposit of the price into escrow custody succeeded,
    /// in the token currency: same bookkeeping as the native path.
    pub fn fund_escrow_spl(
        &mut self,
        buyer: &OrbitMarketAccount,
        signer_wallet: u64,
    ) -> (r: Result<(), CommissionMarketErrors>)
        requires
            old(self).wf(),
        ensures
            final(self).wf(),
            decision_monotonic(old(self).final_decision, final(self).final_decision),
            r is Ok <==> (old(self).transaction_state is SellerConfirmed && buyer.voter_id == old(
                self,
            ).buyer && signer_wallet == buyer.wallet),
            r is Ok ==> *final(self) == (CommissionTransaction {
                transaction_state: TransactionState::BuyerFunded,
                funded: true,
                ..*old(self)
            }),
            r is Ok ==> !old(self).funded,
            r is Err ==> *final(self) == *old(self),
            !(old(self).transaction_state is SellerConfirmed) ==> r == Err::<
                (),
                CommissionMarketErrors,
            >(CommissionMarketErrors::InvalidState),
            old(self).transaction_state is SellerConfirmed && !(buyer.voter_id == old(self).buyer
                && signer_wallet == buyer.wallet) ==> r == Err::<(), CommissionMarketErrors>(
                CommissionMarketErrors::InvalidAuthority,
            ),
    {
        if !matches!(self.transaction_state, TransactionState::SellerConfirmed) {
            return Err(CommissionMarketErrors::InvalidState);
        }
        if buyer.voter_id != self.buyer || signer_wallet != buyer.wallet {
            return Err(CommissionMarketErrors::InvalidAuthority);
        }
        self.funded = true;
        self.transaction_state = TransactionState::BuyerFunded;
        Ok(())
    }

    /// Settles one transaction against a settlement basis: computes the
    /// final split, releases both parties' open-log slots, increments
    /// both completed-transaction counters and archives the lifecycle.
    /// The returned plan must be applied to custody atomically: if any
    /// sub-transfer fails, none of it may be committed.
    fn close_with_basis(
        &mut self,
        basis: u64,
        buyer_account: &mut OrbitMarketAccount,
        seller_account: &mut OrbitMarketAccount,
        buyer_log: &mut OpenTransactionsLog,
        seller_log: &mut OpenTransactionsLog,
        claimed_reflink: u64,
    ) -> (r: Result<SettlementPlan, CommissionMarketErrors>)
        requires
            old(self).wf(),
            old(buyer_account).transactions < u64::MAX,
            old(seller_account).transactions < u64::MAX,
        ensures
            final(self).wf(),
            decision_monotonic(old(self).final_decision, final(self).final_decision),
            r is Ok <==> close_guard(
                *old(self),
                *old(buyer_account),
                *old(seller_account),
                *old(buyer_log),
                *old(seller_log),
            ),
            r matches Ok(plan) ==> ({
                let matched = reflink_matched(*old(buyer_account), claimed_reflink);
                &&& plan.reflink_amount == spec_reflink_amount(
                    basis,
                    old(self).close_rate,
                    old(self).final_decision,
                    matched,
                )
                &&& plan.treasury_amount == spec_treasury_amount(
                    basis,
                    old(self).close_rate,
                    old(self).final_decision,
                    matched,
                )
                &&& plan.seller_amount == spec_seller_amount(basis, old(self).close_rate)
                &&& plan.buyer_amount == spec_buyer_amount(
                    basis,
                    old(self).close_rate,
                    old(self).final_decision,
                    matched,
                )
                &&& plan.reflink_amount + plan.treasury_amount + plan.seller_amount
                    + plan.buyer_amount == basis
            }),
            r is Ok ==> *final(self) == (CommissionTransaction {
                transaction_state: TransactionState::Closed,
                ..*old(self)
            }),
            r is Ok ==> *final(buyer_account) == (OrbitMarketAccount {
                transactions: (old(buyer_account).transactions + 1) as u64,
                ..*old(buyer_account)
            }) && *final(seller_account) == (OrbitMarketAccount {
                transactions: (old(seller_account).transactions + 1) as u64,
                ..*old(seller_account)
            }),
            r is Ok ==> final(buyer_log).slots@ == old(buyer_log).slots@.update(
                old(self).buyer_tx_index as int,
                0u64,
            ) && final(seller_log).slots@ == old(seller_log).slots@.update(
                old(self).seller_tx_index as int,
                0u64,
            ),
            r is Err ==> *final(self) == *old(self) && *final(buyer_account) == *old(
                buyer_account,
            ) && *final(seller_account) == *old(seller_account) && *final(buyer_log) == *old(
                buyer_log,
            ) && *final(seller_log) == *old(seller_log) && r == Err::<
                SettlementPlan,
                CommissionMarketErrors,
            >(close_error(*old(self), *old(buyer_account), *old(seller_account))),
    {
        let state_ok = matches!(self.transaction_state, TransactionState::BuyerConfirmedProduct)
            && !matches!(self.final_decision, BuyerDecisionState::Null) || matches!(
            self.transaction_state,
            TransactionState::Opened,
        );
        if !state_ok {
            return Err(CommissionMarketErrors::InvalidState);
        }
        if buyer_account.voter_id != self.buyer || seller_account.voter_id != self.seller {
            return Err(CommissionMarketErrors::InvalidAuthority);
        }
        if (self.buyer_tx_index as usize) >= buyer_log.slots.len() || (self.seller_tx_index
            as usize) >= seller_log.slots.len() {
            return Err(CommissionMarketErrors::IndexOutOfRange);
        }
        let matched = buyer_account.used_reflink != 0 && claimed_reflink
            == buyer_account.used_reflink;
        let plan = compute_settlement(basis, self.close_rate, self.final_decision, matched);
        let cleared_buyer = buyer_log.clear(self.buyer_tx_index);
        let cleared_seller = seller_log.clear(self.seller_tx_index);
        proof {
            assert(cleared_buyer is Ok && cleared_seller is Ok);
        }
        buyer_account.transactions = buyer_account.transactions + 1;
        seller_account.transactions = seller_account.transactions + 1;
        self.transaction_state = TransactionState::Closed;
        Ok(plan)
    }

    /// Settles a native-currency transaction. The settlement basis is
    /// the live escrow balance, so the fee is computed against actual
    /// custodied value, rent residue included.
    pub fn close_sol(
        &mut self,
        escrow_balance: u64,
        buyer_account: &mut OrbitMarketAccount,
        seller_account: &mut OrbitMarketAccount,
        buyer_log: &mut OpenTransactionsLog,
        seller_log: &mut OpenTransactionsLog,
        claimed_reflink: u64,
    ) -> (r: Result<SettlementPlan, CommissionMarketErrors>)
        requires
            old(self).wf(),
            old(buyer_account).transactions < u64::MAX,
            old(seller_account).transactions < u64::MAX,
        ensures
            final(self).wf(),
            decision_monotonic(old(self).final_decision, final(self).final_decision),
            r is Ok <==> close_guard(
                *old(self),
                *old(buyer_account),
                *old(seller_account),
                *old(buyer_log),
                *old(seller_log),
            ),
            r matches Ok(plan) ==> ({
                let matched = reflink_matched(*old(buyer_account), claimed_reflink);
                &&& plan.reflink_amount == spec_reflink_amount(
                    escrow_balance,
                    old(self).close_rate,
                    old(self).final_decision,
                    matched,
                )
                &&& plan.treasury_amount == spec_treasury_amount(
                    escrow_balance,
                    old(self).close_rate,
                    old(self).final_decision,
                    matched,
                )
                &&& plan.seller_amount == spec_seller_amount(escrow_balance, old(self).close_rate)
                &&& plan.buyer_amount == spec_buyer_amount(
                    escrow_balance,
                    old(self).close_rate,
                    old(self).final_decision,
                    matched,
                )
                &&& plan.reflink_amount + plan.treasury_amount + plan.seller_amount
                    + plan.buyer_amount == escrow_balance
            }),
            r is Ok ==> *final(self) == (CommissionTransaction {
                transaction_state: TransactionState::Closed,
                ..*old(self)
            }),
            r is Ok ==> *final(buyer_account) == (OrbitMarketAccount {
                transactions: (old(buyer_account).transactions + 1) as u64,
                ..*old(buyer_account)
            }) && *final(seller_account) == (OrbitMarketAccount {
                transactions: (old(seller_account).transactions + 1) as u64,
                ..*old(seller_account)
            }),
            r is Ok ==> final(buyer_log).slots@ == old(buyer_log).slots@.update(
                old(self).buyer_tx_index as int,
                0u64,
            ) && final(seller_log).slots@ == old(seller_log).slots@.update(
                old(self).seller_tx_index as int,
                0u64,
            ),
            r is Err ==> *final(self) == *old(self) && *final(buyer_account) == *old(
                buyer_account,
            ) && *final(seller_account) == *old(seller_account) && *final(buyer_log) == *old(
                buyer_log,
            ) && *final(seller_log) == *old(seller_log) && r == Err::<
                SettlementPlan,
                CommissionMarketErrors,
            >(close_error(*old(self), *old(buyer_account), *old(seller_account))),
    {
        self.close_with_basis(
            escrow_balance,
            buyer_account,
            seller_account,
            buyer_log,
            seller_log,
            claimed_reflink,
        )
    }

    /// Settles a token-currency transaction. The settlement basis is
    /// the recorded price: token balances cannot silently accrue rent.
    pub fn close_spl(
        &mut self,
        buyer_account: &mut OrbitMarketAccount,
        seller_account: &mut OrbitMarketAccount,
        buyer_log: &mut OpenTransactionsLog,
        seller_log: &mut OpenTransactionsLog,
        claimed_reflink: u64,
    ) -> (r: Result<SettlementPlan, CommissionMarketErrors>)
        requires
            old(self).wf(),
            old(buyer_account).transactions < u64::MAX,
            old(seller_account).transactions < u64::MAX,
        ensures
            final(self).wf(),
            decision_monotonic(old(self).final_decision, final(self).final_decision),
            r is Ok <==> close_guard(
                *old(self),
                *old(buyer_account),
                *old(seller_account),
                *old(buyer_log),
                *old(seller_log),
            ),
            r matches Ok(plan) ==> ({
                let matched = reflink_matched(*old(buyer_account), claimed_reflink);
                let basis = old(self).transaction_price;
                &&& plan.reflink_amount == spec_reflink_amount(
                    basis,
                    old(self).close_rate,
                    old(self).final_decision,
                    matched,
                )
                &&& plan.treasury_amount == spec_treasury_amount(
                    basis,
                    old(self).close_rate,
                    old(self).final_decision,
                    matched,
                )
                &&& plan.seller_amount == spec_seller_amount(basis, old(self).close_rate)
                &&& plan.buyer_amount == spec_buyer_amount(
                    basis,
                    old(self).close_rate,
                    old(self).final_decision,
                    matched,
                )
                &&& plan.reflink_amount + plan.treasury_amount + plan.seller_amount
                    + plan.buyer_amount == basis
            }),
            r is Ok ==> *final(self) == (CommissionTransaction {
                transaction_state: TransactionState::Closed,
                ..*old(self)
            }),
            r is Ok ==> *final(buyer_account) == (OrbitMarketAccount {
                transactions: (old(buyer_account).transactions + 1) as u64,
                ..*old(buyer_account)
            }) && *final(seller_account) == (OrbitMarketAccount {
                transactions: (old(seller_account).transactions + 1) as u64,
                ..*old(seller_account)
            }),
            r is Ok ==> final(buyer_log).slots@ == old(buyer_log).slots@.update(
                old(self).buyer_tx_index as int,
                0u64,
            ) && final(seller_log).slots@ == old(seller_log).slots@.update(
                old(self).seller_tx_index as int,
                0u64,
            ),
            r is Err ==> *final(self) == *old(self) && *final(buyer_account) == *old(
                buyer_account,
            ) && *final(seller_account) == *old(seller_account) && *final(buyer_log) == *old(
                buyer_log,
            ) && *final(seller_log) == *old(seller_log) && r == Err::<
                SettlementPlan,
                CommissionMarketErrors,
            >(close_error(*old(self), *old(buyer_account), *old(seller_account))),
    {
        let basis = self.transaction_price;
        self.close_with_basis(
            basis,
            buyer_account,
            seller_account,
            buyer_log,
            seller_log,
            claimed_reflink,
        )
    }

    /// The seller walks away before any decision was made: escrow is
    /// distributed at whatever close rate is currently frozen (zero
    /// unless a negotiated rate was accepted), a consumed discount
    /// credit is refunded, both open-log slots are released and the
    /// lifecycle is archived. No fee is ever charged on this path.
    fn seller_early_decline_with_basis(
        &mut self,
        basis: u64,
        buyer_account: &mut OrbitMarketAccount,
        seller_account: &OrbitMarketAccount,
        signer_wallet: u64,
        buyer_log: &mut OpenTransactionsLog,
        seller_log: &mut OpenTransactionsLog,
    ) -> (r: Result<SettlementPlan, CommissionMarketErrors>)
        requires
            old(self).wf(),
            old(buyer_account).dispute_discounts < u64::MAX,
        ensures
            final(self).wf(),
            decision_monotonic(old(self).final_decision, final(self).final_decision),
            r is Ok <==> decline_guard(
                *old(self),
                *old(buyer_account),
                *seller_account,
                signer_wallet,
                *old(buyer_log),
                *old(seller_log),
            ),
            r matches Ok(plan) ==> ({
                &&& plan.reflink_amount == 0
                &&& plan.treasury_amount == 0
                &&& plan.seller_amount == spec_seller_amount(basis, old(self).close_rate)
                &&& plan.buyer_amount == basis - plan.seller_amount
                &&& plan.seller_amount + plan.buyer_amount == basis
            }),
            r is Ok ==> *final(self) == (CommissionTransaction {
                transaction_state: TransactionState::Closed,
                ..*old(self)
            }),
            r is Ok ==> final(buyer_account).dispute_discounts == refund_discounts_after(
                old(buyer_account).dispute_discounts as int,
                old(self).rate,
            ) && *final(buyer_account) == (OrbitMarketAccount {
                dispute_discounts: final(buyer_account).dispute_discounts,
                ..*old(buyer_account)
            }),
            r is Ok ==> final(buyer_log).slots@ == old(buyer_log).slots@.update(
                old(self).buyer_tx_index as int,
                0u64,
            ) && final(seller_log).slots@ == old(seller_log).slots@.update(
                old(self).seller_tx_index as int,
                0u64,
            ),
            r is Err ==> *final(self) == *old(self) && *final(buyer_account) == *old(
                buyer_account,
            ) && *final(buyer_log) == *old(buyer_log) && *final(seller_log) == *old(seller_log)
                && r == Err::<SettlementPlan, CommissionMarketErrors>(
                decline_error(*old(self), *old(buyer_account), *seller_account, signer_wallet),
            ),
    {
        if !matches!(self.final_decision, BuyerDecisionState::Null) {
            return Err(CommissionMarketErrors::InvalidState);
        }
        if buyer_account.voter_id != self.buyer || seller_account.voter_id != self.seller
            || signer_wallet != seller_account.wallet {
            return Err(CommissionMarketErrors::InvalidAuthority);
        }
        if (self.buyer_tx_index as usize) >= buyer_log.slots.len() || (self.seller_tx_index
            as usize) >= seller_log.slots.len() {
            return Err(CommissionMarketErrors::IndexOutOfRange);
        }
        if self.rate == 100 {
            buyer_account.dispute_discounts = buyer_account.dispute_discounts + 1;
        }
        let plan = compute_settlement(basis, self.close_rate, self.final_decision, false);
        let cleared_buyer = buyer_log.clear(self.buyer_tx_index);
        let cleared_seller = seller_log.clear(self.seller_tx_index);
        proof {
            assert(cleared_buyer is Ok && cleared_seller is Ok);
        }
        self.transaction_state = TransactionState::Closed;
        Ok(plan)
    }

    /// Early decline of a native-currency transaction: settles against
    /// the live escrow balance.
    pub fn seller_early_decline_sol(
        &mut self,
        escrow_balance: u64,
        buyer_account: &mut OrbitMarketAccount,
        seller_account: &OrbitMarketAccount,
        signer_wallet: u64,
        buyer_log: &mut OpenTransactionsLog,
        seller_log: &mut OpenTransactionsLog,
    ) -> (r: Result<SettlementPlan, CommissionMarketErrors>)
        requires
            old(self).wf(),
            old(buyer_account).dispute_discounts < u64::MAX,
        ensures
            final(self).wf(),
            decision_monotonic(old(self).final_decision, final(self).final_decision),
            r is Ok <==> decline_guard(
                *old(self),
                *old(buyer_account),
                *seller_account,
                signer_wallet,
                *old(buyer_log),
                *old(seller_log),
            ),
            r matches Ok(plan) ==> ({
                &&& plan.reflink_amount == 0
                &&& plan.treasury_amount == 0
                &&& plan.seller_amount == spec_seller_amount(escrow_balance, old(self).close_rate)
                &&& plan.buyer_amount == escrow_balance - plan.seller_amount
                &&& plan.seller_amount + plan.buyer_amount == escrow_balance
            }),
            r is Ok ==> *final(self) == (CommissionTransaction {
                transaction_state: TransactionState::Closed,
                ..*old(self)
            }),
            r is Ok ==> final(buyer_account).dispute_discounts == refund_discounts_after(
                old(buyer_account).dispute_discounts as int,
                old(self).rate,
            ) && *final(buyer_account) == (OrbitMarketAccount {
                dispute_discounts: final(buyer_account).dispute_discounts,
                ..*old(buyer_account)
            }),
            r is Ok ==> final(buyer_log).slots@ == old(buyer_log).slots@.update(
                old(self).buyer_tx_index as int,
                0u64,
            ) && final(seller_log).slots@ == old(seller_log).slots@.update(
                old(self).seller_tx_index as int,
                0u64,
            ),
            r is Err ==> *final(self) == *old(self) && *final(buyer_account) == *old(
                buyer_account,
            ) && *final(buyer_log) == *old(buyer_log) && *final(seller_log) == *old(seller_log)
                && r == Err::<SettlementPlan, CommissionMarketErrors>(
                decline_error(*old(self), *old(buyer_account), *seller_account, signer_wallet),
            ),
    {
        self.seller_early_decline_with_basis(
            escrow_balance,
            buyer_account,
            seller_account,
            signer_wallet,
            buyer_log,
            seller_log,
        )
    }

    /// Early decline of a token-currency transaction: settles against
    /// the recorded price.
    pub fn seller_early_decline_spl(
        &mut self,
        buyer_account: &mut OrbitMarketAccount,
        seller_account: &OrbitMarketAccount,
        signer_wallet: u64,
        buyer_log: &mut OpenTransactionsLog,
        seller_log: &mut OpenTransactionsLog,
    ) -> (r: Result<SettlementPlan, CommissionMarketErrors>)
        requires
            old(self).wf(),
            old(buyer_account).dispute_discounts < u64::MAX,
        ensures
            final(self).wf(),
            decision_monotonic(old(self).final_decision, final(self).final_decision),
            r is Ok <==> decline_guard(
                *old(self),
                *old(buyer_account),
                *seller_account,
                signer_wallet,
                *old(buyer_log),
                *old(seller_log),
            ),
            r matches Ok(plan) ==> ({
                let basis = old(self).transaction_price;
                &&& plan.reflink_amount == 0
                &&& plan.treasury_amount == 0
                &&& plan.seller_amount == spec_seller_amount(basis, old(self).close_rate)
                &&& plan.buyer_amount == basis - plan.seller_amount
                &&& plan.seller_amount + plan.buyer_amount == basis
            }),
            r is Ok ==> *final(self) == (CommissionTransaction {
                transaction_state: TransactionState::Closed,
                ..*old(self)
            }),
            r is Ok ==> final(buyer_account).dispute_discounts == refund_discounts_after(
                old(buyer_account).dispute_discounts as int,
                old(self).rate,
            ) && *final(buyer_account) == (OrbitMarketAccount {
                dispute_discounts: final(buyer_account).dispute_discounts,
                ..*old(buyer_account)
            }),
            r is Ok ==> final(buyer_log).slots@ == old(buyer_log).slots@.update(
                old(self).buyer_tx_index as int,
                0u64,
            ) && final(seller_log).slots@ == old(seller_log).slots@.update(
                old(self).seller_tx_index as int,
                0u64,
            ),
            r is Err ==> *final(self) == *old(self) && *final(buyer_account) == *old(
                buyer_account,
            ) && *final(buyer_log) == *old(buyer_log) && *final(seller_log) == *old(seller_log)
                && r == Err::<SettlementPlan, CommissionMarketErrors>(
                decline_error(*old(self), *old(buyer_account), *seller_account, signer_wallet),
            ),
    {
        let basis = self.transaction_price;
        self.seller_early_decline_with_basis(
            basis,
            buyer_account,
            seller_account,
            signer_wallet,
            buyer_log,
            seller_log,
        )
    }

    /// Whether the archived transaction's storage may be reclaimed: only
    /// once `Closed`, and only at the request of one of its parties.
    pub fn close_transaction_account(
        &self,
        proposer: &OrbitMarketAccount,
        signer_wallet: u64,
        buyer_account: &OrbitMarketAccount,
    ) -> (r: Result<(), CommissionMarketErrors>)
        ensures
            r is Ok <==> (self.transaction_state is Closed && self.is_party(proposer.voter_id)
                && signer_wallet == proposer.wallet && buyer_account.voter_id == self.buyer),
            !(self.transaction_state is Closed) ==> r == Err::<(), CommissionMarketErrors>(
                CommissionMarketErrors::InvalidState,
            ),
            self.transaction_state is Closed && !(self.is_party(proposer.voter_id)
                && signer_wallet == proposer.wallet && buyer_account.voter_id == self.buyer)
                ==> r == Err::<(), CommissionMarketErrors>(
                CommissionMarketErrors::InvalidAuthority,
            ),
    {
        if !matches!(self.transaction_state, TransactionState::Closed) {
            return Err(CommissionMarketErrors::InvalidState);
        }
        if (proposer.voter_id != self.buyer && proposer.voter_id != self.seller) || signer_wallet
            != proposer.wallet || buyer_account.voter_id != self.buyer {
            return Err(CommissionMarketErrors::InvalidAuthority);
        }
        Ok(())
    }

    /// One party rates the other, once, after closure. The rating must
    /// lie in the one-to-five range; a party may not rate itself, may
    /// only rate the counterparty, and may not rate twice.
    pub fn leave_review(
        &mut self,
        reviewer: &OrbitMarketAccount,
        reviewed: &OrbitMarketAccount,
        signer_wallet: u64,
        rating: u8,
    ) -> (r: Result<(), CommissionMarketErrors>)
        requires
            old(self).wf(),
        ensures
            final(self).wf(),
            decision_monotonic(old(self).final_decision, final(self).final_decision),
            r is Ok <==> (old(self).transaction_state is Closed && old(self).is_party(
                reviewer.voter_id,
            ) && signer_wallet == reviewer.wallet && reviewer.voter_id != reviewed.voter_id && 1
                <= rating <= 5 && (seller_review_open(*old(self), *reviewer, *reviewed)
                || buyer_review_open(*old(self), *reviewer, *reviewed))),
            r is Ok && seller_review_open(*old(self), *reviewer, *reviewed) ==> *final(self) == (
            CommissionTransaction {
                reviews: TransactionReviews { buyer: old(self).reviews.buyer, seller: true },
                ..*old(self)
            }),
            r is Ok && !seller_review_open(*old(self), *reviewer, *reviewed) ==> *final(self) == (
            CommissionTransaction {
                reviews: TransactionReviews { buyer: true, seller: old(self).reviews.seller },
                ..*old(self)
            }),
            r is Err ==> *final(self) == *old(self),
            !(old(self).transaction_state is Closed) ==> r == Err::<(), CommissionMarketErrors>(
                CommissionMarketErrors::InvalidState,
            ),
            old(self).transaction_state is Closed && !old(self).is_party(reviewer.voter_id) ==> r
                == Err::<(), CommissionMarketErrors>(
                CommissionMarketErrors::InvalidReviewAuthority,
            ),
            old(self).transaction_state is Closed && old(self).is_party(reviewer.voter_id)
                && signer_wallet != reviewer.wallet ==> r == Err::<(), CommissionMarketErrors>(
                CommissionMarketErrors::InvalidAuthority,
            ),
            old(self).transaction_state is Closed && old(self).is_party(reviewer.voter_id)
                && signer_wallet == reviewer.wallet && reviewer.voter_id == reviewed.voter_id
                ==> r == Err::<(), CommissionMarketErrors>(
                CommissionMarketErrors::InvalidReviewAuthority,
            ),
            old(self).transaction_state is Closed && old(self).is_party(reviewer.voter_id)
                && signer_wallet == reviewer.wallet && reviewer.voter_id != reviewed.voter_id
                && !(1 <= rating <= 5) ==> r == Err::<(), CommissionMarketErrors>(
                CommissionMarketErrors::RatingOutsideRange,
            ),
            old(self).transaction_state is Closed && old(self).is_party(reviewer.voter_id)
                && signer_wallet == reviewer.wallet && reviewer.voter_id != reviewed.voter_id && 1
                <= rating <= 5 && !(seller_review_open(*old(self), *reviewer, *reviewed)
                || buyer_review_open(*old(self), *reviewer, *reviewed)) ==> r == Err::<
                (),
                CommissionMarketErrors,
            >(CommissionMarketErrors::InvalidReviewAuthority),
    {
        if !matches!(self.transaction_state, TransactionState::Closed) {
            return Err(CommissionMarketErrors::InvalidState);
        }
        if reviewer.voter_id != self.buyer && reviewer.voter_id != self.seller {
            return Err(CommissionMarketErrors::InvalidReviewAuthority);
        }
        if signer_wallet != reviewer.wallet {
            return Err(CommissionMarketErrors::InvalidAuthority);
        }
        if reviewer.voter_id == reviewed.voter_id {
            return Err(CommissionMarketErrors::InvalidReviewAuthority);
        }
        if rating == 0 || rating > 5 {
            return Err(CommissionMarketErrors::RatingOutsideRange);
        }
        if self.seller == reviewer.voter_id && reviewed.voter_id == self.buyer
            && !self.reviews.seller {
            self.reviews.seller = true;
            Ok(())
        } else if self.buyer == reviewer.voter_id && reviewed.voter_id == self.seller
            && !self.reviews.buyer {
            self.reviews.buyer = true;
            Ok(())
        } else {
            Err(CommissionMarketErrors::InvalidReviewAuthority)
        }
    }
}

/// Whether the seller's one review slot is open for this submission:
/// the seller rates the buyer and has not rated before.
pub open spec fn seller_review_open(
    tx: CommissionTransaction,
    reviewer: OrbitMarketAccount,
    reviewed: OrbitMarketAccount,
) -> bool {
    tx.seller == reviewer.voter_id && reviewed.voter_id == tx.buyer && !tx.reviews.seller
}

/// Whether the buyer's one review slot is open for this submission:
/// the buyer rates the seller and has not rated before.
pub open spec fn buyer_review_open(
    tx: CommissionTransaction,
    reviewer: OrbitMarketAccount,
    reviewed: OrbitMarketAccount,
) -> bool {
    tx.buyer == reviewer.voter_id && reviewed.voter_id == tx.seller && !tx.reviews.buyer
}

} // verus!
