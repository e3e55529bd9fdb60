use vstd::prelude::*;

verus! {

/// Every way a transition handler can refuse to act. Guard failures are
/// recoverable: the handler reports the error and mutates nothing.
#[derive(Clone, Copy, PartialEq, Eq, Structural, Debug)]
pub enum CommissionMarketErrors {
    /// A product was offered under a catalog that the seller does not own.
    InvalidSellerForListing,
    /// The transaction is not in the lifecycle state the operation needs.
    InvalidState,
    /// The acting account is not the party the operation is reserved for,
    /// or the signing wallet does not belong to that account.
    InvalidAuthority,
    /// The party that last proposed a rate tried to accept its own offer.
    InvalidRateAcceptor,
    /// A proposed commission rate lies above one hundred percent.
    RateOutsideRange,
    /// The buyer tried to confirm delivery before the seller shipped.
    WaitingForSellerData,
    /// A decision was submitted before the buyer confirmed delivery.
    DidNotConfirmDelivery,
    /// An index lies beyond the committed length or the log capacity.
    IndexOutOfRange,
    /// A reveal proof does not co-sign the reveal.
    CorruptPrivateKeyFormat,
    /// A reveal proof's derived reference differs from the commitment.
    IncorrectPrivateKey,
    /// A review rating lies outside the one-to-five range.
    RatingOutsideRange,
    /// The rating party is not buyer or seller, rates itself or anyone
    /// other than the counterparty, or has already rated once.
    InvalidReviewAuthority,
}

} // verus!
