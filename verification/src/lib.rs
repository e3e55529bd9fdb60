//! An escrow-mediated commissioning marketplace core: the lifecycle of a
//! single buyer/seller transaction, the settlement arithmetic that splits
//! the custodied funds, the commit/reveal bookkeeping for digital delivery
//! secrets, and the discount and referral accounting around them.

pub mod accounting;
pub mod errors;
pub mod escrow;
pub mod key_escrow;
pub mod lifecycle;
pub mod listing;
pub mod mask;
pub mod pda;
pub mod settlement;
pub mod state;

