use vstd::prelude::*;
use crate::errors::CommissionMarketErrors;
use crate::state::{DigitalProduct, DigitalProductType, OrbitMarketAccount, OrbitProduct};

verus! {

/// Lists a product for commissioning in the marketplace catalog: the
/// listing record takes the product's description and is marked as a
/// commission listing. Fails when the offered product does not belong
/// to the listing seller.
pub fn list_commission_handler(
    digital_product: &mut DigitalProduct,
    prod: OrbitProduct,
    seller_account: &OrbitMarketAccount,
) -> (r: Result<(), CommissionMarketErrors>)
    ensures
        r is Ok <==> prod.seller == seller_account.voter_id,
        r is Ok ==> *final(digital_product) == (DigitalProduct {
            metadata: prod,
            digital_product_type: DigitalProductType::Commission,
        }),
        r is Err ==> *final(digital_product) == *old(digital_product) && r == Err::<
            (),
            CommissionMarketErrors,
        >(CommissionMarketErrors::InvalidSellerForListing),
{
    if prod.seller != seller_account.voter_id {
        return Err(CommissionMarketErrors::InvalidSellerForListing);
    }
    digital_product.metadata = prod;
    digital_product.digital_product_type = DigitalProductType::Commission;
    Ok(())
}

} // verus!
