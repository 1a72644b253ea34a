//! The plain types that the market and the execution of agreements share.

use vstd::prelude::*;

verus! {

/// An account of the ledger.
pub type AccountId = u64;

/// An amount of the ledger's currency.
pub type Balance = u128;

/// A number of requests.
pub type RequestsUsize = u32;

/// Who makes the agreement once a consumer has accepted a provider's bid.
pub trait AgreementManagement {
    /// Why an agreement could not be made.
    type Error;

    /// Makes the agreement between `consumer` and `provider` that the order
    /// `order_id` led to.
    fn create_agreement(
        &mut self,
        consumer: AccountId,
        provider: AccountId,
        order_id: u32,
        model_id: Vec<u8>,
        price_per_request: Balance,
        requests_total: RequestsUsize,
    ) -> Result<(), Self::Error>;
}

/// Who knows the owner of a model and the royalty that is due to the owner
/// for each request.
pub trait RoyaltyResolver {
    /// The owner of the model and the royalty, if the model has an owner.
    fn get_royalty(&self, model_id: &Vec<u8>) -> Option<(AccountId, Balance)>;
}

} // verus!
