//! The fee-collection record the counter contract can be configured with.

use vstd::prelude::*;

use crate::coin::{Coin, CoinView};
use crate::counter::error::{ContractError, ContractErrorView};
use crate::numeric::{dec_str_of, u128_to_dec_string};

verus! {

/// Who collects the increment fee, and how much of which coin it is.
#[derive(Clone, Debug)]
pub struct FeeCollectionDetail {
    pub fee_collector_address: String,
    pub fee_collection_amount: Coin,
}

/// The mathematical value of a [`FeeCollectionDetail`].
pub ghost struct FeeCollectionDetailView {
    pub fee_collector_address: Seq<char>,
    pub fee_collection_amount: CoinView,
}

impl View for FeeCollectionDetail {
    type V = FeeCollectionDetailView;

    open spec fn view(&self) -> FeeCollectionDetailView {
        FeeCollectionDetailView {
            fee_collector_address: self.fee_collector_address@,
            fee_collection_amount: self.fee_collection_amount@,
        }
    }
}

/// The rendering of a fee amount for messages and attributes: the decimal
/// amount followed by its denomination.
pub open spec fn fee_amount_msg(amount: CoinView) -> Seq<char> {
    dec_str_of(amount.amount as nat) + amount.denom
}

/// A well-formed fee detail: a positive amount of a named denomination.
pub open spec fn fee_detail_valid(detail: FeeCollectionDetailView) -> bool {
    detail.fee_collection_amount.amount > 0 && detail.fee_collection_amount.denom.len() > 0
}

impl FeeCollectionDetail {
    /// An exact copy of the record.
    pub fn clone_detail(&self) -> (r: FeeCollectionDetail)
        ensures
            r@ == self@,
    {
        FeeCollectionDetail {
            fee_collector_address: self.fee_collector_address.clone(),
            fee_collection_amount: crate::coin::clone_coin(&self.fee_collection_amount),
        }
    }

    /// Renders the fee amount, e.g. for event attributes.
    pub fn get_fee_amount_msg(&self) -> (r: String)
        ensures
            r@ == fee_amount_msg(self@.fee_collection_amount),
    {
        let mut s = u128_to_dec_string(self.fee_collection_amount.amount);
        s.append(self.fee_collection_amount.denom.as_str());
        s
    }

    /// Checks that the record is well formed: the fee amount is positive and
    /// its denomination named.  (Whether the collector address exists is the
    /// host's check, made where the record enters the system.)
    pub fn self_validate(&self) -> (r: Result<(), ContractError>)
        ensures
            r is Ok <==> fee_detail_valid(self@),
            r matches Err(e) ==> e@ matches ContractErrorView::GenericError { .. },
    {
        if self.fee_collection_amount.amount == 0 {
            return Err(ContractError::generic_err(
                String::from_str("fee collection amount must be greater than zero"),
            ));
        }
        if self.fee_collection_amount.denom.as_str().is_empty() {
            return Err(ContractError::generic_err(
                String::from_str("fee collection denom must be defined"),
            ));
        }
        Ok(())
    }
}

} // verus!
