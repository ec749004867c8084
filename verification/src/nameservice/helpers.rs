//! Small shared helpers of the name service.

use vstd::prelude::*;

use crate::nameservice::error::{ContractError, ContractErrorView};
use crate::numeric::{all_digits, dec_val, parse_u128_dec};

verus! {

/// The message reported when a stored fee amount cannot be read as a number.
pub open spec fn fee_parse_err_msg(s: Seq<char>) -> Seq<char> {
    "unable to parse input fee amount ["@ + s + "] as numeric"@
}

/// Whether a stored fee-amount string denotes a number: non-empty, all
/// decimal digits, and small enough for the amount type.
pub open spec fn fee_amount_parses(s: Seq<char>) -> bool {
    s.len() > 0 && all_digits(s) && dec_val(s) <= u128::MAX
}

/// Reads a configured fee amount from its stored string form.  Succeeds
/// exactly on non-empty digit strings whose value fits the amount type,
/// returning that value.
pub fn fee_amount_from_string(fee_amount_string: &str) -> (r: Result<u128, ContractError>)
    ensures
        match r {
            Ok(v) => fee_amount_parses(fee_amount_string@) && v as nat == dec_val(
                fee_amount_string@,
            ),
            Err(e) => !fee_amount_parses(fee_amount_string@) && e@ == (ContractErrorView::Std {
                message: fee_parse_err_msg(fee_amount_string@),
            }),
        },
{
    match parse_u128_dec(fee_amount_string) {
        Some(amount) => Ok(amount),
        None => {
            let mut message = String::from_str("unable to parse input fee amount [");
            message.append(fee_amount_string);
            message.append("] as numeric");
            ContractError::std_err(message)
        },
    }
}

} // verus!
