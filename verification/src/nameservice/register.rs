//! Name registration: format and uniqueness validation, the fee and refund
//! computation, and the registration operation itself.

use vstd::prelude::*;

use crate::charclass::{alphanumeric_char, lowercase_char, numeric_char, is_alphanumeric_char,
    is_lowercase_char, is_numeric_char};
use crate::coin::{Coin, CoinView, coins_view};
use crate::contract::MessageInfo;
use crate::instructions::{Attribute, AttributeView, Instruction, InstructionView, Response,
    ResponseView, attr};
use crate::nameservice::error::{ContractError, ContractErrorView};
use crate::nameservice::helpers::{fee_amount_from_string, fee_amount_parses, fee_parse_err_msg};
use crate::nameservice::state::{NameMeta, NameMetaView, NameRegistry, NameRegistryView,
    StateView, has_name};
use crate::numeric::{dec_str_of, dec_val, u128_to_dec_string};

verus! {

/// A well-formed name: non-empty, every character alphanumeric, and each
/// either lowercase or numeric (no uppercase, no spaces, no punctuation).
pub open spec fn valid_name_format(name: Seq<char>) -> bool {
    name.len() > 0 && forall|i: int| 0 <= i < name.len() ==> alphanumeric_char(#[trigger] name[i])
        && (lowercase_char(name[i]) || numeric_char(name[i]))
}

/// Validates that a name can be added: it must not be registered yet, and it
/// must be all-lowercase alphanumeric.
pub fn validate_name(name: String, reg: &NameRegistry) -> (r: Result<String, ContractError>)
    ensures
        match r {
            Ok(_) => !has_name(reg@.metas, name@) && valid_name_format(name@),
            Err(e) => if has_name(reg@.metas, name@) {
                e@ == (ContractErrorView::NameRegistered { name: name@ })
            } else {
                !valid_name_format(name@) && e@ == (ContractErrorView::InvalidNameFormat {
                    name: name@,
                })
            },
        },
{
    if reg.find_meta(&name).is_some() {
        return ContractError::NameRegistered { name }.to_result();
    }
    let len = name.as_str().unicode_len();
    if len == 0 {
        return ContractError::InvalidNameFormat { name }.to_result();
    }
    let mut i: usize = 0;
    while i < len
        invariant
            i <= len,
            len == name@.len(),
            !has_name(reg@.metas, name@),
            forall|j: int| 0 <= j < i ==> alphanumeric_char(#[trigger] name@[j]) && (
            lowercase_char(name@[j]) || numeric_char(name@[j])),
        decreases len - i,
    {
        let c = name.as_str().get_char(i);
        if !is_alphanumeric_char(c) || (!is_lowercase_char(c) && !is_numeric_char(c)) {
            proof {
                assert(!valid_name_format(name@)) by {
                    assert(!(alphanumeric_char(name@[i as int]) && (lowercase_char(
                        name@[i as int],
                    ) || numeric_char(name@[i as int]))));
                }
            }
            return ContractError::InvalidNameFormat { name }.to_result();
        }
        i = i + 1;
    }
    Ok(String::from_str("successful validation"))
}

/// The attached coins that are not in the fee denomination, in order.
pub open spec fn foreign_coins(funds: Seq<CoinView>) -> Seq<CoinView> {
    funds.filter(|c: CoinView| c.denom != "nhash"@)
}

/// The denominations attached that are not the fee denomination, in order.
pub open spec fn non_fee_denoms(funds: Seq<CoinView>) -> Seq<Seq<char>> {
    foreign_coins(funds).map_values(|c: CoinView| c.denom)
}

/// The amount of the first fee-denomination coin attached, if any.
pub open spec fn first_fee_coin_amount(funds: Seq<CoinView>) -> Option<u128>
    decreases funds.len(),
{
    if funds.len() == 0 {
        None
    } else if funds[0].denom == "nhash"@ {
        Some(funds[0].amount)
    } else {
        first_fee_coin_amount(funds.drop_first())
    }
}

/// Skipping coins that are not in the fee denomination does not change which
/// coin is the first fee coin.
proof fn lemma_first_fee_prefix(funds: Seq<CoinView>, i: int)
    requires
        0 <= i <= funds.len(),
        forall|j: int| 0 <= j < i ==> #[trigger] funds[j].denom != "nhash"@,
    ensures
        first_fee_coin_amount(funds) == first_fee_coin_amount(funds.skip(i)),
    decreases i,
{
    if i > 0 {
        lemma_first_fee_prefix(funds.drop_first(), i - 1);
        assert(funds.drop_first().skip(i - 1) =~= funds.skip(i));
    } else {
        assert(funds.skip(0) =~= funds);
    }
}

/// The messages and refund amount that settle a registration fee.
pub struct FeeChargeResponse {
    pub fee_charge_message: Option<Instruction>,
    pub fee_refund_message: Option<Instruction>,
    pub fee_refund_amount: u128,
}

/// The mathematical value of a [`FeeChargeResponse`].
pub ghost struct FeeChargeResponseView {
    pub fee_charge_message: Option<InstructionView>,
    pub fee_refund_message: Option<InstructionView>,
    pub fee_refund_amount: u128,
}

impl View for FeeChargeResponse {
    type V = FeeChargeResponseView;

    open spec fn view(&self) -> FeeChargeResponseView {
        FeeChargeResponseView {
            fee_charge_message: match self.fee_charge_message {
                Some(m) => Some(m@),
                None => None,
            },
            fee_refund_message: match self.fee_refund_message {
                Some(m) => Some(m@),
                None => None,
            },
            fee_refund_amount: self.fee_refund_amount,
        }
    }
}

/// A transfer of one fee-denomination coin.
pub open spec fn fee_coin_transfer(to_address: Seq<char>, amount: u128) -> InstructionView {
    InstructionView::TransferFunds {
        to_address,
        amount: seq![CoinView { denom: "nhash"@, amount }],
    }
}

/// What the fee computation does, for every input: rejects funds of a foreign
/// denomination and underpayment; otherwise produces the fee transfer (when a
/// fee is due) and the refund of any overpayment.
pub open spec fn fee_params_post(
    funds: Seq<CoinView>,
    sender: Seq<char>,
    config: StateView,
    res: Result<FeeChargeResponseView, ContractErrorView>,
) -> bool {
    res == fee_check_result(funds, sender, config)
}

/// Collects the denominations attached that are not the fee denomination.
fn collect_non_fee_denoms(funds: &Vec<Coin>) -> (r: Vec<String>)
    ensures
        r@.map_values(|s: String| s@) == non_fee_denoms(coins_view(funds@)),
{
    let fee_denom = String::from_str("nhash");
    let mut out: Vec<String> = Vec::new();
    let mut i: usize = 0;
    proof {
        assert(coins_view(funds@).take(0) =~= Seq::<CoinView>::empty());
        assert(Seq::<CoinView>::empty().filter(|c: CoinView| c.denom != "nhash"@)
            =~= Seq::<CoinView>::empty());
        assert(out@.map_values(|s: String| s@) =~= non_fee_denoms(coins_view(funds@).take(0)));
    }
    while i < funds.len()
        invariant
            i <= funds@.len(),
            fee_denom@ == "nhash"@,
            out@.map_values(|s: String| s@) == non_fee_denoms(coins_view(funds@).take(i as int)),
        decreases funds@.len() - i,
    {
        let ghost pre_views = coins_view(funds@).take(i as int);
        let ghost post_views = coins_view(funds@).take(i as int + 1);
        proof {
            assert(post_views.drop_last() =~= pre_views);
            pre_views.lemma_filter_push(
                coins_view(funds@)[i as int],
                |c: CoinView| c.denom != "nhash"@,
            );
            assert(post_views =~= pre_views.push(coins_view(funds@)[i as int]));
        }
        if !String::eq(&funds[i].denom, &fee_denom) {
            out.push(funds[i].denom.clone());
            proof {
                let cv = coins_view(funds@)[i as int];
                assert(cv.denom != "nhash"@);
                assert(foreign_coins(post_views) == foreign_coins(pre_views).push(cv));
                assert(non_fee_denoms(post_views) =~= non_fee_denoms(pre_views).push(cv.denom));
                assert(out@.map_values(|s: String| s@) =~= non_fee_denoms(pre_views).push(
                    cv.denom,
                ));
            }
        } else {
            proof {
                let cv = coins_view(funds@)[i as int];
                assert(cv.denom == "nhash"@);
                assert(foreign_coins(post_views) == foreign_coins(pre_views));
                assert(out@.map_values(|s: String| s@) =~= non_fee_denoms(post_views));
            }
        }
        i = i + 1;
    }
    proof {
        assert(coins_view(funds@).take(funds@.len() as int) =~= coins_view(funds@));
    }
    out
}

/// Finds the amount of the first fee-denomination coin attached.
fn find_first_fee_coin(funds: &Vec<Coin>) -> (r: Option<u128>)
    ensures
        r == first_fee_coin_amount(coins_view(funds@)),
{
    let fee_denom = String::from_str("nhash");
    let mut i: usize = 0;
    while i < funds.len()
        invariant
            i <= funds@.len(),
            fee_denom@ == "nhash"@,
            forall|j: int| 0 <= j < i ==> #[trigger] coins_view(funds@)[j].denom != "nhash"@,
        decreases funds@.len() - i,
    {
        proof {
            lemma_first_fee_prefix(coins_view(funds@), i as int);
            assert(coins_view(funds@).skip(i as int)[0] == coins_view(funds@)[i as int]);
        }
        if String::eq(&funds[i].denom, &fee_denom) {
            return Some(funds[i].amount);
        }
        i = i + 1;
    }
    proof {
        lemma_first_fee_prefix(coins_view(funds@), funds@.len() as int);
        assert(coins_view(funds@).skip(funds@.len() as int).len() == 0);
    }
    None
}

/// Verifies that the attached funds can pay the configured registration fee
/// and builds the fee-transfer and overpayment-refund messages: no foreign
/// denominations, enough of the fee denomination to cover the fee, the fee
/// sent to the collection account, and any excess returned to the sender.
pub fn validate_fee_params_get_messages(
    info: &MessageInfo,
    config: &crate::nameservice::state::State,
) -> (r: Result<FeeChargeResponse, ContractError>)
    ensures
        fee_params_post(coins_view(info.funds@), info.sender@, config@, match r {
            Ok(resp) => Ok(resp@),
            Err(e) => Err(e@),
        }),
{
    let invalid_funds = collect_non_fee_denoms(&info.funds);
    if invalid_funds.len() > 0 {
        proof {
            assert(non_fee_denoms(coins_view(info.funds@)).len() > 0);
        }
        return ContractError::InvalidFundsProvided { types: invalid_funds }.to_result();
    }
    proof {
        assert(non_fee_denoms(coins_view(info.funds@)).len() == 0);
    }
    let nhash_fee_amount = match fee_amount_from_string(config.fee_amount.as_str()) {
        Ok(amount) => amount,
        Err(e) => {
            return Err(e);
        },
    };
    let nhash_sent = match find_first_fee_coin(&info.funds) {
        Some(amount) => amount,
        None => {
            if nhash_fee_amount > 0 {
                return ContractError::NoFundsProvidedForRegistration.to_result();
            } else {
                0
            }
        },
    };
    if nhash_sent < nhash_fee_amount {
        return ContractError::InsufficientFundsProvided {
            amount_provided: nhash_sent,
            amount_required: nhash_fee_amount,
        }.to_result();
    }
    let fee_charge_message = if nhash_fee_amount > 0 {
        Some(Instruction::TransferFunds {
            to_address: config.fee_collection_address.clone(),
            amount: vec![Coin { denom: String::from_str("nhash"), amount: nhash_fee_amount }],
        })
    } else {
        None
    };
    let fee_refund_amount = nhash_sent - nhash_fee_amount;
    let fee_refund_message = if fee_refund_amount > 0 {
        Some(Instruction::TransferFunds {
            to_address: info.sender.clone(),
            amount: vec![Coin { denom: String::from_str("nhash"), amount: fee_refund_amount }],
        })
    } else {
        None
    };
    let result = FeeChargeResponse { fee_charge_message, fee_refund_message, fee_refund_amount };
    proof {
        let fee = dec_val(config@.fee_amount);
        if nhash_fee_amount > 0 {
            assert(result@.fee_charge_message == Some(fee_coin_transfer(
                config@.fee_collection_address,
                fee as u128,
            ))) by {
                assert(coins_view(result.fee_charge_message.unwrap()->TransferFunds_amount@)
                    =~= seq![CoinView { denom: "nhash"@, amount: nhash_fee_amount }]);
            }
        }
        if fee_refund_amount > 0 {
            assert(result@.fee_refund_message == Some(fee_coin_transfer(
                info.sender@,
                fee_refund_amount,
            ))) by {
                assert(coins_view(result.fee_refund_message.unwrap()->TransferFunds_amount@)
                    =~= seq![CoinView { denom: "nhash"@, amount: fee_refund_amount }]);
            }
        }
    }
    Ok(result)
}

/// What registration does, for every input: the name must be new and well
/// formed and the fee payable; the record is then added, the host is told to
/// attach the name attribute to the caller's account, the fee is charged and
/// any overpayment refunded, with a `fee_refund` attribute naming the refund.
pub open spec fn register_post(
    pre: NameRegistryView,
    post: NameRegistryView,
    sender: Seq<char>,
    funds: Seq<CoinView>,
    name: Seq<char>,
    res: Result<ResponseView, ContractErrorView>,
) -> bool {
    if pre.config is None {
        res == Err::<ResponseView, ContractErrorView>(ContractErrorView::Std {
            message: "contract state not found"@,
        }) && post == pre
    } else if has_name(pre.metas, name) {
        res == Err::<ResponseView, ContractErrorView>(ContractErrorView::NameRegistered { name })
            && post == pre
    } else if !valid_name_format(name) {
        res == Err::<ResponseView, ContractErrorView>(ContractErrorView::InvalidNameFormat {
            name,
        }) && post == pre
    } else {
        let config = pre.config.unwrap();
        match fee_check_result(funds, sender, config) {
            Err(e) => res == Err::<ResponseView, ContractErrorView>(e) && post == pre,
            Ok(charge) => {
                &&& post.config == pre.config
                &&& post.version_info == pre.version_info
                &&& post.metas.to_multiset() == pre.metas.to_multiset().insert(
                    NameMetaView { name, address: sender },
                )
                &&& has_name(post.metas, name)
                &&& res matches Ok(resp) && resp == register_response(
                    sender,
                    config.name,
                    name,
                    charge,
                )
            },
        }
    }
}

/// The outcome of the fee computation alone, as a result value.
pub open spec fn fee_check_result(
    funds: Seq<CoinView>,
    sender: Seq<char>,
    config: StateView,
) -> Result<FeeChargeResponseView, ContractErrorView> {
    if non_fee_denoms(funds).len() > 0 {
        Err(ContractErrorView::InvalidFundsProvided { types: non_fee_denoms(funds) })
    } else if !fee_amount_parses(config.fee_amount) {
        Err(ContractErrorView::Std { message: fee_parse_err_msg(config.fee_amount) })
    } else {
        let fee = dec_val(config.fee_amount);
        let sent = match first_fee_coin_amount(funds) {
            Some(amount) => amount as nat,
            None => 0,
        };
        if first_fee_coin_amount(funds) is None && fee > 0 {
            Err(ContractErrorView::NoFundsProvidedForRegistration)
        } else if sent < fee {
            Err(ContractErrorView::InsufficientFundsProvided {
                amount_provided: sent as u128,
                amount_required: fee as u128,
            })
        } else {
            Ok(FeeChargeResponseView {
                fee_charge_message: if fee > 0 {
                    Some(fee_coin_transfer(config.fee_collection_address, fee as u128))
                } else {
                    None
                },
                fee_refund_message: if sent > fee {
                    Some(fee_coin_transfer(sender, (sent - fee) as u128))
                } else {
                    None
                },
                fee_refund_amount: (sent - fee) as u128,
            })
        }
    }
}

/// The response of a successful registration: the attribute write, then the
/// fee charge and refund where due, with the action, name and refund
/// attributes.
pub open spec fn register_response(
    sender: Seq<char>,
    registrar: Seq<char>,
    name: Seq<char>,
    charge: FeeChargeResponseView,
) -> ResponseView {
    let base_msgs = seq![
        InstructionView::AddAttribute { address: sender, attribute_name: registrar, value: name },
    ];
    let with_fee = match charge.fee_charge_message {
        Some(m) => base_msgs.push(m),
        None => base_msgs,
    };
    let msgs = match charge.fee_refund_message {
        Some(m) => with_fee.push(m),
        None => with_fee,
    };
    let base_attrs = seq![
        AttributeView { key: "action"@, value: "name_register"@ },
        AttributeView { key: "name"@, value: name },
    ];
    let attrs = if charge.fee_refund_message is Some {
        base_attrs.push(AttributeView {
            key: "fee_refund"@,
            value: dec_str_of(charge.fee_refund_amount as nat) + "nhash"@,
        })
    } else {
        base_attrs
    };
    ResponseView { messages: msgs, attributes: attrs }
}

/// Registers a name for the calling account: validates the name and the fee,
/// stores the record, and instructs the host to attach the name attribute,
/// charge the fee and refund any overpayment.
pub fn register_name(reg: &mut NameRegistry, info: &MessageInfo, name: String) -> (r: Result<
    Response,
    ContractError,
>)
    requires
        old(reg).wf(),
    ensures
        final(reg).wf(),
        register_post(
            old(reg)@,
            final(reg)@,
            info.sender@,
            coins_view(info.funds@),
            name@,
            res_view_ns(r),
        ),
{
    let config = match &reg.config {
        Some(c) => c.clone_state(),
        None => {
            return ContractError::std_err(String::from_str("contract state not found"));
        },
    };
    match validate_name(name.clone(), reg) {
        Ok(_) => {},
        Err(e) => {
            return Err(e);
        },
    }
    let charge_response = match validate_fee_params_get_messages(info, &config) {
        Ok(c) => c,
        Err(e) => {
            return Err(e);
        },
    };
    let name_meta = NameMeta { name: name.clone(), address: info.sender.clone() };
    reg.insert_meta(name_meta);
    let mut messages: Vec<Instruction> = Vec::new();
    messages.push(Instruction::AddAttribute {
        address: info.sender.clone(),
        attribute_name: config.name,
        value: name.clone(),
    });
    let ghost charge_view = charge_response@;
    if let Some(fee_message) = charge_response.fee_charge_message {
        messages.push(fee_message);
    }
    let mut attributes: Vec<Attribute> = Vec::new();
    attributes.push(attr("action", "name_register"));
    attributes.push(Attribute { key: String::from_str("name"), value: name });
    if let Some(refund_message) = charge_response.fee_refund_message {
        messages.push(refund_message);
        let mut refund_text = u128_to_dec_string(charge_response.fee_refund_amount);
        refund_text.append("nhash");
        attributes.push(Attribute { key: String::from_str("fee_refund"), value: refund_text });
    }
    let response = Response { messages, attributes };
    proof {
        let expected = register_response(
            info.sender@,
            old(reg)@.config.unwrap().name,
            name@,
            charge_view,
        );
        assert(response@.messages =~= expected.messages);
        assert(response@.attributes =~= expected.attributes);
    }
    Ok(response)
}

/// The view of a name-service operation's result.
pub open spec fn res_view_ns(r: Result<Response, ContractError>) -> Result<
    ResponseView,
    ContractErrorView,
> {
    match r {
        Ok(resp) => Ok(resp@),
        Err(e) => Err(e@),
    }
}

} // verus!
