//! The entrypoints: deployment, the ticket purchase and the configuration
//! query, and the laws that the purchase keeps.

use vstd::prelude::*;
use cosmwasm_std::StdError;
use crate::amount::{decimal_text, uint128_to_string};
use crate::asset::{
    operations_view, AssetInfo, AssetInfoView, Coin, CoinView, SwapOperation, SwapOperationView,
};
use crate::error::ContractError;
use crate::instruction::{
    attribute, single_coin, wasm_execute, Attribute, AttributeView, Instruction, InstructionView,
    Payload, PayloadView, Response, ResponseView,
};
use crate::msg::{
    ConfigResponse, ExecuteMsgOperations, InstantiateMsgOperations, QueryMsgOperations,
};
use crate::state::{Config, ConfigView};
use crate::swap::{query_swap_operations_msg, swap_instructions};

verus! {

/// The least amount of the ticket contract's token that the swap must yield.
pub const MINIMUM_RECEIVE: u128 = 719577u128;

/// The native denomination in which tickets are paid.
pub open spec fn native_denom() -> Seq<char> {
    "orai"@
}

/// The one swap step of a purchase: native token for the ticket contract's
/// token.
pub open spec fn ticket_swap_step(config: ConfigView) -> SwapOperationView {
    SwapOperationView {
        offer: AssetInfoView::NativeToken { denom: native_denom() },
        ask: AssetInfoView::Token { contract_addr: config.lottery_contract },
    }
}

/// The swap leg of a purchase: the contract itself executes, the caller pays,
/// the whole amount is offered and the proceeds come back to the contract.
pub open spec fn ticket_swap_instructions(
    config: ConfigView,
    contract_addr: Seq<char>,
    sender: Seq<char>,
    amount: u128,
) -> Seq<InstructionView> {
    swap_instructions(
        config.oraiswap_router,
        AssetInfoView::NativeToken { denom: native_denom() },
        sender,
        contract_addr,
        amount,
        seq![ticket_swap_step(config)],
        Some(MINIMUM_RECEIVE),
        Some(contract_addr),
    )
}

/// The transfer that hands `change` of the native token back to the caller.
pub open spec fn refund_instruction(sender: Seq<char>, change: u128) -> InstructionView {
    InstructionView::BankSend {
        to_address: sender,
        amount: seq![CoinView { denom: native_denom(), amount: change }],
    }
}

/// The invocation that buys the ticket, with exactly the price attached.
pub open spec fn ticket_instruction(lottery_contract: Seq<char>, price: u128) -> InstructionView {
    InstructionView::WasmExecute {
        contract_addr: lottery_contract,
        msg: PayloadView::BuyTicket,
        funds: seq![CoinView { denom: native_denom(), amount: price }],
    }
}

/// What is paid above the price.
pub open spec fn change_due(amount: u128, price: u128) -> u128 {
    if amount > price {
        (amount - price) as u128
    } else {
        0
    }
}

/// The refund of a purchase: one transfer where more than the price was
/// paid, nothing otherwise.
pub open spec fn refund_instructions(sender: Seq<char>, amount: u128, price: u128) -> Seq<
    InstructionView,
> {
    if amount > price {
        seq![refund_instruction(sender, change_due(amount, price))]
    } else {
        Seq::<InstructionView>::empty()
    }
}

/// The instructions of a purchase that covers the price, in order: the swap
/// leg, the refund if any, the ticket purchase.
pub open spec fn purchase_instructions(
    config: ConfigView,
    contract_addr: Seq<char>,
    sender: Seq<char>,
    amount: u128,
    price: u128,
) -> Seq<InstructionView> {
    ticket_swap_instructions(config, contract_addr, sender, amount) + refund_instructions(
        sender,
        amount,
        price,
    ) + seq![ticket_instruction(config.lottery_contract, price)]
}

/// What a purchase that covers the price hands back.
pub open spec fn purchase_response(
    config: ConfigView,
    contract_addr: Seq<char>,
    sender: Seq<char>,
    amount: u128,
    price: u128,
) -> ResponseView {
    ResponseView {
        messages: purchase_instructions(config, contract_addr, sender, amount, price),
        attributes: seq![
            AttributeView { key: "action"@, value: "swap_and_buy_ticket"@ },
            AttributeView { key: "amount"@, value: decimal_text(amount as nat) },
        ],
    }
}

/// What a deployment hands back: no instruction, and the three identities as
/// attributes.
pub open spec fn instantiate_response(config: ConfigView) -> ResponseView {
    ResponseView {
        messages: Seq::<InstructionView>::empty(),
        attributes: seq![
            AttributeView { key: "method"@, value: "instantiate"@ },
            AttributeView { key: "owner"@, value: config.owner },
            AttributeView { key: "lottery_contract"@, value: config.lottery_contract },
            AttributeView { key: "oraiswap_router"@, value: config.oraiswap_router },
        ],
    }
}

/// Deploys the contract: the configuration to store holds the three
/// identities of the message, and the response reports them.
pub fn instantiate(msg: InstantiateMsgOperations) -> (r: (Config, Response))
    ensures
        r.0@ == (ConfigView {
            owner: msg.owner@,
            lottery_contract: msg.lottery_contract@,
            oraiswap_router: msg.oraiswap_router@,
        }),
        r.1@ == instantiate_response(r.0@),
{
    let config = Config {
        owner: msg.owner,
        lottery_contract: msg.lottery_contract,
        oraiswap_router: msg.oraiswap_router,
    };
    let messages: Vec<Instruction> = Vec::new();
    let mut attributes: Vec<Attribute> = Vec::new();
    attributes.push(attribute("method", "instantiate".to_string()));
    attributes.push(attribute("owner", config.owner.clone()));
    attributes.push(attribute("lottery_contract", config.lottery_contract.clone()));
    attributes.push(attribute("oraiswap_router", config.oraiswap_router.clone()));
    let response = Response { messages, attributes };
    assert(response@.messages =~= instantiate_response(config@).messages);
    assert(response@.attributes =~= instantiate_response(config@).attributes);
    (config, response)
}

/// Answers the configuration query with the three stored identities.
pub fn query(config: &Config, msg: QueryMsgOperations) -> (r: ConfigResponse)
    ensures
        r.owner@ == config@.owner,
        r.lottery_contract@ == config@.lottery_contract,
        r.oraiswap_router@ == config@.oraiswap_router,
{
    match msg {
        QueryMsgOperations::Config {  } => ConfigResponse {
            owner: config.owner.clone(),
            lottery_contract: config.lottery_contract.clone(),
            oraiswap_router: config.oraiswap_router.clone(),
        },
    }
}

/// Reads the ticket price out of the ticket contract's reply: the amount of
/// the coin it names, or the failure of the query as it came.
pub fn query_ticket_price_from_lottery_contract(reply: Result<Coin, StdError>) -> (r: Result<
    u128,
    ContractError,
>)
    ensures
        match reply {
            Ok(coin) => r == Ok::<u128, ContractError>(coin.amount),
            Err(e) => r == Err::<u128, ContractError>(ContractError::Std(e)),
        },
{
    match reply {
        Ok(coin) => Ok(coin.amount),
        Err(e) => Err(ContractError::Std(e)),
    }
}

/// Buys a ticket with `amount` of the native token that `sender` paid to the
/// contract at `contract_addr`.
///
/// `price_reply` is the ticket contract's reply to the price query. A failed
/// query is handed on as it came. An amount under the price is rejected and
/// no instruction is returned. Otherwise the response holds the swap leg, the
/// refund of what was paid above the price, if anything, and the ticket
/// purchase with exactly the price attached, in this order.
pub fn try_buy_ticket(
    config: &Config,
    contract_addr: &String,
    sender: &String,
    amount: u128,
    price_reply: Result<Coin, StdError>,
) -> (r: Result<Response, ContractError>)
    ensures
        match price_reply {
            Err(e) => r == Err::<Response, ContractError>(ContractError::Std(e)),
            Ok(coin) => if amount < coin.amount {
                r == Err::<Response, ContractError>(ContractError::InvalidFunds)
            } else {
                r is Ok && r->Ok_0@ == purchase_response(
                    config@,
                    contract_addr@,
                    sender@,
                    amount,
                    coin.amount,
                )
            },
        },
{
    let swap_operations = vec![
        SwapOperation::OraiSwap {
            offer_asset_info: AssetInfo::NativeToken { denom: "orai".to_string() },
            ask_asset_info: AssetInfo::Token { contract_addr: config.lottery_contract.clone() },
        },
    ];
    assert(operations_view(swap_operations@) =~= seq![ticket_swap_step(config@)]);
    let swap_msgs = query_swap_operations_msg(
        config,
        contract_addr,
        sender,
        Some(amount),
        // the amount is explicit, so no balance is looked up
        Ok(0u128),
        swap_operations,
        Some(MINIMUM_RECEIVE),
        Some(contract_addr.clone()),
        None,
    );
    let mut messages = match swap_msgs {
        Ok(list) => list,
        Err(e) => {
            return Err(e);
        },
    };
    let ticket_price = match query_ticket_price_from_lottery_contract(price_reply) {
        Ok(price) => price,
        Err(e) => {
            return Err(e);
        },
    };
    if amount < ticket_price {
        return Err(ContractError::InvalidFunds);
    } else if amount > ticket_price {
        let change = amount - ticket_price;
        messages.push(
            Instruction::BankSend {
                to_address: sender.clone(),
                amount: single_coin("orai".to_string(), change),
            },
        );
    }
    messages.push(
        wasm_execute(
            config.lottery_contract.clone(),
            Payload::BuyTicket,
            single_coin("orai".to_string(), ticket_price),
        ),
    );
    let mut attributes: Vec<Attribute> = Vec::new();
    attributes.push(attribute("action", "swap_and_buy_ticket".to_string()));
    attributes.push(attribute("amount", uint128_to_string(amount)));
    let response = Response { messages, attributes };
    proof {
        let expected = purchase_response(config@, contract_addr@, sender@, amount, ticket_price);
        assert(response@.messages =~= expected.messages);
        assert(response@.attributes =~= expected.attributes);
    }
    Ok(response)
}

/// Carries out a request: the one there is buys a ticket, as
/// [`try_buy_ticket`] does.
pub fn execute(
    config: &Config,
    contract_addr: &String,
    sender: &String,
    msg: ExecuteMsgOperations,
    price_reply: Result<Coin, StdError>,
) -> (r: Result<Response, ContractError>)
    ensures
        match price_reply {
            Err(e) => r == Err::<Response, ContractError>(ContractError::Std(e)),
            Ok(coin) => if msg->amount < coin.amount {
                r == Err::<Response, ContractError>(ContractError::InvalidFunds)
            } else {
                r is Ok && r->Ok_0@ == purchase_response(
                    config@,
                    contract_addr@,
                    sender@,
                    msg->amount,
                    coin.amount,
                )
            },
        },
{
    match msg {
        ExecuteMsgOperations::BuyTicket { amount } => try_buy_ticket(
            config,
            contract_addr,
            sender,
            amount,
            price_reply,
        ),
    }
}

/// A purchase that covers the price ends with the ticket purchase, which
/// attaches exactly the price, whatever was paid.
pub proof fn purchase_ends_with_ticket(
    config: ConfigView,
    contract_addr: Seq<char>,
    sender: Seq<char>,
    amount: u128,
    price: u128,
)
    requires
        amount >= price,
    ensures
        purchase_instructions(config, contract_addr, sender, amount, price).last()
            == ticket_instruction(config.lottery_contract, price),
        ticket_instruction(config.lottery_contract, price)->funds == seq![
            CoinView { denom: native_denom(), amount: price },
        ],
{
}

/// A purchase that pays exactly the price holds no refund: it is the swap leg
/// followed by the ticket purchase, and none of its instructions is a
/// transfer.
pub proof fn exact_payment_has_no_refund(
    config: ConfigView,
    contract_addr: Seq<char>,
    sender: Seq<char>,
    price: u128,
)
    ensures
        purchase_instructions(config, contract_addr, sender, price, price)
            == ticket_swap_instructions(config, contract_addr, sender, price) + seq![
            ticket_instruction(config.lottery_contract, price),
        ],
        forall|i: int|
            0 <= i < purchase_instructions(config, contract_addr, sender, price, price).len()
                ==> !(#[trigger] purchase_instructions(
                config,
                contract_addr,
                sender,
                price,
                price,
            )[i] is BankSend),
{
    let swap = ticket_swap_instructions(config, contract_addr, sender, price);
    let list = purchase_instructions(config, contract_addr, sender, price, price);
    assert(list =~= swap + seq![ticket_instruction(config.lottery_contract, price)]);
}

/// A purchase that pays more than the price holds exactly one refund: the
/// transfer of the difference to the caller stands right after the swap leg
/// and right before the ticket purchase, and no other instruction is a
/// transfer.
pub proof fn overpayment_has_one_refund(
    config: ConfigView,
    contract_addr: Seq<char>,
    sender: Seq<char>,
    amount: u128,
    price: u128,
)
    requires
        amount > price,
    ensures
        ({
            let swap = ticket_swap_instructions(config, contract_addr, sender, amount);
            let list = purchase_instructions(config, contract_addr, sender, amount, price);
            &&& list.len() == swap.len() + 2
            &&& list.subrange(0, swap.len() as int) == swap
            &&& list[swap.len() as int] == refund_instruction(sender, (amount - price) as u128)
            &&& list[swap.len() as int + 1] == ticket_instruction(config.lottery_contract, price)
            &&& forall|i: int|
                0 <= i < list.len() && i != swap.len() ==> !(#[trigger] list[i] is BankSend)
        }),
{
    let swap = ticket_swap_instructions(config, contract_addr, sender, amount);
    let list = purchase_instructions(config, contract_addr, sender, amount, price);
    assert(list.subrange(0, swap.len() as int) =~= swap);
}

/// The swap leg of a purchase is one invocation of the router that attaches
/// the whole amount paid.
pub proof fn swap_leg_offers_whole_amount(
    config: ConfigView,
    contract_addr: Seq<char>,
    sender: Seq<char>,
    amount: u128,
)
    ensures
        ticket_swap_instructions(config, contract_addr, sender, amount) == seq![
            InstructionView::WasmExecute {
                contract_addr: config.oraiswap_router,
                msg: PayloadView::ExecuteSwapOperations {
                    operations: seq![ticket_swap_step(config)],
                    minimum_receive: Some(MINIMUM_RECEIVE),
                    to: Some(contract_addr),
                },
                funds: seq![CoinView { denom: native_denom(), amount }],
            },
        ],
{
}

} // verus!
