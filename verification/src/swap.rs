//! Asset resolution and the instructions that offer an asset to the router.

use vstd::prelude::*;
use cosmwasm_std::StdError;
use crate::amount::half_amount;
use crate::asset::{
    operations_view, text_view, AssetInfo, AssetInfoView, CoinView, SwapOperation,
    SwapOperationView,
};
use crate::error::ContractError;
use crate::instruction::{
    instructions_view, no_coins, single_coin, wasm_execute, Instruction, InstructionView, Payload,
    PayloadView,
};
use crate::state::Config;

verus! {

/// The text with which an empty list of swap steps is rejected.
pub open spec fn empty_operations_text() -> Seq<char> {
    "swap operations is empty"@
}

/// Whether the offer is half of the balance rather than all of it. A native
/// offer is halved only where the payer is the executor itself; a token offer
/// is halved whoever pays.
pub open spec fn halves_balance(
    offer: AssetInfoView,
    sender: Seq<char>,
    executor: Seq<char>,
    half: Option<bool>,
) -> bool {
    half == Some(true) && (offer is Token || sender == executor)
}

/// The amount that is offered: the explicit amount where there is one, else
/// the balance or half of it, rounded down.
pub open spec fn offer_amount(
    offer: AssetInfoView,
    sender: Seq<char>,
    executor: Seq<char>,
    amount: Option<u128>,
    balance: u128,
    half: Option<bool>,
) -> u128 {
    match amount {
        Some(explicit) => explicit,
        None => if halves_balance(offer, sender, executor, half) {
            (balance / 2) as u128
        } else {
            balance
        },
    }
}

/// The balance that has to be looked up before an offer can be resolved.
#[derive(Debug, Clone, PartialEq, Eq)]
pub enum BalanceQuery {
    /// The balance that `address` holds of the native denomination `denom`.
    Native { address: String, denom: String },
    /// The balance that `address` holds at the token contract `contract_addr`.
    Token { contract_addr: String, address: String },
}

/// The model of a [`BalanceQuery`].
pub enum BalanceQueryView {
    Native { address: Seq<char>, denom: Seq<char> },
    Token { contract_addr: Seq<char>, address: Seq<char> },
}

impl View for BalanceQuery {
    type V = BalanceQueryView;

    open spec fn view(&self) -> BalanceQueryView {
        match *self {
            BalanceQuery::Native { address, denom } => BalanceQueryView::Native {
                address: address@,
                denom: denom@,
            },
            BalanceQuery::Token { contract_addr, address } => BalanceQueryView::Token {
                contract_addr: contract_addr@,
                address: address@,
            },
        }
    }
}

/// The lookup that an offer of the given asset needs: for a native token the
/// executor's balance, for a contract token the payer's.
pub open spec fn balance_query_for(
    offer: AssetInfoView,
    sender: Seq<char>,
    executor: Seq<char>,
) -> BalanceQueryView {
    match offer {
        AssetInfoView::NativeToken { denom } => BalanceQueryView::Native {
            address: executor,
            denom,
        },
        AssetInfoView::Token { contract_addr } => BalanceQueryView::Token {
            contract_addr,
            address: sender,
        },
    }
}

/// The instructions that offer `amount` of the asset to the router.
///
/// A native token travels as funds attached to the router's invocation. A
/// contract token is first moved from the payer to the executor, unless they
/// are the same, and then sent to the router by the token contract, with the
/// swap request embedded; neither instruction attaches funds.
pub open spec fn swap_instructions(
    router: Seq<char>,
    offer: AssetInfoView,
    sender: Seq<char>,
    executor: Seq<char>,
    amount: u128,
    operations: Seq<SwapOperationView>,
    minimum_receive: Option<u128>,
    to: Option<Seq<char>>,
) -> Seq<InstructionView> {
    match offer {
        AssetInfoView::NativeToken { denom } => seq![
            InstructionView::WasmExecute {
                contract_addr: router,
                msg: PayloadView::ExecuteSwapOperations { operations, minimum_receive, to },
                funds: seq![CoinView { denom, amount }],
            },
        ],
        AssetInfoView::Token { contract_addr } => {
            let send = InstructionView::WasmExecute {
                contract_addr,
                msg: PayloadView::Send {
                    contract: router,
                    amount,
                    operations,
                    minimum_receive,
                    to,
                },
                funds: Seq::<CoinView>::empty(),
            };
            let transfer = InstructionView::WasmExecute {
                contract_addr,
                msg: PayloadView::TransferFrom { owner: sender, recipient: executor, amount },
                funds: Seq::<CoinView>::empty(),
            };
            if sender != executor {
                seq![transfer, send]
            } else {
                seq![send]
            }
        },
    }
}

/// Accepts a list of swap steps that holds at least one step and rejects an
/// empty one as malformed. Nothing else is looked at, so the answer can be had
/// before the configuration or any balance is.
pub fn check_operations(operations: &Vec<SwapOperation>) -> (r: Result<(), ContractError>)
    ensures
        operations@.len() > 0 ==> r is Ok,
        operations@.len() == 0 ==> r is Err && r->Err_0.is_invalid_input(empty_operations_text()),
{
    if operations.len() == 0 {
        Err(ContractError::InvalidInput("swap operations is empty".to_string()))
    } else {
        Ok(())
    }
}

/// Says which balance has to be looked up before the swap instructions can be
/// built: none where the list of steps is empty or the amount is explicit,
/// else the one that the first step's offer asset calls for.
pub fn balance_query(
    executor_addr: &String,
    sender: &String,
    amount: Option<u128>,
    operations: &Vec<SwapOperation>,
) -> (r: Option<BalanceQuery>)
    ensures
        (operations@.len() == 0 || amount is Some) ==> r is None,
        (operations@.len() > 0 && amount is None) ==> r is Some && r->Some_0@ == balance_query_for(
            operations@[0]@.offer,
            sender@,
            executor_addr@,
        ),
{
    if operations.len() == 0 || amount.is_some() {
        return None;
    }
    match operations[0].get_offer_asset_info() {
        AssetInfo::NativeToken { denom } => Some(
            BalanceQuery::Native { address: executor_addr.clone(), denom },
        ),
        AssetInfo::Token { contract_addr } => Some(
            BalanceQuery::Token { contract_addr, address: sender.clone() },
        ),
    }
}

/// Resolves the amount to offer from the explicit amount, if any, or from the
/// balance that was looked up.
pub fn resolve_offer_amount(
    offer: &AssetInfo,
    sender: &String,
    executor_addr: &String,
    amount: Option<u128>,
    balance: u128,
    half: Option<bool>,
) -> (r: u128)
    ensures
        r == offer_amount(offer@, sender@, executor_addr@, amount, balance, half),
        amount is None ==> r <= balance,
{
    match amount {
        Some(explicit) => explicit,
        None => {
            let wanted = match half {
                Some(flag) => flag,
                None => false,
            };
            let halved = wanted && (!offer.is_native_token() || *sender == *executor_addr);
            if halved {
                half_amount(balance)
            } else {
                balance
            }
        },
    }
}

/// Builds the instructions that offer the first step's asset to the router.
///
/// `balance` is the outcome of the lookup that [`balance_query`] asks for; it
/// is read only where `amount` is `None`. An empty list of steps is rejected
/// before anything else, a failed lookup is handed on as it came, and
/// otherwise the instructions are exactly [`swap_instructions`] for the
/// resolved amount, with the steps, the floor and the recipient as given.
pub fn query_swap_operations_msg(
    config: &Config,
    executor_addr: &String,
    sender: &String,
    amount: Option<u128>,
    balance: Result<u128, StdError>,
    operations: Vec<SwapOperation>,
    minimum_receive: Option<u128>,
    to: Option<String>,
    half: Option<bool>,
) -> (r: Result<Vec<Instruction>, ContractError>)
    ensures
        operations@.len() == 0 ==> r is Err && r->Err_0.is_invalid_input(empty_operations_text()),
        (operations@.len() > 0 && amount is None && balance is Err) ==> r == Err::<
            Vec<Instruction>,
            ContractError,
        >(ContractError::Std(balance->Err_0)),
        (operations@.len() > 0 && (amount is Some || balance is Ok)) ==> r is Ok
            && instructions_view(r->Ok_0@) == swap_instructions(
            config@.oraiswap_router,
            operations@[0]@.offer,
            sender@,
            executor_addr@,
            offer_amount(
                operations@[0]@.offer,
                sender@,
                executor_addr@,
                amount,
                if balance is Ok {
                    balance->Ok_0
                } else {
                    0
                },
                half,
            ),
            operations_view(operations@),
            minimum_receive,
            text_view(to),
        ),
{
    match check_operations(&operations) {
        Ok(()) => {},
        Err(e) => {
            return Err(e);
        },
    }
    let offer_asset = operations[0].get_offer_asset_info();
    let amount: u128 = match amount {
        Some(explicit) => explicit,
        None => match balance {
            Ok(held) => resolve_offer_amount(&offer_asset, sender, executor_addr, None, held, half),
            Err(e) => {
                return Err(ContractError::Std(e));
            },
        },
    };
    let ghost steps = operations_view(operations@);
    let ghost recipient = text_view(to);
    let mut messages: Vec<Instruction> = Vec::new();
    match offer_asset {
        AssetInfo::NativeToken { denom } => {
            messages.push(
                wasm_execute(
                    config.oraiswap_router.clone(),
                    Payload::ExecuteSwapOperations { operations, minimum_receive, to },
                    single_coin(denom, amount),
                ),
            );
        },
        AssetInfo::Token { contract_addr } => {
            if !(*sender == *executor_addr) {
                messages.push(
                    wasm_execute(
                        contract_addr.clone(),
                        Payload::TransferFrom {
                            owner: sender.clone(),
                            recipient: executor_addr.clone(),
                            amount,
                        },
                        no_coins(),
                    ),
                );
            }
            messages.push(
                wasm_execute(
                    contract_addr,
                    Payload::Send {
                        contract: config.oraiswap_router.clone(),
                        amount,
                        operations,
                        minimum_receive,
                        to,
                    },
                    no_coins(),
                ),
            );
        },
    }
    assert(instructions_view(messages@) =~= swap_instructions(
        config@.oraiswap_router,
        offer_asset@,
        sender@,
        executor_addr@,
        amount,
        steps,
        minimum_receive,
        recipient,
    ));
    Ok(messages)
}

/// Where half of the balance is asked for and no amount is given, a token
/// offer is half of the balance, rounded down, whoever pays, and a native
/// offer is so where the payer is the executor; the half is never more than
/// the balance.
pub proof fn half_resolution_floors(
    offer: AssetInfoView,
    sender: Seq<char>,
    executor: Seq<char>,
    balance: u128,
)
    requires
        offer is Token || sender == executor,
    ensures
        offer_amount(offer, sender, executor, None, balance, Some(true)) == balance / 2,
        2 * offer_amount(offer, sender, executor, None, balance, Some(true)) <= balance,
        balance < 2 * offer_amount(offer, sender, executor, None, balance, Some(true)) + 2,
{
}

/// A native offer by a payer other than the executor is the whole balance,
/// even where half of it is asked for; so is every offer where it is not.
pub proof fn whole_balance_otherwise(
    offer: AssetInfoView,
    sender: Seq<char>,
    executor: Seq<char>,
    balance: u128,
    half: Option<bool>,
)
    requires
        half != Some(true) || (offer is NativeToken && sender != executor),
    ensures
        offer_amount(offer, sender, executor, None, balance, half) == balance,
{
}

/// An explicit amount is offered as it is, whatever the balance.
pub proof fn explicit_amount_wins(
    offer: AssetInfoView,
    sender: Seq<char>,
    executor: Seq<char>,
    explicit: u128,
    balance: u128,
    half: Option<bool>,
)
    ensures
        offer_amount(offer, sender, executor, Some(explicit), balance, half) == explicit,
{
}

/// The instructions of an offer come in the order in which they must run:
/// a native offer is one invocation of the router with the amount attached;
/// a token offer ends with the token contract's send to the router, preceded
/// by the transfer from the payer exactly where the payer is not the
/// executor. Every instruction carries the resolved amount.
pub proof fn swap_instructions_are_ordered(
    router: Seq<char>,
    offer: AssetInfoView,
    sender: Seq<char>,
    executor: Seq<char>,
    amount: u128,
    operations: Seq<SwapOperationView>,
    minimum_receive: Option<u128>,
    to: Option<Seq<char>>,
)
    ensures
        ({
            let list = swap_instructions(
                router,
                offer,
                sender,
                executor,
                amount,
                operations,
                minimum_receive,
                to,
            );
            &&& forall|i: int| 0 <= i < list.len() ==> #[trigger] list[i] is WasmExecute
            &&& offer is NativeToken ==> list.len() == 1 && list[0]->contract_addr == router
                && list[0]->funds == seq![CoinView { denom: offer->denom, amount }]
                && list[0]->msg is ExecuteSwapOperations
            &&& offer is Token ==> list.len() == (if sender == executor {
                1nat
            } else {
                2nat
            }) && list.last()->msg is Send && list.last()->msg->Send_amount == amount
                && list.last()->msg->Send_contract == router && list.last()->contract_addr
                == offer->contract_addr && list.last()->funds.len() == 0
            &&& (offer is Token && sender != executor) ==> list[0]->msg
                == (PayloadView::TransferFrom { owner: sender, recipient: executor, amount })
                && list[0]->contract_addr == offer->contract_addr && list[0]->funds.len() == 0
        }),
{
}

} // verus!
