use cosmwasm_std::StdError;
use swap_ticket::amount::{half_amount, MAX_RATIO_BALANCE};
use swap_ticket::asset::{AssetInfo, Coin, SwapOperation};
use swap_ticket::error::ContractError;
use swap_ticket::helpers::{buy_ticket_msg, transfer_token_msg};
use swap_ticket::instruction::{Instruction, Payload};
use swap_ticket::state::Config;
use swap_ticket::swap::{
    balance_query, check_operations, query_swap_operations_msg, resolve_offer_amount, BalanceQuery,
};

fn config() -> Config {
    Config {
        owner: "owner".to_string(),
        lottery_contract: "lottery".to_string(),
        oraiswap_router: "router".to_string(),
    }
}

fn native() -> AssetInfo {
    AssetInfo::NativeToken { denom: "orai".to_string() }
}

fn token() -> AssetInfo {
    AssetInfo::Token { contract_addr: "cw20".to_string() }
}

fn native_first() -> Vec<SwapOperation> {
    vec![SwapOperation::OraiSwap { offer_asset_info: native(), ask_asset_info: token() }]
}

fn token_first() -> Vec<SwapOperation> {
    vec![
        SwapOperation::OraiSwap { offer_asset_info: token(), ask_asset_info: native() },
        SwapOperation::OraiSwap { offer_asset_info: native(), ask_asset_info: token() },
    ]
}

fn build(
    executor: &str,
    sender: &str,
    amount: Option<u128>,
    balance: Result<u128, StdError>,
    operations: Vec<SwapOperation>,
    half: Option<bool>,
) -> Result<Vec<Instruction>, ContractError> {
    query_swap_operations_msg(
        &config(),
        &executor.to_string(),
        &sender.to_string(),
        amount,
        balance,
        operations,
        Some(5),
        Some("receiver".to_string()),
        half,
    )
}

fn native_swap(amount: u128) -> Instruction {
    Instruction::WasmExecute {
        contract_addr: "router".to_string(),
        msg: Payload::ExecuteSwapOperations {
            operations: native_first(),
            minimum_receive: Some(5),
            to: Some("receiver".to_string()),
        },
        funds: vec![Coin { denom: "orai".to_string(), amount }],
    }
}

fn token_send(amount: u128) -> Instruction {
    Instruction::WasmExecute {
        contract_addr: "cw20".to_string(),
        msg: Payload::Send {
            contract: "router".to_string(),
            amount,
            operations: token_first(),
            minimum_receive: Some(5),
            to: Some("receiver".to_string()),
        },
        funds: vec![],
    }
}

fn token_transfer_from(owner: &str, recipient: &str, amount: u128) -> Instruction {
    Instruction::WasmExecute {
        contract_addr: "cw20".to_string(),
        msg: Payload::TransferFrom {
            owner: owner.to_string(),
            recipient: recipient.to_string(),
            amount,
        },
        funds: vec![],
    }
}

#[test]
fn empty_operations_are_rejected() {
    let res = build("exec", "payer", Some(10), Ok(0), vec![], None);
    assert_eq!(res, Err(ContractError::InvalidInput("swap operations is empty".to_string())));
    let res = build("exec", "payer", None, Err(StdError::generic_err("x")), vec![], Some(true));
    assert_eq!(res, Err(ContractError::InvalidInput("swap operations is empty".to_string())));
    assert_eq!(res.unwrap_err().message(), "InvalidInput: swap operations is empty");
}

#[test]
fn empty_operations_with_explicit_amount() {
    let res = query_swap_operations_msg(
        &Config {
            owner: "owner".to_string(),
            lottery_contract: "lottery".to_string(),
            oraiswap_router: "router".to_string(),
        },
        &"contract".to_string(),
        &"buyer".to_string(),
        Some(100),
        Ok(0),
        vec![],
        None,
        None,
        None,
    );
    assert_ne!(res, Ok(vec![]));
    match res {
        Err(ContractError::InvalidInput(text)) => assert_eq!(text, "swap operations is empty"),
        _ => panic!("an empty list must be rejected as invalid input"),
    }
}

#[test]
fn operations_are_checked_alone() {
    assert_eq!(
        check_operations(&vec![]),
        Err(ContractError::InvalidInput("swap operations is empty".to_string()))
    );
    assert_eq!(check_operations(&native_first()), Ok(()));
    assert_eq!(check_operations(&token_first()), Ok(()));
}

#[test]
fn native_offer_with_explicit_amount() {
    let res = build("exec", "payer", Some(10), Ok(999), native_first(), Some(true));
    assert_eq!(res, Ok(vec![native_swap(10)]));
}

#[test]
fn native_offer_of_whole_balance() {
    assert_eq!(build("exec", "payer", None, Ok(999), native_first(), None), Ok(vec![native_swap(999)]));
    assert_eq!(
        build("exec", "exec", None, Ok(999), native_first(), Some(false)),
        Ok(vec![native_swap(999)])
    );
}

#[test]
fn native_offer_halves_only_for_the_executor() {
    assert_eq!(
        build("exec", "exec", None, Ok(999), native_first(), Some(true)),
        Ok(vec![native_swap(499)])
    );
    assert_eq!(
        build("exec", "payer", None, Ok(999), native_first(), Some(true)),
        Ok(vec![native_swap(999)])
    );
}

#[test]
fn token_offer_from_another_payer_is_moved_first() {
    let res = build("exec", "payer", Some(30), Ok(0), token_first(), None);
    assert_eq!(res, Ok(vec![token_transfer_from("payer", "exec", 30), token_send(30)]));
}

#[test]
fn token_offer_by_the_executor_is_sent_directly() {
    let res = build("exec", "exec", Some(30), Ok(0), token_first(), None);
    assert_eq!(res, Ok(vec![token_send(30)]));
}

#[test]
fn token_offer_halves_whoever_pays() {
    assert_eq!(
        build("exec", "payer", None, Ok(7), token_first(), Some(true)),
        Ok(vec![token_transfer_from("payer", "exec", 3), token_send(3)])
    );
    assert_eq!(build("exec", "exec", None, Ok(7), token_first(), Some(true)), Ok(vec![token_send(3)]));
    assert_eq!(build("exec", "exec", None, Ok(7), token_first(), None), Ok(vec![token_send(7)]));
}

#[test]
fn failed_balance_lookup_is_handed_on() {
    let res = build("exec", "payer", None, Err(StdError::generic_err("down")), native_first(), None);
    assert_eq!(res, Err(ContractError::Std(StdError::generic_err("down"))));
    let res = build("exec", "payer", Some(4), Err(StdError::generic_err("down")), native_first(), None);
    assert_eq!(res, Ok(vec![native_swap(4)]));
}

#[test]
fn absent_floor_and_recipient_are_kept_absent() {
    let res = query_swap_operations_msg(
        &config(),
        &"exec".to_string(),
        &"exec".to_string(),
        Some(1),
        Ok(0),
        native_first(),
        None,
        None,
        None,
    );
    assert_eq!(
        res,
        Ok(vec![Instruction::WasmExecute {
            contract_addr: "router".to_string(),
            msg: Payload::ExecuteSwapOperations {
                operations: native_first(),
                minimum_receive: None,
                to: None,
            },
            funds: vec![Coin { denom: "orai".to_string(), amount: 1 }],
        }])
    );
}

#[test]
fn half_is_floored() {
    assert_eq!(half_amount(0), 0);
    assert_eq!(half_amount(1), 0);
    assert_eq!(half_amount(2), 1);
    assert_eq!(half_amount(3), 1);
    assert_eq!(half_amount(1_000_000_000_000_000_001), 500_000_000_000_000_000);
    assert_eq!(half_amount(MAX_RATIO_BALANCE), MAX_RATIO_BALANCE / 2);
    assert_eq!(half_amount(MAX_RATIO_BALANCE - 1), (MAX_RATIO_BALANCE - 1) / 2);
    assert_eq!(half_amount(MAX_RATIO_BALANCE + 1), (MAX_RATIO_BALANCE + 1) / 2);
    assert_eq!(half_amount(u128::MAX), u128::MAX / 2);
}

#[test]
fn resolved_amounts() {
    let a = "a".to_string();
    let b = "b".to_string();
    assert_eq!(resolve_offer_amount(&native(), &a, &b, Some(9), 100, Some(true)), 9);
    assert_eq!(resolve_offer_amount(&native(), &a, &a, None, 101, Some(true)), 50);
    assert_eq!(resolve_offer_amount(&native(), &a, &b, None, 101, Some(true)), 101);
    assert_eq!(resolve_offer_amount(&token(), &a, &b, None, 101, Some(true)), 50);
    assert_eq!(resolve_offer_amount(&token(), &a, &a, None, 101, Some(false)), 101);
    assert_eq!(resolve_offer_amount(&token(), &a, &a, None, 101, None), 101);
}

#[test]
fn balance_to_look_up() {
    let exec = "exec".to_string();
    let payer = "payer".to_string();
    assert_eq!(balance_query(&exec, &payer, Some(1), &native_first()), None);
    assert_eq!(balance_query(&exec, &payer, None, &vec![]), None);
    assert_eq!(
        balance_query(&exec, &payer, None, &native_first()),
        Some(BalanceQuery::Native { address: "exec".to_string(), denom: "orai".to_string() })
    );
    assert_eq!(
        balance_query(&exec, &payer, None, &token_first()),
        Some(BalanceQuery::Token { contract_addr: "cw20".to_string(), address: "payer".to_string() })
    );
}

#[test]
fn offer_asset_of_a_step() {
    assert_eq!(native_first()[0].get_offer_asset_info(), native());
    assert_eq!(token_first()[0].get_offer_asset_info(), token());
    assert!(native().is_native_token());
    assert!(!token().is_native_token());
}

#[test]
fn helper_instructions() {
    assert_eq!(
        buy_ticket_msg("lottery".to_string()),
        Instruction::WasmExecute {
            contract_addr: "lottery".to_string(),
            msg: Payload::BuyTicket,
            funds: vec![],
        }
    );
    assert_eq!(
        transfer_token_msg("cw20".to_string(), "friend".to_string(), 12),
        Instruction::WasmExecute {
            contract_addr: "cw20".to_string(),
            msg: Payload::Transfer { recipient: "friend".to_string(), amount: 12 },
            funds: vec![],
        }
    );
}
