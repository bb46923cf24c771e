//! Single instructions for the ticket-issuing contract and for token contracts.

use vstd::prelude::*;
use crate::asset::CoinView;
use crate::instruction::{no_coins, wasm_execute, Instruction, InstructionView, Payload, PayloadView};

verus! {

/// An invocation of the ticket-issuing contract's "buy ticket" entrypoint
/// with no funds attached.
pub fn buy_ticket_msg(lottery_contract: String) -> (r: Instruction)
    ensures
        r@ == (InstructionView::WasmExecute {
            contract_addr: lottery_contract@,
            msg: PayloadView::BuyTicket,
            funds: Seq::<CoinView>::empty(),
        }),
{
    wasm_execute(lottery_contract, Payload::BuyTicket, no_coins())
}

/// An invocation of a token contract's "transfer": `amount` tokens of the
/// invoker go to `recipient`. No funds are attached.
pub fn transfer_token_msg(token_contract: String, recipient: String, amount: u128) -> (r:
    Instruction)
    ensures
        r@ == (InstructionView::WasmExecute {
            contract_addr: token_contract@,
            msg: PayloadView::Transfer { recipient: recipient@, amount },
            funds: Seq::<CoinView>::empty(),
        }),
{
    wasm_execute(token_contract, Payload::Transfer { recipient, amount }, no_coins())
}

} // verus!
