//! Outbound instructions: what the host runtime is asked to execute, in order.

use vstd::prelude::*;
use crate::asset::{
    coins_view, operations_view, text_view, Coin, CoinView, SwapOperation, SwapOperationView,
};

verus! {

/// What a contract invocation carries to the contract it invokes.
#[derive(Debug, Clone, PartialEq, Eq)]
pub enum Payload {
    /// The routing contract's "execute swap operations" entrypoint.
    ExecuteSwapOperations {
        operations: Vec<SwapOperation>,
        minimum_receive: Option<u128>,
        to: Option<String>,
    },
    /// A token contract's "transfer": tokens of the invoker go to `recipient`.
    Transfer { recipient: String, amount: u128 },
    /// A token contract's "transfer-from": tokens of `owner` go to `recipient`.
    TransferFrom { owner: String, recipient: String, amount: u128 },
    /// A token contract's "send": tokens go to `contract`, together with an
    /// embedded "execute swap operations" request.
    Send {
        contract: String,
        amount: u128,
        operations: Vec<SwapOperation>,
        minimum_receive: Option<u128>,
        to: Option<String>,
    },
    /// The ticket-issuing contract's "buy ticket" entrypoint.
    BuyTicket,
}

/// The model of a [`Payload`].
pub enum PayloadView {
    ExecuteSwapOperations {
        operations: Seq<SwapOperationView>,
        minimum_receive: Option<u128>,
        to: Option<Seq<char>>,
    },
    Transfer { recipient: Seq<char>, amount: u128 },
    TransferFrom { owner: Seq<char>, recipient: Seq<char>, amount: u128 },
    Send {
        contract: Seq<char>,
        amount: u128,
        operations: Seq<SwapOperationView>,
        minimum_receive: Option<u128>,
        to: Option<Seq<char>>,
    },
    BuyTicket,
}

impl View for Payload {
    type V = PayloadView;

    open spec fn view(&self) -> PayloadView {
        match *self {
            Payload::ExecuteSwapOperations { operations, minimum_receive, to } => {
                PayloadView::ExecuteSwapOperations {
                    operations: operations_view(operations@),
                    minimum_receive,
                    to: text_view(to),
                }
            },
            Payload::Transfer { recipient, amount } => PayloadView::Transfer {
                recipient: recipient@,
                amount,
            },
            Payload::TransferFrom { owner, recipient, amount } => PayloadView::TransferFrom {
                owner: owner@,
                recipient: recipient@,
                amount,
            },
            Payload::Send { contract, amount, operations, minimum_receive, to } => {
                PayloadView::Send {
                    contract: contract@,
                    amount,
                    operations: operations_view(operations@),
                    minimum_receive,
                    to: text_view(to),
                }
            },
            Payload::BuyTicket => PayloadView::BuyTicket,
        }
    }
}

/// One unit of execution handed to the host runtime.
#[derive(Debug, Clone, PartialEq, Eq)]
pub enum Instruction {
    /// A direct transfer of native tokens to an account.
    BankSend { to_address: String, amount: Vec<Coin> },
    /// An invocation of a contract, with a payload and attached native funds.
    WasmExecute { contract_addr: String, msg: Payload, funds: Vec<Coin> },
}

/// The model of an [`Instruction`].
pub enum InstructionView {
    BankSend { to_address: Seq<char>, amount: Seq<CoinView> },
    WasmExecute { contract_addr: Seq<char>, msg: PayloadView, funds: Seq<CoinView> },
}

impl View for Instruction {
    type V = InstructionView;

    open spec fn view(&self) -> InstructionView {
        match *self {
            Instruction::BankSend { to_address, amount } => InstructionView::BankSend {
                to_address: to_address@,
                amount: coins_view(amount@),
            },
            Instruction::WasmExecute { contract_addr, msg, funds } => {
                InstructionView::WasmExecute {
                    contract_addr: contract_addr@,
                    msg: msg@,
                    funds: coins_view(funds@),
                }
            },
        }
    }
}

/// The models of a sequence of instructions, in order.
pub open spec fn instructions_view(list: Seq<Instruction>) -> Seq<InstructionView> {
    list.map_values(|i: Instruction| i@)
}

/// A key and a value reported for observability.
#[derive(Debug, Clone, PartialEq, Eq)]
pub struct Attribute {
    pub key: String,
    pub value: String,
}

/// The model of an [`Attribute`].
pub struct AttributeView {
    pub key: Seq<char>,
    pub value: Seq<char>,
}

impl View for Attribute {
    type V = AttributeView;

    open spec fn view(&self) -> AttributeView {
        AttributeView { key: self.key@, value: self.value@ }
    }
}

/// What an entrypoint hands back: the instructions to execute, in order, and
/// the attributes that describe what was done.
#[derive(Debug, Clone, PartialEq, Eq)]
pub struct Response {
    pub messages: Vec<Instruction>,
    pub attributes: Vec<Attribute>,
}

/// The model of a [`Response`].
pub struct ResponseView {
    pub messages: Seq<InstructionView>,
    pub attributes: Seq<AttributeView>,
}

impl View for Response {
    type V = ResponseView;

    open spec fn view(&self) -> ResponseView {
        ResponseView {
            messages: instructions_view(self.messages@),
            attributes: self.attributes@.map_values(|a: Attribute| a@),
        }
    }
}

/// An invocation of a contract with the given payload and attached funds.
pub fn wasm_execute(contract_addr: String, msg: Payload, funds: Vec<Coin>) -> (r: Instruction)
    ensures
        r@ == (InstructionView::WasmExecute {
            contract_addr: contract_addr@,
            msg: msg@,
            funds: coins_view(funds@),
        }),
{
    Instruction::WasmExecute { contract_addr, msg, funds }
}

/// A list that holds one coin.
pub fn single_coin(denom: String, amount: u128) -> (r: Vec<Coin>)
    ensures
        coins_view(r@) == seq![CoinView { denom: denom@, amount }],
{
    let mut coins: Vec<Coin> = Vec::new();
    coins.push(Coin { denom, amount });
    assert(coins_view(coins@) =~= seq![CoinView { denom: denom@, amount }]);
    coins
}

/// A list that holds no coin.
pub fn no_coins() -> (r: Vec<Coin>)
    ensures
        coins_view(r@) == Seq::<CoinView>::empty(),
{
    let coins: Vec<Coin> = Vec::new();
    assert(coins_view(coins@) =~= Seq::<CoinView>::empty());
    coins
}

/// An attribute with the given key and value.
pub fn attribute(key: &str, value: String) -> (r: Attribute)
    ensures
        r@ == (AttributeView { key: key@, value: value@ }),
{
    Attribute { key: key.to_string(), value }
}

} // verus!
