//! The messages that the contract's entrypoints take and answer with.

use vstd::prelude::*;
use crate::asset::SwapOperation;

verus! {

/// What the contract is deployed with.
#[derive(Debug, Clone, PartialEq, Eq)]
pub struct InstantiateMsgOperations {
    pub owner: String,
    pub lottery_contract: String,
    pub oraiswap_router: String,
}

/// What the contract can be asked to do.
#[derive(Debug, Clone, PartialEq, Eq)]
pub enum ExecuteMsgOperations {
    BuyTicket { amount: u128 },
}

/// What the contract can be asked about.
#[derive(Debug, Clone, PartialEq, Eq)]
pub enum QueryMsgOperations {
    Config {  },
}

/// The stored configuration, as text.
#[derive(Debug, Clone, PartialEq, Eq)]
pub struct ConfigResponse {
    pub owner: String,
    pub lottery_contract: String,
    pub oraiswap_router: String,
}

/// The two operations of the settlement routine, as requests.
#[derive(Debug, Clone, PartialEq, Eq)]
#[allow(inconsistent_fields)]
pub enum Operations {
    SwapOperations {
        executor_addr: String,
        sender: String,
        amount: Option<u128>,
        operations: Vec<SwapOperation>,
        minimum_receive: Option<u128>,
        to: Option<String>,
        half: Option<bool>,
    },
    BuyTicketOperations { amount: u128 },
}

} // verus!
