//! The configuration record: written once at deployment, read on every call.

use vstd::prelude::*;

verus! {

/// The three identities that the contract is deployed with.
#[derive(Debug, Clone, PartialEq, Eq)]
pub struct Config {
    pub owner: String,
    pub lottery_contract: String,
    pub oraiswap_router: String,
}

/// The model of a [`Config`].
pub struct ConfigView {
    pub owner: Seq<char>,
    pub lottery_contract: Seq<char>,
    pub oraiswap_router: Seq<char>,
}

impl View for Config {
    type V = ConfigView;

    open spec fn view(&self) -> ConfigView {
        ConfigView {
            owner: self.owner@,
            lottery_contract: self.lottery_contract@,
            oraiswap_router: self.oraiswap_router@,
        }
    }
}

} // verus!
