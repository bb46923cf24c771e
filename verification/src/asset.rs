//! Asset descriptors, swap steps and coins, each with its mathematical view.

use vstd::prelude::*;

verus! {

/// Which kind of asset is meant: a native denomination or a token contract.
#[derive(Debug, Clone, PartialEq, Eq)]
pub enum AssetInfo {
    NativeToken { denom: String },
    Token { contract_addr: String },
}

/// The model of an [`AssetInfo`]: the same two shapes over character sequences.
pub enum AssetInfoView {
    NativeToken { denom: Seq<char> },
    Token { contract_addr: Seq<char> },
}

impl View for AssetInfo {
    type V = AssetInfoView;

    open spec fn view(&self) -> AssetInfoView {
        match *self {
            AssetInfo::NativeToken { denom } => AssetInfoView::NativeToken { denom: denom@ },
            AssetInfo::Token { contract_addr } => AssetInfoView::Token {
                contract_addr: contract_addr@,
            },
        }
    }
}

impl AssetInfo {
    /// A copy of the descriptor with the same model.
    pub fn duplicate(&self) -> (r: AssetInfo)
        ensures
            r@ == self@,
    {
        match self {
            AssetInfo::NativeToken { denom } => AssetInfo::NativeToken { denom: denom.clone() },
            AssetInfo::Token { contract_addr } => AssetInfo::Token {
                contract_addr: contract_addr.clone(),
            },
        }
    }

    /// Whether the descriptor names a native denomination.
    pub fn is_native_token(&self) -> (r: bool)
        ensures
            r == (self@ is NativeToken),
    {
        match self {
            AssetInfo::NativeToken { .. } => true,
            AssetInfo::Token { .. } => false,
        }
    }
}

/// One exchange leg: what is offered and what is asked for.
#[derive(Debug, Clone, PartialEq, Eq)]
pub enum SwapOperation {
    OraiSwap { offer_asset_info: AssetInfo, ask_asset_info: AssetInfo },
}

/// The model of a [`SwapOperation`].
pub struct SwapOperationView {
    pub offer: AssetInfoView,
    pub ask: AssetInfoView,
}

impl View for SwapOperation {
    type V = SwapOperationView;

    open spec fn view(&self) -> SwapOperationView {
        match *self {
            SwapOperation::OraiSwap { offer_asset_info, ask_asset_info } => SwapOperationView {
                offer: offer_asset_info@,
                ask: ask_asset_info@,
            },
        }
    }
}

impl SwapOperation {
    /// The asset that this leg offers.
    pub fn get_offer_asset_info(&self) -> (r: AssetInfo)
        ensures
            r@ == self@.offer,
    {
        match self {
            SwapOperation::OraiSwap { offer_asset_info, .. } => offer_asset_info.duplicate(),
        }
    }
}

/// The models of a sequence of swap steps, in order.
pub open spec fn operations_view(ops: Seq<SwapOperation>) -> Seq<SwapOperationView> {
    ops.map_values(|o: SwapOperation| o@)
}

/// An amount of a native denomination.
#[derive(Debug, Clone, PartialEq, Eq)]
pub struct Coin {
    pub denom: String,
    pub amount: u128,
}

/// The model of a [`Coin`].
pub struct CoinView {
    pub denom: Seq<char>,
    pub amount: u128,
}

impl View for Coin {
    type V = CoinView;

    open spec fn view(&self) -> CoinView {
        CoinView { denom: self.denom@, amount: self.amount }
    }
}

/// The models of a sequence of coins, in order.
pub open spec fn coins_view(coins: Seq<Coin>) -> Seq<CoinView> {
    coins.map_values(|c: Coin| c@)
}

/// The model of an optional text.
pub open spec fn text_view(text: Option<String>) -> Option<Seq<char>> {
    match text {
        Some(t) => Some(t@),
        None => None,
    }
}

} // verus!
