//! Amount arithmetic: halving a balance and rendering an amount as text.

use vstd::prelude::*;

verus! {

/// The largest balance whose half the fixed-point ratio can represent:
/// beyond it the ratio's eighteen fractional digits leave 128 bits.
pub const MAX_RATIO_BALANCE: u128 = 680_564_733_841_876_926_926u128;

/// The character of a decimal digit.
pub open spec fn digit_char(digit: nat) -> char
    recommends
        digit < 10,
{
    seq!['0', '1', '2', '3', '4', '5', '6', '7', '8', '9'][digit as int]
}

/// The decimal text of a number: its digits from the most significant one,
/// without leading zeros, and `0` for zero.
pub open spec fn decimal_text(number: nat) -> Seq<char>
    decreases number,
{
    if number < 10 {
        seq![digit_char(number)]
    } else {
        decimal_text(number / 10).push(digit_char(number % 10))
    }
}

/// Calls `cosmwasm_std::Decimal::from_ratio(balance, 2)` and multiplies the
/// ratio by `Uint128::one()`. The ratio is `balance * 10^18 / 2` in atomic
/// units, which must fit in 128 bits (the call panics otherwise); the product
/// divides the units by `10^18` again and floors, which gives half the
/// balance, rounded down.
#[verifier::external_body]
fn ratio_half(balance: u128) -> (r: u128)
    requires
        balance <= MAX_RATIO_BALANCE,
    ensures
        r == balance / 2,
{
    let ratio = cosmwasm_std::Decimal::from_ratio(cosmwasm_std::Uint128::new(balance), 2u128);
    (ratio * cosmwasm_std::Uint128::one()).u128()
}

/// Calls `to_string` on a `cosmwasm_std::Uint128`, whose `Display` hands the
/// number to that of `u128`: the text is the number in decimal.
#[verifier::external_body]
pub(crate) fn uint128_to_string(amount: u128) -> (r: String)
    ensures
        r@ == decimal_text(amount as nat),
{
    cosmwasm_std::Uint128::new(amount).to_string()
}

/// Half of a balance, truncated to the smallest unit.
pub fn half_amount(balance: u128) -> (r: u128)
    ensures
        r == balance / 2,
        2 * r <= balance,
        balance - 2 * r <= 1,
{
    if balance <= MAX_RATIO_BALANCE {
        ratio_half(balance)
    } else {
        balance / 2
    }
}

} // verus!
