//! The hedge decision: from the account's delta to the trade that offsets it.

use crate::bybit::{AssetInfo, List, Response};
use crate::decimal::{magnitude, parsed_decimal, pow10, Decimal, DecimalValue};
use vstd::prelude::*;

verus! {

/// The number of digits after the decimal point that a hedge is rounded to.
pub const HEDGE_PLACES: u32 = 3;

/// A trade that offsets the delta. The quantity is the size of the trade and
/// is above zero.
#[derive(Debug, Clone, Copy)]
pub enum Action {
    Buy(Decimal),
    Sell(Decimal),
}

/// Why the account's delta could not be read.
#[derive(Debug, Clone, Copy, PartialEq, Eq, Structural)]
pub enum DeltaError {
    /// The exchange listed no asset.
    NoAssets,
    /// The delta of the first asset is no decimal number.
    UnreadableDelta,
}

/// What is decided for a delta.
pub enum Decision {
    Buy(DecimalValue),
    Sell(DecimalValue),
    Nothing,
}

/// The amount that offsets `delta`: the delta rounded to three digits after
/// the point, a tie going away from zero, with the opposite sign.
pub open spec fn hedging_amount(delta: DecimalValue) -> DecimalValue {
    delta.rounded(HEDGE_PLACES as nat).negated()
}

/// The decision for `delta`: buy the hedging amount where it is above zero,
/// sell its size where it is below zero, and do nothing where it is zero.
pub open spec fn decision(delta: DecimalValue) -> Decision {
    let amount = hedging_amount(delta);
    if amount.mantissa > 0 {
        Decision::Buy(amount)
    } else if amount.mantissa < 0 {
        Decision::Sell(amount.negated())
    } else {
        Decision::Nothing
    }
}

/// What an optional action stands for.
pub open spec fn decision_of(action: Option<Action>) -> Decision {
    match action {
        Some(Action::Buy(quantity)) => Decision::Buy(quantity@),
        Some(Action::Sell(quantity)) => Decision::Sell(quantity@),
        None => Decision::Nothing,
    }
}

impl Action {
    /// The side of the trade as the exchange names it: `Buy` or `Sell`.
    pub fn side(&self) -> (name: &'static str)
        ensures
            name@ == (if self is Buy {
                "Buy"@
            } else {
                "Sell"@
            }),
    {
        match self {
            Action::Buy(_) => "Buy",
            Action::Sell(_) => "Sell",
        }
    }

    /// The size of the trade.
    pub fn quantity(&self) -> (quantity: Decimal)
        ensures
            quantity@ == (match *self {
                Action::Buy(size) => size@,
                Action::Sell(size) => size@,
            }),
    {
        match self {
            Action::Buy(quantity) => *quantity,
            Action::Sell(quantity) => *quantity,
        }
    }
}

/// Decides the trade that offsets `delta`, or `None` where the delta rounds
/// to zero.
pub fn decide_action(delta: Decimal) -> (action: Option<Action>)
    ensures
        decision_of(action) == decision(delta@),
{
    let hedging_amount = delta.round_dp(HEDGE_PLACES).negate();
    if hedging_amount.is_zero() {
        None
    } else if hedging_amount.is_negative() {
        Some(Action::Sell(hedging_amount.negate()))
    } else {
        Some(Action::Buy(hedging_amount))
    }
}

/// The account's delta: that of the first asset in the list, and of no other.
/// An empty list and a delta that is no decimal number are errors.
pub fn get_current_delta(response: &Response<List<AssetInfo>>) -> (delta: Result<
    Decimal,
    DeltaError,
>)
    ensures
        match delta {
            Ok(d) => response.result.data_list@.len() > 0 && parsed_decimal(
                response.result.data_list@[0].total_delta@,
            ) == Some((d@.mantissa, d@.scale)),
            Err(DeltaError::NoAssets) => response.result.data_list@.len() == 0,
            Err(DeltaError::UnreadableDelta) => response.result.data_list@.len() > 0
                && parsed_decimal(response.result.data_list@[0].total_delta@) is None,
        },
{
    if response.result.data_list.len() == 0 {
        return Err(DeltaError::NoAssets);
    }
    match Decimal::parse(response.result.data_list[0].total_delta.as_str()) {
        Some(d) => Ok(d),
        None => Err(DeltaError::UnreadableDelta),
    }
}

/// A delta that rounds to less than one thousandth in size calls for no
/// trade.
pub proof fn lemma_no_action_when_rounded_to_zero(delta: DecimalValue)
    requires
        magnitude(delta.rounded(3).mantissa) * 1000 < pow10(delta.rounded(3).scale),
    ensures
        delta.rounded(3).mantissa == 0,
        decision(delta) == Decision::Nothing,
{
    let r = delta.rounded(3);
    assert(r.scale <= 3);
    assert(pow10(r.scale) <= 1000) by {
        reveal_with_fuel(pow10, 5);
    }
}

/// A delta that rounds to exactly zero calls for no trade, and no other delta
/// does.
pub proof fn lemma_no_action_iff_zero(delta: DecimalValue)
    ensures
        decision(delta) == Decision::Nothing <==> delta.rounded(3).mantissa == 0,
{
}

/// A delta that rounds below zero is bought back, one that rounds above zero
/// is sold, each in the size of the rounded delta.
pub proof fn lemma_action_offsets_delta(delta: DecimalValue)
    ensures
        delta.rounded(3).mantissa < 0 ==> decision(delta) == Decision::Buy(
            delta.rounded(3).negated(),
        ),
        delta.rounded(3).mantissa > 0 ==> decision(delta) == Decision::Sell(delta.rounded(3)),
{
    let r = delta.rounded(3);
    assert(r.negated().negated() == r);
}

/// The quantity of a trade is above zero and has no more than three digits
/// after the point, unless the delta itself had fewer.
pub proof fn lemma_quantity_positive(delta: DecimalValue)
    ensures
        match decision(delta) {
            Decision::Buy(q) => q.mantissa > 0 && q.scale <= 3 && q.scale <= delta.scale,
            Decision::Sell(q) => q.mantissa > 0 && q.scale <= 3 && q.scale <= delta.scale,
            Decision::Nothing => true,
        },
{
}

} // verus!
