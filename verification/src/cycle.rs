//! The hedging cycle: read the delta, trade it away if it calls for a trade,
//! read the delta again once the trade is filled, and rest until the next
//! check.
//!
//! The cycle is a function from a stage and what has just happened to the
//! next stage and what to do. Doing it is the caller's part.

use crate::decimal::{Decimal, DecimalValue};
use crate::hedge::{decide_action, decision, decision_of, Action, Decision};
use vstd::prelude::*;

verus! {

/// Where the cycle stands.
#[derive(Debug, Clone, Copy, PartialEq, Eq, Structural)]
pub enum CycleStage {
    /// The delta is being read at the start of a cycle.
    Checking,
    /// An order is out and not yet filled.
    Trading,
    /// The delta is being read again after a fill.
    Confirming,
    /// Nothing is to be done until the next check.
    Resting,
}

/// What has just happened.
#[derive(Debug, Clone, Copy)]
pub enum CycleEvent {
    /// The account's delta was read.
    Delta(Decimal),
    /// The order was reported filled.
    Filled,
    /// The time of the next check has come.
    Woke,
}

/// What to do next.
#[derive(Debug, Clone, Copy)]
pub enum CycleCommand {
    /// Read the account's delta.
    ReadDelta,
    /// Place this trade and wait until it is filled.
    Trade(Action),
    /// Sleep until the next check.
    Sleep,
}

/// What an event stands for.
pub enum Happening {
    Delta(DecimalValue),
    Filled,
    Woke,
}

/// What a command stands for.
pub enum Plan {
    ReadDelta,
    Trade(Decision),
    Sleep,
}

impl CycleEvent {
    /// What the event stands for.
    pub open spec fn happening(self) -> Happening {
        match self {
            CycleEvent::Delta(delta) => Happening::Delta(delta@),
            CycleEvent::Filled => Happening::Filled,
            CycleEvent::Woke => Happening::Woke,
        }
    }
}

impl CycleCommand {
    /// What the command stands for.
    pub open spec fn plan(self) -> Plan {
        match self {
            CycleCommand::ReadDelta => Plan::ReadDelta,
            CycleCommand::Trade(action) => Plan::Trade(decision_of(Some(action))),
            CycleCommand::Sleep => Plan::Sleep,
        }
    }
}

/// The step that `event` causes in `stage`, or `None` where the event has no
/// place in that stage.
///
/// A delta read at the start of a cycle leads to the trade that it calls
/// for, or to rest where it calls for none. A fill leads to a second reading
/// of the delta, and that reading, whatever it shows, to rest. Waking leads
/// to the next cycle.
pub open spec fn step_of(stage: CycleStage, event: Happening) -> Option<(CycleStage, Plan)> {
    match (stage, event) {
        (CycleStage::Checking, Happening::Delta(delta)) => match decision(delta) {
            Decision::Nothing => Some((CycleStage::Resting, Plan::Sleep)),
            trade => Some((CycleStage::Trading, Plan::Trade(trade))),
        },
        (CycleStage::Trading, Happening::Filled) => Some((CycleStage::Confirming, Plan::ReadDelta)),
        (CycleStage::Confirming, Happening::Delta(_)) => Some((CycleStage::Resting, Plan::Sleep)),
        (CycleStage::Resting, Happening::Woke) => Some((CycleStage::Checking, Plan::ReadDelta)),
        _ => None,
    }
}

/// What a step stands for.
pub open spec fn step_view(step: Option<(CycleStage, CycleCommand)>) -> Option<(CycleStage, Plan)> {
    match step {
        Some((stage, command)) => Some((stage, command.plan())),
        None => None,
    }
}

/// The stage and the command that a run of cycles starts with: the delta is
/// read at once.
pub fn start_cycle() -> (first: (CycleStage, CycleCommand))
    ensures
        first.0 == CycleStage::Checking,
        first.1.plan() == Plan::ReadDelta,
{
    (CycleStage::Checking, CycleCommand::ReadDelta)
}

/// One step of the cycle: from a stage and what has just happened to the next
/// stage and what to do, or `None` where the event has no place in the stage.
pub fn cycle_step(stage: CycleStage, event: CycleEvent) -> (step: Option<(CycleStage, CycleCommand)>)
    ensures
        step_view(step) == step_of(stage, event.happening()),
{
    match stage {
        CycleStage::Checking => match event {
            CycleEvent::Delta(delta) => match decide_action(delta) {
                Some(action) => Some((CycleStage::Trading, CycleCommand::Trade(action))),
                None => Some((CycleStage::Resting, CycleCommand::Sleep)),
            },
            _ => None,
        },
        CycleStage::Trading => match event {
            CycleEvent::Filled => Some((CycleStage::Confirming, CycleCommand::ReadDelta)),
            _ => None,
        },
        CycleStage::Confirming => match event {
            CycleEvent::Delta(_) => Some((CycleStage::Resting, CycleCommand::Sleep)),
            _ => None,
        },
        CycleStage::Resting => match event {
            CycleEvent::Woke => Some((CycleStage::Checking, CycleCommand::ReadDelta)),
            _ => None,
        },
    }
}

/// A trade is planned only at the start of a cycle, only for a delta that
/// does not round to zero, and it is the trade that the delta calls for.
pub proof fn lemma_trade_only_when_called_for(stage: CycleStage, event: Happening)
    ensures
        match step_of(stage, event) {
            Some((next, Plan::Trade(trade))) => stage == CycleStage::Checking && next
                == CycleStage::Trading && event is Delta && trade == decision(event->Delta_0)
                && trade != Decision::Nothing,
            _ => true,
        },
{
}

/// Every cycle ends in rest: with no trade, after one reading of the delta;
/// with a trade, after the fill and a second reading.
pub proof fn lemma_cycle_ends_in_rest(first: DecimalValue, second: DecimalValue)
    ensures
        decision(first) == Decision::Nothing ==> step_of(
            CycleStage::Checking,
            Happening::Delta(first),
        ) == Some((CycleStage::Resting, Plan::Sleep)),
        decision(first) != Decision::Nothing ==> step_of(
            CycleStage::Checking,
            Happening::Delta(first),
        ) == Some((CycleStage::Trading, Plan::Trade(decision(first)))),
        step_of(CycleStage::Trading, Happening::Filled) == Some(
            (CycleStage::Confirming, Plan::ReadDelta),
        ),
        step_of(CycleStage::Confirming, Happening::Delta(second)) == Some(
            (CycleStage::Resting, Plan::Sleep),
        ),
        step_of(CycleStage::Resting, Happening::Woke) == Some(
            (CycleStage::Checking, Plan::ReadDelta),
        ),
{
}

/// Sleep is planned exactly on entering rest, and a reading of the delta
/// exactly on entering a stage that waits for one.
pub proof fn lemma_plan_fits_stage(stage: CycleStage, event: Happening)
    ensures
        match step_of(stage, event) {
            Some((next, plan)) => {
                &&& plan == Plan::Sleep <==> next == CycleStage::Resting
                &&& plan == Plan::ReadDelta <==> (next == CycleStage::Checking || next
                    == CycleStage::Confirming)
                &&& plan is Trade <==> next == CycleStage::Trading
            },
            None => true,
        },
{
}

} // verus!
