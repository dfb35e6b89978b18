//! The life of an order after it is placed: a first wait, then one query of
//! its status after another until the exchange reports it filled.

use crate::bybit::{
    order_query_body, Bybit, List, OrderInfo, OrderPlacingInfo, Response, SignedRequest,
    ORDER_HISTORY_URL,
};
use vstd::prelude::*;

verus! {

/// The status with which the exchange reports an order filled.
pub const FILLED: &'static str = "Filled";

/// The seconds to wait after placing an order before the first query.
pub const PROPAGATION_DELAY_SECS: u64 = 1;

/// The seconds to wait between one query and the next.
pub const POLL_DELAY_SECS: u64 = 5;

/// Where an order stands in its life.
#[derive(Debug, Clone, Copy, PartialEq, Eq, Structural)]
pub enum OrderPhase {
    /// The exchange has taken the order; nothing was asked of it yet.
    Placed,
    /// The order's status is being asked for.
    Polling,
    /// The exchange has reported the order filled.
    Filled,
}

/// An order that was placed: the identifier that the exchange gave it, and
/// where it stands.
#[derive(Debug, Clone)]
pub struct OrderState {
    pub order_id: String,
    pub phase: OrderPhase,
}

/// What to do next for an order.
#[derive(Debug, Clone, Copy, PartialEq, Eq, Structural)]
pub enum OrderStep {
    /// Wait for so many seconds, then ask for the order's status.
    PollAfter { seconds: u64 },
    /// Nothing more: the order is filled.
    Done,
}

/// The phase that follows `phase` once `status` was reported. A placed order
/// is polled whatever was reported; a polled order is filled on the status
/// `Filled` and polled again on any other; a filled order stays filled.
pub open spec fn next_phase(phase: OrderPhase, status: Option<Seq<char>>) -> OrderPhase {
    match phase {
        OrderPhase::Placed => OrderPhase::Polling,
        OrderPhase::Polling => if status == Some(FILLED@) {
            OrderPhase::Filled
        } else {
            OrderPhase::Polling
        },
        OrderPhase::Filled => OrderPhase::Filled,
    }
}

/// What is to be done on leaving `phase` with `status` reported: the first
/// query a second after the order was placed, each further query five seconds
/// after the last, and nothing once the order is filled.
pub open spec fn next_step(phase: OrderPhase, status: Option<Seq<char>>) -> OrderStep {
    match phase {
        OrderPhase::Placed => OrderStep::PollAfter { seconds: PROPAGATION_DELAY_SECS },
        OrderPhase::Polling => if status == Some(FILLED@) {
            OrderStep::Done
        } else {
            OrderStep::PollAfter { seconds: POLL_DELAY_SECS }
        },
        OrderPhase::Filled => OrderStep::Done,
    }
}

/// The phase of an order that was polled with the given statuses reported,
/// in that order.
pub open spec fn phase_after(statuses: Seq<Seq<char>>) -> OrderPhase
    decreases statuses.len(),
{
    if statuses.len() == 0 {
        OrderPhase::Polling
    } else {
        next_phase(phase_after(statuses.drop_last()), Some(statuses.last()))
    }
}

/// The view of an optional text.
pub open spec fn status_view(status: Option<&str>) -> Option<Seq<char>> {
    match status {
        Some(text) => Some(text@),
        None => None,
    }
}

/// Whether `status` is the status of a filled order.
fn is_filled(status: &str) -> (filled: bool)
    ensures
        filled == (status@ == FILLED@),
{
    let reported: String = status.to_owned();
    let filled: String = FILLED.to_owned();
    reported == filled
}

impl OrderState {
    /// The order that the exchange has just acknowledged: it holds the
    /// identifier that the answer gives, and nothing was asked of it yet.
    pub fn placed(response: &Response<OrderPlacingInfo>) -> (state: OrderState)
        ensures
            state.order_id@ == response.result.order_id@,
            state.phase == OrderPhase::Placed,
    {
        OrderState { order_id: response.result.order_id.clone(), phase: OrderPhase::Placed }
    }

    /// The query for this order's status, as of `timestamp`.
    pub fn status_request_at(&self, bybit: &Bybit, timestamp: u128) -> (request: SignedRequest)
        ensures
            bybit.is_request_for(request, order_query_body(self.order_id@), ORDER_HISTORY_URL@),
            request.timestamp == timestamp,
    {
        bybit.order_query_request(self.order_id.as_str(), timestamp)
    }

    /// The query for this order's status, stamped with the system clock's
    /// time, or `None` where the clock stands before the Unix epoch.
    pub fn status_request(&self, bybit: &Bybit) -> (request: Option<SignedRequest>)
        ensures
            request is Some ==> bybit.is_request_for(
                request.unwrap(),
                order_query_body(self.order_id@),
                ORDER_HISTORY_URL@,
            ),
    {
        bybit.query_perpetual_order(self.order_id.as_str())
    }
}

/// One step of an order's life: from its state, and the status that the last
/// query reported if there was one, to its next state and what to do next.
/// The order stays the same order.
pub fn order_step(state: OrderState, status: Option<&str>) -> (next: (OrderState, OrderStep))
    ensures
        next.0.order_id@ == state.order_id@,
        next.0.phase == next_phase(state.phase, status_view(status)),
        next.1 == next_step(state.phase, status_view(status)),
{
    let phase = state.phase;
    let order_id = state.order_id;
    match phase {
        OrderPhase::Placed => (
            OrderState { order_id, phase: OrderPhase::Polling },
            OrderStep::PollAfter { seconds: PROPAGATION_DELAY_SECS },
        ),
        OrderPhase::Polling => {
            let filled = match status {
                Some(text) => is_filled(text),
                None => false,
            };
            if filled {
                (OrderState { order_id, phase: OrderPhase::Filled }, OrderStep::Done)
            } else {
                (
                    OrderState { order_id, phase: OrderPhase::Polling },
                    OrderStep::PollAfter { seconds: POLL_DELAY_SECS },
                )
            }
        },
        OrderPhase::Filled => (OrderState { order_id, phase: OrderPhase::Filled }, OrderStep::Done),
    }
}

/// The status of the first order in an answer, and of no other, or `None`
/// where the answer lists no order.
pub fn first_order_status(response: &Response<List<OrderInfo>>) -> (status: Option<&str>)
    ensures
        status_view(status) == (if response.result.data_list@.len() > 0 {
            Some(response.result.data_list@[0].order_status@)
        } else {
            None
        }),
{
    if response.result.data_list.len() == 0 {
        None
    } else {
        Some(response.result.data_list[0].order_status.as_str())
    }
}

/// A filled order stays filled, whatever is reported of it.
pub proof fn lemma_filled_is_final(status: Option<Seq<char>>)
    ensures
        next_phase(OrderPhase::Filled, status) == OrderPhase::Filled,
        next_step(OrderPhase::Filled, status) == OrderStep::Done,
{
}

/// No step leads back to a placed order, and only a polled order can become
/// filled.
pub proof fn lemma_order_moves_forward(phase: OrderPhase, status: Option<Seq<char>>)
    ensures
        next_phase(phase, status) != OrderPhase::Placed,
        next_phase(phase, status) == OrderPhase::Filled <==> phase == OrderPhase::Filled || (phase
            == OrderPhase::Polling && status == Some(FILLED@)),
        next_step(phase, status) == OrderStep::Done <==> next_phase(phase, status)
            == OrderPhase::Filled,
{
}

/// A polled order is filled exactly when one of the statuses reported of it
/// was `Filled`.
pub proof fn lemma_filled_iff_reported(statuses: Seq<Seq<char>>)
    ensures
        phase_after(statuses) == OrderPhase::Filled <==> exists|i: int|
            0 <= i < statuses.len() && #[trigger] statuses[i] == FILLED@,
        phase_after(statuses) != OrderPhase::Placed,
    decreases statuses.len(),
{
    if statuses.len() > 0 {
        let earlier = statuses.drop_last();
        lemma_filled_iff_reported(earlier);
        if phase_after(statuses) == OrderPhase::Filled {
            if phase_after(earlier) == OrderPhase::Filled {
                let i = choose|i: int| 0 <= i < earlier.len() && #[trigger] earlier[i] == FILLED@;
                assert(statuses[i] == FILLED@);
            } else {
                assert(statuses[statuses.len() - 1] == FILLED@);
            }
        }
        if exists|i: int| 0 <= i < statuses.len() && #[trigger] statuses[i] == FILLED@ {
            let i = choose|i: int| 0 <= i < statuses.len() && #[trigger] statuses[i] == FILLED@;
            if i < earlier.len() {
                assert(earlier[i] == FILLED@);
            }
        }
    }
}

} // verus!
