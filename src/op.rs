//! The contract every node implementation satisfies.
//!
//! Each call is described by a relation between the operator before the call,
//! the arguments, and what the call leaves behind: the operator itself, the
//! node's state handle, the event passed by reference, and the result.

use vstd::prelude::*;
use crate::error::Error;
use crate::event::{Event, EventAndInsights, EventAndInsightsView, EventView, result_view};
use crate::value::DynValue;

verus! {

/// A node implementation: data events, signals, contraflow and metrics. The
/// scheduler calls it one call at a time, with the node's own state handle.
pub trait Operator: Sized {
    /// The operator's internal well-formedness, kept by every call.
    spec fn inv(&self) -> bool;

    /// Whether the operator wants to see signals.
    spec fn signal_flag(&self) -> bool;

    /// Whether the operator wants to see contraflow.
    spec fn contraflow_flag(&self) -> bool;

    /// Whether `on_event` is an identity pass-through.
    spec fn skip_flag(&self) -> bool;

    /// `next`, `next_state` and `r` are a possible outcome of `on_event`.
    spec fn event_step(
        &self,
        uid: u64,
        port: Seq<char>,
        state: DynValue,
        event: EventView,
        next: Self,
        next_state: DynValue,
        r: Result<EventAndInsightsView, Error>,
    ) -> bool;

    /// `next`, `next_state`, `next_signal` and `r` are a possible outcome of `on_signal`.
    spec fn signal_step(
        &self,
        uid: u64,
        state: DynValue,
        signal: EventView,
        next: Self,
        next_state: DynValue,
        next_signal: EventView,
        r: Result<EventAndInsightsView, Error>,
    ) -> bool;

    /// `next` and `next_insight` are a possible outcome of `on_contraflow`.
    spec fn contraflow_step(
        &self,
        uid: u64,
        insight: EventView,
        next: Self,
        next_insight: EventView,
    ) -> bool;

    /// `r` is a possible outcome of `metrics`.
    spec fn metrics_result(
        &self,
        tags: Seq<(String, DynValue)>,
        timestamp: u64,
        r: Result<Seq<DynValue>, Error>,
    ) -> bool;

    /// Processes one event arriving on `port`.
    fn on_event(
        &mut self,
        uid: u64,
        port: &str,
        state: &mut DynValue,
        event: Event,
    ) -> (r: Result<EventAndInsights, Error>)
        requires
            old(self).inv(),
        ensures
            final(self).inv(),
            old(self).event_step(uid, port@, *old(state), event@, *final(self), *final(state), result_view(r)),
            final(self).signal_flag() == old(self).signal_flag(),
            final(self).contraflow_flag() == old(self).contraflow_flag(),
            final(self).skip_flag() == old(self).skip_flag(),
    ;

    /// Whether the scheduler should hand this operator signals.
    fn handles_signal(&self) -> (r: bool)
        ensures
            r == self.signal_flag(),
    ;

    /// Processes one signal.
    fn on_signal(
        &mut self,
        uid: u64,
        state: &mut DynValue,
        signal: &mut Event,
    ) -> (r: Result<EventAndInsights, Error>)
        requires
            old(self).inv(),
        ensures
            final(self).inv(),
            old(self).signal_step(uid, *old(state), old(signal)@, *final(self), *final(state), final(signal)@, result_view(r)),
            final(self).signal_flag() == old(self).signal_flag(),
            final(self).contraflow_flag() == old(self).contraflow_flag(),
            final(self).skip_flag() == old(self).skip_flag(),
    ;

    /// Whether the scheduler should hand this operator contraflow.
    fn handles_contraflow(&self) -> (r: bool)
        ensures
            r == self.contraflow_flag(),
    ;

    /// Observes, and may change, an insight travelling upstream.
    fn on_contraflow(&mut self, uid: u64, insight: &mut Event)
        requires
            old(self).inv(),
        ensures
            final(self).inv(),
            old(self).contraflow_step(uid, old(insight)@, *final(self), final(insight)@),
            final(self).signal_flag() == old(self).signal_flag(),
            final(self).contraflow_flag() == old(self).contraflow_flag(),
            final(self).skip_flag() == old(self).skip_flag(),
    ;

    /// A snapshot of the operator's telemetry.
    fn metrics(&self, tags: &Vec<(String, DynValue)>, timestamp: u64) -> (r: Result<Vec<DynValue>, Error>)
        ensures
            self.metrics_result(tags@, timestamp, result_view(r)),
    ;

    /// Whether the scheduler may leave this operator out of the path.
    fn skippable(&self) -> (r: bool)
        ensures
            r == self.skip_flag(),
    ;
}

} // verus!
