//! `generic::passthrough`: forwards every event unchanged.

use vstd::prelude::*;
use crate::batch::{no_output, single_output};
use crate::error::Error;
use crate::event::{Event, EventAndInsights, EventAndInsightsView, EventView};
use crate::op::Operator;
use crate::value::DynValue;

verus! {

/// Sends each event on to port `out` as it came; the scheduler may skip it.
#[derive(Debug)]
pub struct Passthrough {}

impl Operator for Passthrough {
    open spec fn inv(&self) -> bool {
        true
    }

    open spec fn signal_flag(&self) -> bool {
        false
    }

    open spec fn contraflow_flag(&self) -> bool {
        false
    }

    open spec fn skip_flag(&self) -> bool {
        true
    }

    open spec fn event_step(
        &self,
        uid: u64,
        port: Seq<char>,
        state: DynValue,
        event: EventView,
        next: Self,
        next_state: DynValue,
        r: Result<EventAndInsightsView, Error>,
    ) -> bool {
        next_state == state && r == single_output(event)
    }

    open spec fn signal_step(
        &self,
        uid: u64,
        state: DynValue,
        signal: EventView,
        next: Self,
        next_state: DynValue,
        next_signal: EventView,
        r: Result<EventAndInsightsView, Error>,
    ) -> bool {
        next_state == state && next_signal == signal && r == no_output()
    }

    open spec fn contraflow_step(&self, uid: u64, insight: EventView, next: Self, next_insight: EventView) -> bool {
        next_insight == insight
    }

    open spec fn metrics_result(
        &self,
        tags: Seq<(String, DynValue)>,
        timestamp: u64,
        r: Result<Seq<DynValue>, Error>,
    ) -> bool {
        r == Ok::<Seq<DynValue>, Error>(Seq::empty())
    }

    fn on_event(&mut self, uid: u64, port: &str, state: &mut DynValue, event: Event) -> (r: Result<
        EventAndInsights,
        Error,
    >) {
        let ghost e = event@;
        let mut events: Vec<(String, Event)> = Vec::new();
        events.push(("out".to_owned(), event));
        let r = EventAndInsights { events, insights: Vec::new() };
        assert(r@.events =~= seq![("out"@, e)]);
        assert(r@.insights =~= Seq::<EventView>::empty());
        Ok(r)
    }

    fn handles_signal(&self) -> (r: bool) {
        false
    }

    fn on_signal(&mut self, uid: u64, state: &mut DynValue, signal: &mut Event) -> (r: Result<
        EventAndInsights,
        Error,
    >) {
        let r = EventAndInsights::empty();
        assert(r@.events =~= Seq::empty());
        assert(r@.insights =~= Seq::<EventView>::empty());
        Ok(r)
    }

    fn handles_contraflow(&self) -> (r: bool) {
        false
    }

    fn on_contraflow(&mut self, uid: u64, insight: &mut Event) {
    }

    fn metrics(&self, tags: &Vec<(String, DynValue)>, timestamp: u64) -> (r: Result<Vec<DynValue>, Error>) {
        let r: Vec<DynValue> = Vec::new();
        assert(r@ =~= Seq::<DynValue>::empty());
        Ok(r)
    }

    fn skippable(&self) -> (r: bool) {
        true
    }
}

} // verus!
