//! Events flowing forward, insights flowing backward, and what an operator
//! hands back after a call.

use vstd::prelude::*;
use crate::value::DynValue;

verus! {

/// What a contraflow message reports about the events it concerns.
#[derive(Clone, Copy, Debug, PartialEq, Eq, Structural)]
pub enum CbAction {
    /// An ordinary event moving forward, carrying no acknowledgment.
    Forward,
    /// The events were delivered.
    Ack,
    /// The events could not be delivered.
    Fail,
    /// Downstream asks upstream to stop sending.
    Close,
    /// Downstream asks upstream to resume sending.
    Open,
}

/// A unit of data in the graph. The same shape serves for signals and, with
/// `cb` set, for insights travelling against the flow.
#[derive(Debug)]
pub struct Event {
    /// Correlation ids of the source events this event stands for.
    pub ids: Vec<u64>,
    /// Ingest time in nanoseconds.
    pub ingest_ns: u64,
    /// The payload: one value, or several in arrival order when `is_batch`.
    pub data: Vec<DynValue>,
    /// Whether `data` holds a batch of payloads.
    pub is_batch: bool,
    /// The outcome an insight reports.
    pub cb: CbAction,
}

/// The mathematical content of an event.
pub ghost struct EventView {
    pub ids: Seq<u64>,
    pub ingest_ns: u64,
    pub data: Seq<DynValue>,
    pub is_batch: bool,
    pub cb: CbAction,
}

impl View for Event {
    type V = EventView;

    open spec fn view(&self) -> EventView {
        EventView {
            ids: self.ids@,
            ingest_ns: self.ingest_ns,
            data: self.data@,
            is_batch: self.is_batch,
            cb: self.cb,
        }
    }
}

/// Output events, each with the port it leaves on, and the insights that a
/// call produced on the side.
#[derive(Debug)]
pub struct EventAndInsights {
    pub events: Vec<(String, Event)>,
    pub insights: Vec<Event>,
}

pub ghost struct EventAndInsightsView {
    pub events: Seq<(Seq<char>, EventView)>,
    pub insights: Seq<EventView>,
}

impl View for EventAndInsights {
    type V = EventAndInsightsView;

    open spec fn view(&self) -> EventAndInsightsView {
        EventAndInsightsView {
            events: self.events@.map_values(|p: (String, Event)| (p.0@, p.1@)),
            insights: self.insights@.map_values(|e: Event| e@),
        }
    }
}

/// The view of an operator call's result.
pub open spec fn result_view<T: View>(r: Result<T, crate::error::Error>) -> Result<T::V, crate::error::Error> {
    match r {
        Ok(v) => Ok(v@),
        Err(e) => Err(e),
    }
}

impl EventAndInsights {
    /// No events and no insights.
    pub fn empty() -> (r: EventAndInsights)
        ensures
            r@.events.len() == 0,
            r@.insights.len() == 0,
    {
        EventAndInsights { events: Vec::new(), insights: Vec::new() }
    }
}

} // verus!
