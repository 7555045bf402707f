//! `generic::batch`: gathers a fixed number of events into one.

use vstd::prelude::*;
use crate::error::Error;
use crate::event::{CbAction, Event, EventAndInsights, EventAndInsightsView, EventView};
use crate::op::Operator;
use crate::value::DynValue;

verus! {

/// Holds events until `count` have arrived, then emits them as one batch event
/// on port `out`, their ids and payloads in arrival order.
#[derive(Debug)]
pub struct Batch {
    /// How many events make a batch.
    pub count: u64,
    /// Ids of the events held so far.
    pub ids: Vec<u64>,
    /// Payloads of the events held so far.
    pub data: Vec<DynValue>,
    /// How many events are held.
    pub buffered: u64,
}

/// The result of a call that emits nothing.
pub open spec fn no_output() -> Result<EventAndInsightsView, Error> {
    Ok(EventAndInsightsView { events: Seq::empty(), insights: Seq::empty() })
}

/// The result of a call that emits exactly `e` on port `out`.
pub open spec fn single_output(e: EventView) -> Result<EventAndInsightsView, Error> {
    Ok(EventAndInsightsView { events: seq![("out"@, e)], insights: Seq::empty() })
}

impl Batch {
    /// An empty batcher that emits every `count` events.
    pub fn new(count: u64) -> (r: Batch)
        requires
            count >= 1,
        ensures
            r.inv(),
            r.count == count,
            r.ids@.len() == 0,
            r.data@.len() == 0,
            r.buffered == 0,
    {
        Batch { count, ids: Vec::new(), data: Vec::new(), buffered: 0 }
    }

    /// A batcher from its `count` parameter as read from the configuration:
    /// one that is missing, or is not a positive integer, is refused.
    pub fn from_count(count: Option<u64>) -> (r: Result<Batch, Error>)
        ensures
            match count {
                Some(c) if c >= 1 => r matches Ok(b) && b.inv() && b.count == c
                    && b.ids@.len() == 0 && b.data@.len() == 0 && b.buffered == 0,
                _ => r matches Err(Error::InvalidConfig(p)) && p@ == "count"@,
            },
    {
        match count {
            Some(c) => {
                if c >= 1 {
                    Ok(Batch::new(c))
                } else {
                    Err(Error::InvalidConfig("count".to_owned()))
                }
            },
            None => Err(Error::InvalidConfig("count".to_owned())),
        }
    }
}

impl Operator for Batch {
    open spec fn inv(&self) -> bool {
        1 <= self.count && self.buffered < self.count
    }

    open spec fn signal_flag(&self) -> bool {
        false
    }

    open spec fn contraflow_flag(&self) -> bool {
        false
    }

    open spec fn skip_flag(&self) -> bool {
        false
    }

    open spec fn event_step(
        &self,
        uid: u64,
        port: Seq<char>,
        state: DynValue,
        event: EventView,
        next: Self,
        next_state: DynValue,
        r: Result<EventAndInsightsView, Error>,
    ) -> bool {
        let ids = self.ids@ + event.ids;
        let data = self.data@ + event.data;
        &&& next_state == state
        &&& next.count == self.count
        &&& if self.buffered + 1 >= self.count {
            &&& next.ids@.len() == 0
            &&& next.data@.len() == 0
            &&& next.buffered == 0
            &&& r == single_output(
                EventView { ids, ingest_ns: event.ingest_ns, data, is_batch: true, cb: CbAction::Forward },
            )
        } else {
            &&& next.ids@ == ids
            &&& next.data@ == data
            &&& next.buffered == self.buffered + 1
            &&& r == no_output()
        }
    }

    open spec fn signal_step(
        &self,
        uid: u64,
        state: DynValue,
        signal: EventView,
        next: Self,
        next_state: DynValue,
        next_signal: EventView,
        r: Result<EventAndInsightsView, Error>,
    ) -> bool {
        next == *self && next_state == state && next_signal == signal && r == no_output()
    }

    open spec fn contraflow_step(&self, uid: u64, insight: EventView, next: Self, next_insight: EventView) -> bool {
        next == *self && next_insight == insight
    }

    open spec fn metrics_result(
        &self,
        tags: Seq<(String, DynValue)>,
        timestamp: u64,
        r: Result<Seq<DynValue>, Error>,
    ) -> bool {
        r == Ok::<Seq<DynValue>, Error>(Seq::empty())
    }

    fn on_event(&mut self, uid: u64, port: &str, state: &mut DynValue, event: Event) -> (r: Result<
        EventAndInsights,
        Error,
    >) {
        let mut event = event;
        let ghost ids = self.ids@ + event.ids@;
        let ghost data = self.data@ + event.data@;
        self.ids.append(&mut event.ids);
        self.data.append(&mut event.data);
        if self.buffered + 1 >= self.count {
            let mut out_ids: Vec<u64> = Vec::new();
            let mut out_data: Vec<DynValue> = Vec::new();
            std::mem::swap(&mut out_ids, &mut self.ids);
            std::mem::swap(&mut out_data, &mut self.data);
            self.buffered = 0;
            let out = Event {
                ids: out_ids,
                ingest_ns: event.ingest_ns,
                data: out_data,
                is_batch: true,
                cb: CbAction::Forward,
            };
            let mut events: Vec<(String, Event)> = Vec::new();
            events.push(("out".to_owned(), out));
            let r = EventAndInsights { events, insights: Vec::new() };
            assert(r@.events =~= seq![("out"@, out@)]);
            assert(r@.insights =~= Seq::<EventView>::empty());
            Ok(r)
        } else {
            self.buffered = self.buffered + 1;
            let r = EventAndInsights::empty();
            assert(r@.events =~= Seq::empty());
            assert(r@.insights =~= Seq::<EventView>::empty());
            Ok(r)
        }
    }

    fn handles_signal(&self) -> (r: bool) {
        false
    }

    fn on_signal(&mut self, uid: u64, state: &mut DynValue, signal: &mut Event) -> (r: Result<
        EventAndInsights,
        Error,
    >) {
        let r = EventAndInsights::empty();
        assert(r@.events =~= Seq::empty());
        assert(r@.insights =~= Seq::<EventView>::empty());
        Ok(r)
    }

    fn handles_contraflow(&self) -> (r: bool) {
        false
    }

    fn on_contraflow(&mut self, uid: u64, insight: &mut Event) {
    }

    fn metrics(&self, tags: &Vec<(String, DynValue)>, timestamp: u64) -> (r: Result<Vec<DynValue>, Error>) {
        let r: Vec<DynValue> = Vec::new();
        assert(r@ =~= Seq::<DynValue>::empty());
        Ok(r)
    }

    fn skippable(&self) -> (r: bool) {
        false
    }
}

} // verus!
