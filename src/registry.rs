//! The implementations that can be built, and the factory that builds one
//! from a node's configuration.

use vstd::prelude::*;
use crate::batch::Batch;
use crate::config::{NodeConfig, config_of, config_view, first_value, lemma_first_value};
use crate::error::Error;
use crate::event::{Event, EventAndInsights, EventAndInsightsView, EventView};
use crate::op::Operator;
use crate::passthrough::Passthrough;
use crate::value::{ConfigValue, DynValue, yaml_as_u64, yaml_u64_of};

verus! {

/// The implementation-type key of the batcher.
pub open spec fn batch_key() -> Seq<char> {
    "generic::batch"@
}

/// The implementation-type key of the pass-through.
pub open spec fn passthrough_key() -> Seq<char> {
    "generic::passthrough"@
}

/// Whether an implementation is registered under `key`.
pub open spec fn registered(key: Seq<char>) -> bool {
    key == batch_key() || key == passthrough_key()
}

/// One operator of any registered implementation.
#[derive(Debug)]
pub enum OperatorImpl {
    Batch(Batch),
    Passthrough(Passthrough),
}

impl Operator for OperatorImpl {
    open spec fn inv(&self) -> bool {
        match self {
            OperatorImpl::Batch(o) => o.inv(),
            OperatorImpl::Passthrough(o) => o.inv(),
        }
    }

    open spec fn signal_flag(&self) -> bool {
        match self {
            OperatorImpl::Batch(o) => o.signal_flag(),
            OperatorImpl::Passthrough(o) => o.signal_flag(),
        }
    }

    open spec fn contraflow_flag(&self) -> bool {
        match self {
            OperatorImpl::Batch(o) => o.contraflow_flag(),
            OperatorImpl::Passthrough(o) => o.contraflow_flag(),
        }
    }

    open spec fn skip_flag(&self) -> bool {
        match self {
            OperatorImpl::Batch(o) => o.skip_flag(),
            OperatorImpl::Passthrough(o) => o.skip_flag(),
        }
    }

    open spec fn event_step(
        &self,
        uid: u64,
        port: Seq<char>,
        state: DynValue,
        event: EventView,
        next: Self,
        next_state: DynValue,
        r: Result<EventAndInsightsView, Error>,
    ) -> bool {
        match (self, next) {
            (OperatorImpl::Batch(o), OperatorImpl::Batch(n)) => o.event_step(uid, port, state, event, n, next_state, r),
            (OperatorImpl::Passthrough(o), OperatorImpl::Passthrough(n)) => o.event_step(uid, port, state, event, n, next_state, r),
            _ => false,
        }
    }

    open spec fn signal_step(
        &self,
        uid: u64,
        state: DynValue,
        signal: EventView,
        next: Self,
        next_state: DynValue,
        next_signal: EventView,
        r: Result<EventAndInsightsView, Error>,
    ) -> bool {
        match (self, next) {
            (OperatorImpl::Batch(o), OperatorImpl::Batch(n)) => o.signal_step(uid, state, signal, n, next_state, next_signal, r),
            (OperatorImpl::Passthrough(o), OperatorImpl::Passthrough(n)) => o.signal_step(uid, state, signal, n, next_state, next_signal, r),
            _ => false,
        }
    }

    open spec fn contraflow_step(&self, uid: u64, insight: EventView, next: Self, next_insight: EventView) -> bool {
        match (self, next) {
            (OperatorImpl::Batch(o), OperatorImpl::Batch(n)) => o.contraflow_step(uid, insight, n, next_insight),
            (OperatorImpl::Passthrough(o), OperatorImpl::Passthrough(n)) => o.contraflow_step(uid, insight, n, next_insight),
            _ => false,
        }
    }

    open spec fn metrics_result(
        &self,
        tags: Seq<(String, DynValue)>,
        timestamp: u64,
        r: Result<Seq<DynValue>, Error>,
    ) -> bool {
        match self {
            OperatorImpl::Batch(o) => o.metrics_result(tags, timestamp, r),
            OperatorImpl::Passthrough(o) => o.metrics_result(tags, timestamp, r),
        }
    }

    fn on_event(&mut self, uid: u64, port: &str, state: &mut DynValue, event: Event) -> (r: Result<
        EventAndInsights,
        Error,
    >) {
        match self {
            OperatorImpl::Batch(o) => o.on_event(uid, port, state, event),
            OperatorImpl::Passthrough(o) => o.on_event(uid, port, state, event),
        }
    }

    fn handles_signal(&self) -> (r: bool) {
        match self {
            OperatorImpl::Batch(o) => o.handles_signal(),
            OperatorImpl::Passthrough(o) => o.handles_signal(),
        }
    }

    fn on_signal(&mut self, uid: u64, state: &mut DynValue, signal: &mut Event) -> (r: Result<
        EventAndInsights,
        Error,
    >) {
        match self {
            OperatorImpl::Batch(o) => o.on_signal(uid, state, signal),
            OperatorImpl::Passthrough(o) => o.on_signal(uid, state, signal),
        }
    }

    fn handles_contraflow(&self) -> (r: bool) {
        match self {
            OperatorImpl::Batch(o) => o.handles_contraflow(),
            OperatorImpl::Passthrough(o) => o.handles_contraflow(),
        }
    }

    fn on_contraflow(&mut self, uid: u64, insight: &mut Event) {
        match self {
            OperatorImpl::Batch(o) => o.on_contraflow(uid, insight),
            OperatorImpl::Passthrough(o) => o.on_contraflow(uid, insight),
        }
    }

    fn metrics(&self, tags: &Vec<(String, DynValue)>, timestamp: u64) -> (r: Result<Vec<DynValue>, Error>) {
        match self {
            OperatorImpl::Batch(o) => o.metrics(tags, timestamp),
            OperatorImpl::Passthrough(o) => o.metrics(tags, timestamp),
        }
    }

    fn skippable(&self) -> (r: bool) {
        match self {
            OperatorImpl::Batch(o) => o.skippable(),
            OperatorImpl::Passthrough(o) => o.skippable(),
        }
    }
}

/// The value of the first parameter called `name`, if there is one.
pub fn find_param<'a>(params: &'a Vec<(String, ConfigValue)>, name: &str) -> (r: Option<&'a ConfigValue>)
    ensures
        match r {
            Some(v) => exists|i: int|
                0 <= i < params@.len() && #[trigger] config_view(params@)[i] == (name@, *v)
                    && forall|j: int| 0 <= j < i ==> config_view(params@)[j].0 != name@,
            None => forall|j: int| 0 <= j < params@.len() ==> #[trigger] config_view(params@)[j].0 != name@,
        },
        match r {
            Some(v) => first_value(config_view(params@), name@) == Some(*v),
            None => first_value(config_view(params@), name@) is None,
        },
{
    let target = name.to_owned();
    let mut i: usize = 0;
    while i < params.len()
        invariant
            i <= params@.len(),
            target@ == name@,
            forall|j: int| 0 <= j < i ==> #[trigger] config_view(params@)[j].0 != name@,
        decreases params@.len() - i,
    {
        if params[i].0 == target {
            assert(config_view(params@)[i as int] == (name@, params@[i as int].1));
            proof {
                lemma_first_value(config_view(params@), name@, i as int);
            }
            return Some(&params[i].1);
        }
        i = i + 1;
    }
    proof {
        lemma_first_value(config_view(params@), name@, params@.len() as int);
    }
    None
}

/// The `count` parameter among stored parameters, read as a `u64`.
pub open spec fn count_in(c: Option<Seq<(Seq<char>, ConfigValue)>>) -> Option<u64> {
    match c {
        Some(ps) => match first_value(ps, "count"@) {
            Some(v) => yaml_u64_of(v),
            None => None,
        },
        None => None,
    }
}

/// The `count` parameter of a configuration, read as a `u64`.
pub open spec fn count_of(config: NodeConfig) -> Option<u64> {
    count_in(config_of(config.config))
}

/// `r` is what the factory gives for a batcher whose `count` parameter reads
/// as `count`: a fresh batcher of that count where it is positive, else
/// `InvalidConfig("count")`.
pub open spec fn batch_built(count: Option<u64>, r: Result<OperatorImpl, Error>) -> bool {
    match count {
        Some(c) if c >= 1 => r matches Ok(OperatorImpl::Batch(b)) && b.count == c && b.buffered == 0
            && b.ids@.len() == 0 && b.data@.len() == 0,
        _ => r matches Err(Error::InvalidConfig(p)) && p@ == "count"@,
    }
}

/// The `count` parameter of a configuration as an unsigned integer, where it
/// is one.
fn count_param(config: &NodeConfig) -> (r: Option<u64>)
    ensures
        r == count_of(*config),
{
    match &config.config {
        Some(ps) => match find_param(ps, "count") {
            Some(v) => yaml_as_u64(v),
            None => None,
        },
        None => None,
    }
}

/// Builds the operator that `config.op_type` names.
///
/// A pass-through is always built. A batcher is built from its first
/// `count` parameter, which must read as a positive integer. Any other key is refused with
/// `UnknownOperator` naming it.
pub fn operator(uid: u64, config: &NodeConfig) -> (r: Result<OperatorImpl, Error>)
    ensures
        !registered(config.op_type@) ==> (r matches Err(Error::UnknownOperator(k)) && k@ == config.op_type@),
        config.op_type@ == passthrough_key() ==> (r matches Ok(OperatorImpl::Passthrough(_))),
        config.op_type@ == batch_key() ==> batch_built(count_of(*config), r),
        r is Ok ==> r->Ok_0.inv(),
{
    proof {
        reveal_strlit("generic::batch");
        reveal_strlit("generic::passthrough");
        assert(batch_key().len() != passthrough_key().len());
    }
    if config.op_type == "generic::batch".to_owned() {
        match Batch::from_count(count_param(config)) {
            Ok(b) => Ok(OperatorImpl::Batch(b)),
            Err(e) => Err(e),
        }
    } else if config.op_type == "generic::passthrough".to_owned() {
        Ok(OperatorImpl::Passthrough(Passthrough {}))
    } else {
        Err(Error::UnknownOperator(config.op_type.clone()))
    }
}

} // verus!
