//! Declarative statements, and the adapter that turns an operator declaration
//! into one uniformly stored node.

use vstd::prelude::*;
use vstd::string::StringExecFns;
use crate::batch::{no_output, single_output};
use crate::config::{canonical_config, config_of, mk_node_config, param_count};
use crate::event::CbAction;
use crate::error::Error;
use crate::event::{Event, EventAndInsights, EventAndInsightsView, EventView};
use crate::op::Operator;
use crate::registry::{OperatorImpl, batch_built, batch_key, count_in, count_of, operator, passthrough_key, registered};
use crate::value::{ConfigValue, DynValue};

verus! {

/// Which implementation an operator declaration asks for.
#[derive(Debug)]
pub struct OperatorKind {
    pub module: String,
    pub operation: String,
}

/// `define <module>::<operation> operator <node_id> with <params>`.
#[derive(Debug)]
pub struct OperatorDecl {
    pub node_id: String,
    pub kind: OperatorKind,
    pub params: Option<Vec<(String, DynValue)>>,
}

/// A parsed and checked statement of the query language.
#[derive(Debug)]
pub enum Stmt {
    /// Declares a window, by name.
    WindowDecl(String),
    /// Declares an operator.
    OperatorDecl(OperatorDecl),
    /// Declares a script, by name.
    ScriptDecl(String),
    /// Creates a stream, by name.
    Stream(String),
    /// A select statement, by target name.
    Select(String),
}

/// The implementation-type key of an operator kind: `<module>::<operation>`.
pub open spec fn type_key(module: Seq<char>, operation: Seq<char>) -> Seq<char> {
    module + "::"@ + operation
}

/// The operator an adapter result holds, or its error.
pub open spec fn adapter_op(r: Result<TrickleOperator, Error>) -> Result<OperatorImpl, Error> {
    match r {
        Ok(a) => Ok(a.op),
        Err(e) => Err(e),
    }
}

/// A node of the graph: its identity and the one operator it owns. Every call
/// is forwarded unchanged to that operator.
#[derive(Debug)]
pub struct TrickleOperator {
    pub id: String,
    pub op: OperatorImpl,
}

impl TrickleOperator {
    /// Builds the node `id` from an operator declaration. Any other statement
    /// is refused with `NonOperatorStmt`, before anything is built. The
    /// declaration's implementation-type key and parameters (see
    /// `mk_node_config`) go to the factory (see `operator`), whose error, if
    /// any, is returned.
    pub fn with_stmt(operator_uid: u64, id: String, decl: &Stmt) -> (r: Result<TrickleOperator, Error>)
        ensures
            match decl {
                Stmt::OperatorDecl(d) => {
                    let key = type_key(d.kind.module@, d.kind.operation@);
                    &&& !registered(key) ==> (r matches Err(Error::UnknownOperator(k)) && k@ == key)
                    &&& key == passthrough_key() ==> (r matches Ok(a) && a.id@ == id@
                        && a.op is Passthrough)
                    &&& key == batch_key() ==> exists|p: Seq<Option<ConfigValue>>|
                        p.len() == param_count(d.params)
                        && batch_built(count_in(#[trigger] canonical_config(d.params, p)), adapter_op(r))
                    &&& r is Ok ==> r->Ok_0.id@ == id@
                    &&& r is Ok ==> r->Ok_0.inv()
                },
                _ => r matches Err(Error::NonOperatorStmt),
            },
    {
        match decl {
            Stmt::OperatorDecl(d) => {
                let key = d.kind.module.clone().concat("::").concat(d.kind.operation.as_str());
                let config = mk_node_config(d.node_id.clone(), key, &d.params);
                let ghost p = choose|p: Seq<Option<ConfigValue>>|
                    p.len() == param_count(d.params) && #[trigger] canonical_config(d.params, p)
                        == config_of(config.config);
                let built = operator(operator_uid, &config);
                let ghost b = built;
                let r = match built {
                    Ok(op) => Ok(TrickleOperator { id, op }),
                    Err(e) => Err(e),
                };
                assert(adapter_op(r) == b);
                assert(count_in(canonical_config(d.params, p)) == count_of(config));
                r
            },
            _ => Err(Error::NonOperatorStmt),
        }
    }
}

impl Operator for TrickleOperator {
    open spec fn inv(&self) -> bool {
        self.op.inv()
    }

    open spec fn signal_flag(&self) -> bool {
        self.op.signal_flag()
    }

    open spec fn contraflow_flag(&self) -> bool {
        self.op.contraflow_flag()
    }

    open spec fn skip_flag(&self) -> bool {
        self.op.skip_flag()
    }

    open spec fn event_step(
        &self,
        uid: u64,
        port: Seq<char>,
        state: DynValue,
        event: EventView,
        next: Self,
        next_state: DynValue,
        r: Result<EventAndInsightsView, Error>,
    ) -> bool {
        next.id == self.id && self.op.event_step(uid, port, state, event, next.op, next_state, r)
    }

    open spec fn signal_step(
        &self,
        uid: u64,
        state: DynValue,
        signal: EventView,
        next: Self,
        next_state: DynValue,
        next_signal: EventView,
        r: Result<EventAndInsightsView, Error>,
    ) -> bool {
        next.id == self.id && self.op.signal_step(uid, state, signal, next.op, next_state, next_signal, r)
    }

    open spec fn contraflow_step(&self, uid: u64, insight: EventView, next: Self, next_insight: EventView) -> bool {
        next.id == self.id && self.op.contraflow_step(uid, insight, next.op, next_insight)
    }

    open spec fn metrics_result(
        &self,
        tags: Seq<(String, DynValue)>,
        timestamp: u64,
        r: Result<Seq<DynValue>, Error>,
    ) -> bool {
        self.op.metrics_result(tags, timestamp, r)
    }

    fn on_event(&mut self, uid: u64, port: &str, state: &mut DynValue, event: Event) -> (r: Result<
        EventAndInsights,
        Error,
    >) {
        self.op.on_event(uid, port, state, event)
    }

    fn handles_signal(&self) -> (r: bool) {
        self.op.handles_signal()
    }

    fn on_signal(&mut self, uid: u64, state: &mut DynValue, signal: &mut Event) -> (r: Result<
        EventAndInsights,
        Error,
    >) {
        self.op.on_signal(uid, state, signal)
    }

    fn handles_contraflow(&self) -> (r: bool) {
        self.op.handles_contraflow()
    }

    fn on_contraflow(&mut self, uid: u64, insight: &mut Event) {
        self.op.on_contraflow(uid, insight);
    }

    fn metrics(&self, tags: &Vec<(String, DynValue)>, timestamp: u64) -> (r: Result<Vec<DynValue>, Error>) {
        self.op.metrics(tags, timestamp)
    }

    fn skippable(&self) -> (r: bool) {
        self.op.skippable()
    }
}

/// The adapter is transparent: each of its calls has exactly the outcomes of
/// the same call on the operator it owns, it keeps its identity, and its
/// capability flags are the operator's.
pub proof fn lemma_adapter_transparent(
    a: TrickleOperator,
    uid: u64,
    port: Seq<char>,
    state: DynValue,
    event: EventView,
    next: TrickleOperator,
    next_state: DynValue,
    next_event: EventView,
    r: Result<EventAndInsightsView, Error>,
    tags: Seq<(String, DynValue)>,
    timestamp: u64,
    m: Result<Seq<DynValue>, Error>,
)
    ensures
        a.event_step(uid, port, state, event, next, next_state, r) == (next.id == a.id
            && a.op.event_step(uid, port, state, event, next.op, next_state, r)),
        a.signal_step(uid, state, event, next, next_state, next_event, r) == (next.id == a.id
            && a.op.signal_step(uid, state, event, next.op, next_state, next_event, r)),
        a.contraflow_step(uid, event, next, next_event) == (next.id == a.id
            && a.op.contraflow_step(uid, event, next.op, next_event)),
        a.metrics_result(tags, timestamp, m) == a.op.metrics_result(tags, timestamp, m),
        a.signal_flag() == a.op.signal_flag(),
        a.contraflow_flag() == a.op.contraflow_flag(),
        a.skip_flag() == a.op.skip_flag(),
{
}

/// A node's capability flags never change: every outcome of every call
/// leaves the node with the flags it had.
pub proof fn lemma_flags_stable(
    a: TrickleOperator,
    uid: u64,
    port: Seq<char>,
    state: DynValue,
    event: EventView,
    next: TrickleOperator,
    next_state: DynValue,
    next_event: EventView,
    r: Result<EventAndInsightsView, Error>,
)
    requires
        a.event_step(uid, port, state, event, next, next_state, r)
            || a.signal_step(uid, state, event, next, next_state, next_event, r)
            || a.contraflow_step(uid, event, next, next_event),
    ensures
        next.signal_flag() == a.signal_flag(),
        next.contraflow_flag() == a.contraflow_flag(),
        next.skip_flag() == a.skip_flag(),
{
}

/// A node holding a fresh batcher of count 2 stays silent on its first
/// event and then emits one batch event holding both events' ids and
/// payloads, first event first.
pub proof fn lemma_batch_of_two(
    a: TrickleOperator,
    uid: u64,
    port1: Seq<char>,
    port2: Seq<char>,
    s0: DynValue,
    e1: EventView,
    e2: EventView,
    a1: TrickleOperator,
    s1: DynValue,
    r1: Result<EventAndInsightsView, Error>,
    a2: TrickleOperator,
    s2: DynValue,
    r2: Result<EventAndInsightsView, Error>,
)
    requires
        a.op matches OperatorImpl::Batch(b) && b.count == 2 && b.buffered == 0 && b.ids@.len() == 0
            && b.data@.len() == 0,
        a.event_step(uid, port1, s0, e1, a1, s1, r1),
        a1.event_step(uid, port2, s1, e2, a2, s2, r2),
    ensures
        r1 == no_output(),
        r2 == single_output(
            EventView {
                ids: e1.ids + e2.ids,
                ingest_ns: e2.ingest_ns,
                data: e1.data + e2.data,
                is_batch: true,
                cb: CbAction::Forward,
            },
        ),
        s2 == s0,
        a2.id == a.id,
{
    let b = a.op->Batch_0;
    assert(b.ids@ + e1.ids =~= e1.ids);
    assert(b.data@ + e1.data =~= e1.data);
}

} // verus!
