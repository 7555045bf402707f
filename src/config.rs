//! A node's static configuration and the normalisation of its parameters
//! into the canonical configuration form.

use vstd::prelude::*;
use crate::value::{ConfigValue, DynValue, encode_value, yaml_from_json};

verus! {

/// The category of a node in the graph.
#[derive(Clone, Copy, Debug, PartialEq, Eq, Structural)]
pub enum NodeKind {
    Input,
    Output,
    Operator,
    Select,
    Script,
}

/// The static description of a node, fixed once it is handed to the factory.
#[derive(Debug)]
pub struct NodeConfig {
    /// The node's identity, unique within one pipeline.
    pub id: String,
    pub kind: NodeKind,
    /// The implementation-type key, `<module>::<operation>`.
    pub op_type: String,
    /// The canonical parameters, where the declaration gave any.
    pub config: Option<Vec<(String, ConfigValue)>>,
}

/// The names of a parameter list, in order.
pub open spec fn param_keys(params: Seq<(String, DynValue)>) -> Seq<Seq<char>> {
    params.map_values(|p: (String, DynValue)| p.0@)
}

/// The view of a canonical parameter list.
pub open spec fn config_view(c: Seq<(String, ConfigValue)>) -> Seq<(Seq<char>, ConfigValue)> {
    c.map_values(|p: (String, ConfigValue)| (p.0@, p.1))
}

/// The names of a canonical parameter list, in order.
pub open spec fn config_keys(c: Seq<(Seq<char>, ConfigValue)>) -> Seq<Seq<char>> {
    c.map_values(|p: (Seq<char>, ConfigValue)| p.0)
}

/// No name occurs twice.
pub open spec fn keys_unique(keys: Seq<Seq<char>>) -> bool {
    forall|i: int, j: int| 0 <= i < j < keys.len() ==> keys[i] != keys[j]
}

/// The view of a node's stored parameters.
pub open spec fn config_of(c: Option<Vec<(String, ConfigValue)>>) -> Option<Seq<(Seq<char>, ConfigValue)>> {
    match c {
        Some(v) => Some(config_view(v@)),
        None => None,
    }
}

/// The stored parameters that a declaration's `params` give when `parsed`
/// holds the canonical form of each value.
pub open spec fn canonical_config(
    params: Option<Vec<(String, DynValue)>>,
    parsed: Seq<Option<ConfigValue>>,
) -> Option<Seq<(Seq<char>, ConfigValue)>> {
    match params {
        Some(ps) => Some(kept(param_keys(ps@), parsed)),
        None => None,
    }
}

/// The number of values a declaration's `params` hold.
pub open spec fn param_count(params: Option<Vec<(String, DynValue)>>) -> nat {
    match params {
        Some(ps) => ps@.len(),
        None => 0,
    }
}

/// The value of the first parameter called `name`, if any.
pub open spec fn first_value(c: Seq<(Seq<char>, ConfigValue)>, name: Seq<char>) -> Option<ConfigValue>
    decreases c.len(),
{
    if c.len() == 0 {
        None
    } else if c[0].0 == name {
        Some(c[0].1)
    } else {
        first_value(c.drop_first(), name)
    }
}

/// The first `n` parameters whose canonical form exists, each with that form,
/// in their original order.
pub open spec fn kept_upto(
    keys: Seq<Seq<char>>,
    parsed: Seq<Option<ConfigValue>>,
    n: nat,
) -> Seq<(Seq<char>, ConfigValue)>
    decreases n,
{
    if n == 0 {
        Seq::empty()
    } else {
        let rest = kept_upto(keys, parsed, (n - 1) as nat);
        match parsed[n - 1] {
            Some(v) => rest.push((keys[n - 1], v)),
            None => rest,
        }
    }
}

/// The parameters named `keys` whose canonical form `parsed` exists.
pub open spec fn kept(keys: Seq<Seq<char>>, parsed: Seq<Option<ConfigValue>>) -> Seq<(Seq<char>, ConfigValue)> {
    kept_upto(keys, parsed, keys.len())
}

/// Pairs each parameter with its canonical form, `parsed[i]` for the `i`-th,
/// and leaves out each one that has none.
pub fn collect_params(params: &Vec<(String, DynValue)>, parsed: Vec<Option<ConfigValue>>) -> (r: Vec<(String, ConfigValue)>)
    requires
        parsed@.len() == params@.len(),
    ensures
        config_view(r@) == kept(param_keys(params@), parsed@),
        keys_unique(param_keys(params@)) ==> keys_unique(config_keys(config_view(r@))),
{
    let ghost keys = param_keys(params@);
    let ghost all = parsed@;
    let mut parsed = parsed;
    let mut out: Vec<(String, ConfigValue)> = Vec::new();
    let n = params.len();
    let mut i: usize = 0;
    while i < n
        invariant
            i <= n,
            n == params@.len(),
            keys == param_keys(params@),
            all.len() == n,
            parsed@ == all.subrange(i as int, n as int),
            config_view(out@) == kept_upto(keys, all, i as nat),
        decreases n - i,
    {
        let p = parsed.remove(0);
        assert(p == all[i as int]);
        match p {
            Some(v) => {
                let k = params[i].0.clone();
                assert(k@ == keys[i as int]);
                out.push((k, v));
                assert(config_view(out@) =~= kept_upto(keys, all, i as nat).push((keys[i as int], v)));
            },
            None => {},
        }
        assert(parsed@ =~= all.subrange(i + 1, n as int));
        i = i + 1;
    }
    proof {
        if keys_unique(keys) {
            lemma_kept_upto_unique(keys, all, n as nat);
        }
    }
    out
}

/// The canonical form of each parameter value: its JSON text read back as a
/// configuration value, `None` where that fails.
fn canonical_forms(params: &Vec<(String, DynValue)>) -> (r: Vec<Option<ConfigValue>>)
    ensures
        r@.len() == params@.len(),
{
    let mut out: Vec<Option<ConfigValue>> = Vec::new();
    let mut i: usize = 0;
    while i < params.len()
        invariant
            i <= params@.len(),
            out@.len() == i,
        decreases params@.len() - i,
    {
        let text = encode_value(&params[i].1);
        out.push(yaml_from_json(text));
        i = i + 1;
    }
    out
}

/// The configuration of an operator node named `id` of implementation type
/// `op_type`. Each parameter keeps its name and its canonical form, in order;
/// a parameter whose value has no canonical form is left out.
pub fn mk_node_config(id: String, op_type: String, params: &Option<Vec<(String, DynValue)>>) -> (r: NodeConfig)
    ensures
        r.id@ == id@,
        r.kind == NodeKind::Operator,
        r.op_type@ == op_type@,
        match params {
            None => r.config is None,
            Some(ps) => r.config matches Some(c) && exists|p: Seq<Option<ConfigValue>>|
                p.len() == ps@.len() && #[trigger] kept(param_keys(ps@), p) == config_view(c@),
        },
        exists|p: Seq<Option<ConfigValue>>|
            p.len() == param_count(*params) && #[trigger] canonical_config(*params, p) == config_of(r.config),
        match params {
            Some(ps) => keys_unique(param_keys(ps@)) ==> (r.config matches Some(c)
                && keys_unique(config_keys(config_view(c@)))),
            None => true,
        },
{
    let config = match params {
        None => None,
        Some(ps) => {
            let parsed = canonical_forms(ps);
            let ghost p = parsed@;
            let c = collect_params(ps, parsed);
            assert(kept(param_keys(ps@), p) == config_view(c@));
            assert(canonical_config(*params, p) == config_of(Some(c)));
            Some(c)
        },
    };
    assert(canonical_config(*params, Seq::empty()) == config_of(config) || params is Some);
    NodeConfig { id, kind: NodeKind::Operator, op_type, config }
}

/// A parameter whose value has a canonical form is in the configuration,
/// under its own name, with that form.
pub proof fn lemma_representable_kept(keys: Seq<Seq<char>>, parsed: Seq<Option<ConfigValue>>, i: int)
    requires
        keys.len() == parsed.len(),
        0 <= i < keys.len(),
        parsed[i] is Some,
    ensures
        kept(keys, parsed).contains((keys[i], parsed[i]->Some_0)),
{
    lemma_kept_upto_has(keys, parsed, i, keys.len());
}

proof fn lemma_kept_upto_has(keys: Seq<Seq<char>>, parsed: Seq<Option<ConfigValue>>, i: int, n: nat)
    requires
        keys.len() == parsed.len(),
        0 <= i < n <= keys.len(),
        parsed[i] is Some,
    ensures
        kept_upto(keys, parsed, n).contains((keys[i], parsed[i]->Some_0)),
    decreases n,
{
    let rest = kept_upto(keys, parsed, (n - 1) as nat);
    if i == n - 1 {
        let full = rest.push((keys[i], parsed[i]->Some_0));
        assert(full[rest.len() as int] == (keys[i], parsed[i]->Some_0));
    } else {
        lemma_kept_upto_has(keys, parsed, i, (n - 1) as nat);
        let w = choose|j: int| 0 <= j < rest.len() && rest[j] == (keys[i], parsed[i]->Some_0);
        match parsed[n - 1] {
            Some(v) => {
                assert(rest.push((keys[n - 1], v))[w] == rest[w]);
            },
            None => {},
        }
    }
}

/// A name none of whose values has a canonical form is absent from the
/// configuration.
pub proof fn lemma_unrepresentable_absent(keys: Seq<Seq<char>>, parsed: Seq<Option<ConfigValue>>, k: Seq<char>)
    requires
        keys.len() == parsed.len(),
        forall|j: int| 0 <= j < keys.len() && keys[j] == k ==> parsed[j] is None,
    ensures
        forall|m: int| 0 <= m < kept(keys, parsed).len() ==> (#[trigger] kept(keys, parsed)[m]).0 != k,
{
    lemma_kept_upto_lacks(keys, parsed, k, keys.len());
}

proof fn lemma_kept_upto_lacks(keys: Seq<Seq<char>>, parsed: Seq<Option<ConfigValue>>, k: Seq<char>, n: nat)
    requires
        keys.len() == parsed.len(),
        n <= keys.len(),
        forall|j: int| 0 <= j < keys.len() && keys[j] == k ==> parsed[j] is None,
    ensures
        forall|m: int| 0 <= m < kept_upto(keys, parsed, n).len() ==> (#[trigger] kept_upto(keys, parsed, n)[m]).0 != k,
    decreases n,
{
    if n > 0 {
        lemma_kept_upto_lacks(keys, parsed, k, (n - 1) as nat);
        let rest = kept_upto(keys, parsed, (n - 1) as nat);
        match parsed[n - 1] {
            Some(v) => {
                let full = rest.push((keys[n - 1], v));
                assert(keys[n - 1] != k);
                assert forall|m: int| 0 <= m < full.len() implies (#[trigger] full[m]).0 != k by {
                    if m < rest.len() {
                        assert(full[m] == rest[m]);
                    }
                }
            },
            None => {},
        }
    }
}

/// Every name kept among the first `n` parameters is the name of one of them.
proof fn lemma_kept_upto_keys(keys: Seq<Seq<char>>, parsed: Seq<Option<ConfigValue>>, n: nat)
    requires
        n <= keys.len(),
        n <= parsed.len(),
    ensures
        forall|m: int| 0 <= m < kept_upto(keys, parsed, n).len() ==> exists|j: int|
            0 <= j < n && keys[j] == (#[trigger] kept_upto(keys, parsed, n)[m]).0,
    decreases n,
{
    if n > 0 {
        lemma_kept_upto_keys(keys, parsed, (n - 1) as nat);
        let rest = kept_upto(keys, parsed, (n - 1) as nat);
        let full = kept_upto(keys, parsed, n);
        match parsed[n - 1] {
            Some(v) => {
                assert(full == rest.push((keys[n - 1], v)));
            },
            None => {
                assert(full == rest);
            },
        }
        assert forall|m: int| 0 <= m < full.len() implies exists|j: int|
            0 <= j < n && keys[j] == (#[trigger] full[m]).0 by {
            if m < rest.len() {
                assert(rest[m] == full[m]);
                assert(full[m] == rest[m]);
                let w = choose|w: int| 0 <= w < n - 1 && keys[w] == (#[trigger] rest[m]).0;
                assert(0 <= w < n && keys[w] == full[m].0);
            } else {
                assert(keys[n - 1] == full[m].0);
            }
        }
    }
}

/// Keeping some of a list of distinct names keeps them distinct.
proof fn lemma_kept_upto_unique(keys: Seq<Seq<char>>, parsed: Seq<Option<ConfigValue>>, n: nat)
    requires
        n <= keys.len(),
        n <= parsed.len(),
        keys_unique(keys),
    ensures
        keys_unique(config_keys(kept_upto(keys, parsed, n))),
    decreases n,
{
    if n > 0 {
        lemma_kept_upto_unique(keys, parsed, (n - 1) as nat);
        lemma_kept_upto_keys(keys, parsed, (n - 1) as nat);
        let rest = kept_upto(keys, parsed, (n - 1) as nat);
        match parsed[n - 1] {
            Some(v) => {
                let full = rest.push((keys[n - 1], v));
                let ks = config_keys(full);
                assert forall|i: int, j: int| 0 <= i < j < ks.len() implies ks[i] != ks[j] by {
                    assert(ks[i] == full[i].0);
                    assert(ks[j] == full[j].0);
                    assert(full[i] == rest[i]);
                    if j < rest.len() {
                        assert(full[j] == rest[j]);
                        assert(config_keys(rest)[i] == rest[i].0);
                        assert(config_keys(rest)[j] == rest[j].0);
                    } else {
                        let w = choose|w: int| 0 <= w < n - 1 && keys[w] == (#[trigger] rest[i]).0;
                        assert(keys[w] != keys[n - 1]);
                    }
                }
            },
            None => {},
        }
    }
}

/// Where the `i`-th parameter is the first called `name`, `first_value`
/// finds its value; where none is called `name`, it finds nothing.
pub proof fn lemma_first_value(c: Seq<(Seq<char>, ConfigValue)>, name: Seq<char>, i: int)
    requires
        0 <= i <= c.len(),
        forall|j: int| 0 <= j < i ==> (#[trigger] c[j]).0 != name,
        i < c.len() ==> c[i].0 == name,
    ensures
        first_value(c, name) == if i < c.len() { Some(c[i].1) } else { None::<ConfigValue> },
    decreases c.len(),
{
    if c.len() > 0 && i > 0 {
        let d = c.drop_first();
        assert forall|j: int| 0 <= j < i - 1 implies (#[trigger] d[j]).0 != name by {
            assert(d[j] == c[j + 1]);
        }
        assert(c[0].0 != name);
        lemma_first_value(d, name, i - 1);
        if i < c.len() {
            assert(d[i - 1] == c[i]);
        }
    }
}

} // verus!
