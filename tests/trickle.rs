use simd_json::OwnedValue;
use simd_json::ValueBuilder;
use tremor_pipeline::batch::Batch;
use tremor_pipeline::config::{collect_params, mk_node_config, NodeConfig, NodeKind};
use tremor_pipeline::error::{Error, ErrorClass};
use tremor_pipeline::event::{CbAction, Event};
use tremor_pipeline::op::Operator;
use tremor_pipeline::passthrough::Passthrough;
use tremor_pipeline::registry::{find_param, operator, OperatorImpl};
use tremor_pipeline::trickle::{OperatorDecl, OperatorKind, Stmt, TrickleOperator};

fn event(id: u64, payload: &str) -> Event {
    Event {
        ids: vec![id],
        ingest_ns: id * 10,
        data: vec![OwnedValue::from(payload)],
        is_batch: false,
        cb: CbAction::Forward,
    }
}

fn decl(module: &str, operation: &str, params: Option<Vec<(String, OwnedValue)>>) -> Stmt {
    Stmt::OperatorDecl(OperatorDecl {
        node_id: "node".to_string(),
        kind: OperatorKind { module: module.to_string(), operation: operation.to_string() },
        params,
    })
}

fn count_params(n: u64) -> Option<Vec<(String, OwnedValue)>> {
    Some(vec![("count".to_string(), OwnedValue::from(n))])
}

fn config(op_type: &str, params: Option<Vec<(String, OwnedValue)>>) -> NodeConfig {
    mk_node_config("node".to_string(), op_type.to_string(), &params)
}

#[test]
fn batch_statement_emits_after_count_events() {
    let stmt = decl("generic", "batch", count_params(2));
    let mut node = TrickleOperator::with_stmt(7, "b".to_string(), &stmt).unwrap();
    assert_eq!(node.id, "b");
    let mut state = OwnedValue::null();
    let first = node.on_event(7, "in", &mut state, event(1, "e1")).unwrap();
    assert!(first.events.is_empty());
    assert!(first.insights.is_empty());
    let second = node.on_event(7, "in", &mut state, event(2, "e2")).unwrap();
    assert_eq!(second.events.len(), 1);
    let (port, out) = &second.events[0];
    assert_eq!(port, "out");
    assert!(out.is_batch);
    assert_eq!(out.ids, vec![1, 2]);
    assert_eq!(out.data, vec![OwnedValue::from("e1"), OwnedValue::from("e2")]);
    assert_eq!(out.ingest_ns, 20);
    assert!(second.insights.is_empty());
    let third = node.on_event(7, "in", &mut state, event(3, "e3")).unwrap();
    assert!(third.events.is_empty());
    assert_eq!(state, OwnedValue::null());
}

#[test]
fn unknown_operator_names_its_key() {
    let stmt = decl("foo", "bar", None);
    match TrickleOperator::with_stmt(1, "x".to_string(), &stmt) {
        Err(Error::UnknownOperator(k)) => assert_eq!(k, "foo::bar"),
        other => panic!("unexpected {:?}", other),
    }
}

#[test]
fn non_operator_statements_are_refused() {
    let stmts = vec![
        Stmt::WindowDecl("w".to_string()),
        Stmt::ScriptDecl("s".to_string()),
        Stmt::Stream("st".to_string()),
        Stmt::Select("sel".to_string()),
    ];
    for s in &stmts {
        let r = TrickleOperator::with_stmt(1, "x".to_string(), s);
        assert!(matches!(r, Err(Error::NonOperatorStmt)));
        assert_eq!(r.unwrap_err().class(), ErrorClass::Pipeline);
    }
}

#[test]
fn capability_flags_are_stable() {
    let stmt = decl("generic", "batch", count_params(3));
    let mut node = TrickleOperator::with_stmt(1, "b".to_string(), &stmt).unwrap();
    let flags = (node.handles_signal(), node.handles_contraflow(), node.skippable());
    assert_eq!(flags, (node.handles_signal(), node.handles_contraflow(), node.skippable()));
    assert_eq!(flags, (false, false, false));
    let mut state = OwnedValue::null();
    node.on_event(1, "in", &mut state, event(1, "a")).unwrap();
    assert_eq!(flags, (node.handles_signal(), node.handles_contraflow(), node.skippable()));

    let pass = TrickleOperator::with_stmt(2, "p".to_string(), &decl("generic", "passthrough", None)).unwrap();
    assert!(pass.skippable());
    assert_eq!(pass.skippable(), pass.skippable());
    assert!(!pass.handles_signal());
    assert!(!pass.handles_contraflow());
}

#[test]
fn adapter_matches_wrapped_operator() {
    let mut direct = Batch::new(2);
    let mut wrapped = TrickleOperator::with_stmt(1, "b".to_string(), &decl("generic", "batch", count_params(2))).unwrap();
    let mut s1 = OwnedValue::from(5u64);
    let mut s2 = OwnedValue::from(5u64);
    for i in 1..6u64 {
        let d = direct.on_event(1, "in", &mut s1, event(i, "p")).unwrap();
        let w = wrapped.on_event(1, "in", &mut s2, event(i, "p")).unwrap();
        assert_eq!(format!("{:?}", d), format!("{:?}", w));
        assert_eq!(s1, s2);
    }
    let tags = vec![("pipeline".to_string(), OwnedValue::from("main"))];
    assert_eq!(direct.metrics(&tags, 9).unwrap(), wrapped.metrics(&tags, 9).unwrap());
    let mut sig1 = event(9, "tick");
    let mut sig2 = event(9, "tick");
    let d = direct.on_signal(1, &mut s1, &mut sig1).unwrap();
    let w = wrapped.on_signal(1, &mut s2, &mut sig2).unwrap();
    assert_eq!(format!("{:?}", d), format!("{:?}", w));
    let mut ins1 = event(1, "ack");
    ins1.cb = CbAction::Ack;
    let mut ins2 = event(1, "ack");
    ins2.cb = CbAction::Ack;
    direct.on_contraflow(1, &mut ins1);
    wrapped.on_contraflow(1, &mut ins2);
    assert_eq!(format!("{:?}", ins1), format!("{:?}", ins2));

    let mut p = Passthrough {};
    let mut pw = TrickleOperator::with_stmt(1, "p".to_string(), &decl("generic", "passthrough", None)).unwrap();
    let d = p.on_event(1, "in", &mut s1, event(4, "x")).unwrap();
    let w = pw.on_event(1, "in", &mut s2, event(4, "x")).unwrap();
    assert_eq!(format!("{:?}", d), format!("{:?}", w));
    assert_eq!(w.events.len(), 1);
    assert_eq!(w.events[0].0, "out");
    assert_eq!(w.events[0].1.ids, vec![4]);
}

#[test]
fn representable_parameter_is_kept() {
    let params = vec![
        ("count".to_string(), OwnedValue::from(2u64)),
        ("name".to_string(), OwnedValue::from("abc")),
        ("flag".to_string(), OwnedValue::from(true)),
    ];
    let c = config("generic::batch", Some(params));
    assert_eq!(c.id, "node");
    assert_eq!(c.kind, NodeKind::Operator);
    assert_eq!(c.op_type, "generic::batch");
    let kept = c.config.unwrap();
    assert_eq!(kept.len(), 3);
    assert_eq!(kept[0].0, "count");
    assert_eq!(kept[0].1, serde_yaml::Value::from(2u64));
    assert_eq!(kept[1].0, "name");
    assert_eq!(kept[1].1, serde_yaml::Value::from("abc"));
    assert_eq!(kept[2].1, serde_yaml::Value::from(true));
}

#[test]
fn unrepresentable_parameter_is_dropped() {
    let params = vec![
        ("bad".to_string(), OwnedValue::from(f64::NAN)),
        ("count".to_string(), OwnedValue::from(4u64)),
    ];
    let kept = config("generic::batch", Some(params)).config.unwrap();
    assert_eq!(kept.len(), 1);
    assert_eq!(kept[0].0, "count");
    assert_eq!(kept[0].1, serde_yaml::Value::from(4u64));
}

#[test]
fn nested_parameter_survives() {
    let inner = OwnedValue::from(vec![OwnedValue::from(1u64), OwnedValue::from("two")]);
    let kept = config("generic::batch", Some(vec![("list".to_string(), inner)])).config.unwrap();
    let expected = serde_yaml::Value::Sequence(vec![serde_yaml::Value::from(1u64), serde_yaml::Value::from("two")]);
    assert_eq!(kept[0].1, expected);
}

#[test]
fn no_parameters_gives_no_config() {
    assert!(config("generic::passthrough", None).config.is_none());
    assert_eq!(config("generic::passthrough", Some(vec![])).config.unwrap().len(), 0);
}

#[test]
fn collect_params_skips_missing_forms() {
    let params = vec![
        ("a".to_string(), OwnedValue::null()),
        ("b".to_string(), OwnedValue::null()),
        ("c".to_string(), OwnedValue::null()),
    ];
    let parsed = vec![Some(serde_yaml::Value::from(1u64)), None, Some(serde_yaml::Value::from("z"))];
    let r = collect_params(&params, parsed);
    assert_eq!(r.len(), 2);
    assert_eq!(r[0], ("a".to_string(), serde_yaml::Value::from(1u64)));
    assert_eq!(r[1], ("c".to_string(), serde_yaml::Value::from("z")));
}

#[test]
fn factory_builds_registered_keys() {
    match operator(1, &config("generic::passthrough", None)) {
        Ok(OperatorImpl::Passthrough(_)) => {}
        other => panic!("unexpected {:?}", other),
    }
    match operator(1, &config("generic::batch", count_params(5))) {
        Ok(OperatorImpl::Batch(b)) => {
            assert_eq!(b.count, 5);
            assert_eq!(b.buffered, 0);
        }
        other => panic!("unexpected {:?}", other),
    }
    match operator(1, &config("foo::bar", None)) {
        Err(e) => {
            assert_eq!(e.class(), ErrorClass::Config);
            assert!(matches!(e, Error::UnknownOperator(ref k) if k == "foo::bar"));
        }
        other => panic!("unexpected {:?}", other),
    }
}

#[test]
fn batch_needs_positive_count() {
    for params in [None, count_params(0), Some(vec![("count".to_string(), OwnedValue::from("two"))])] {
        match operator(1, &config("generic::batch", params)) {
            Err(Error::InvalidConfig(p)) => assert_eq!(p, "count"),
            other => panic!("unexpected {:?}", other),
        }
    }
    assert!(matches!(Batch::from_count(Some(0)), Err(Error::InvalidConfig(_))));
    assert!(matches!(Batch::from_count(None), Err(Error::InvalidConfig(_))));
    assert_eq!(Batch::from_count(Some(3)).unwrap().count, 3);
}

#[test]
fn find_param_takes_first_match() {
    let ps = vec![
        ("x".to_string(), serde_yaml::Value::from(1u64)),
        ("count".to_string(), serde_yaml::Value::from(2u64)),
        ("count".to_string(), serde_yaml::Value::from(3u64)),
    ];
    assert_eq!(find_param(&ps, "count"), Some(&serde_yaml::Value::from(2u64)));
    assert_eq!(find_param(&ps, "y"), None);
}

#[test]
fn batch_of_one_forwards_each_event() {
    let mut b = Batch::new(1);
    let mut state = OwnedValue::null();
    let r = b.on_event(1, "in", &mut state, event(11, "only")).unwrap();
    assert_eq!(r.events.len(), 1);
    assert_eq!(r.events[0].1.ids, vec![11]);
    assert_eq!(r.events[0].1.data, vec![OwnedValue::from("only")]);
}

#[test]
fn error_classes() {
    assert_eq!(Error::UnknownOperator("k".to_string()).class(), ErrorClass::Config);
    assert_eq!(Error::InvalidConfig("count".to_string()).class(), ErrorClass::Config);
    assert_eq!(Error::NonOperatorStmt.class(), ErrorClass::Pipeline);
    assert_eq!(Error::Operator("bad".to_string()).class(), ErrorClass::Operator);
}

#[test]
fn batch_reads_first_count_parameter() {
    let params = Some(vec![
        ("count".to_string(), OwnedValue::from(3u64)),
        ("count".to_string(), OwnedValue::from(5u64)),
    ]);
    match operator(1, &config("generic::batch", params)) {
        Ok(OperatorImpl::Batch(b)) => assert_eq!(b.count, 3),
        other => panic!("unexpected {:?}", other),
    }
    let stmt = decl("generic", "batch", count_params(4));
    match TrickleOperator::with_stmt(1, "b".to_string(), &stmt).unwrap().op {
        OperatorImpl::Batch(b) => assert_eq!(b.count, 4),
        other => panic!("unexpected {:?}", other),
    }
}

#[test]
fn distinct_parameter_names_stay_distinct() {
    let params = vec![
        ("a".to_string(), OwnedValue::from(1u64)),
        ("b".to_string(), OwnedValue::from(f64::INFINITY)),
        ("c".to_string(), OwnedValue::from(3u64)),
    ];
    let kept = config("generic::batch", Some(params)).config.unwrap();
    let names: Vec<&str> = kept.iter().map(|p| p.0.as_str()).collect();
    assert_eq!(names, vec!["a", "c"]);
}
