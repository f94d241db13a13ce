use z8run::boundary::Catalog;
use z8run::envelope::{Envelope, Role};
use z8run::error::Z8Error;
use z8run::handles::LanceRegistry;
use z8run::json::{Json, JsonNumber};
use z8run::nodes::{factory, Format, Op, Resolver, Step, NODE_TYPES};
use z8run::plan::{
    AxisRole, CmpOp, CoordSpec, FieldId, MaskId, Measure, MeasureKind, RowRange, Scalar,
    Selection, SourceId, SourceRef, TopK,
};
use z8run::stats::RegistryStats;
use z8run::text::{decimal, str_eq};

type Registry = LanceRegistry<&'static str, String, String, u64>;

const A: FieldId = FieldId(1);
const B: FieldId = FieldId(2);
const V: FieldId = FieldId(3);

fn obj(entries: Vec<(&str, Json)>) -> Json {
    Json::Object(entries.into_iter().map(|(k, v)| (k.to_string(), v)).collect())
}

fn s(t: &str) -> Json {
    Json::String(t.to_string())
}

fn u(n: u64) -> Json {
    Json::Number(JsonNumber::PosInt(n))
}

fn i(n: i64) -> Json {
    if n >= 0 {
        Json::Number(JsonNumber::PosInt(n as u64))
    } else {
        Json::Number(JsonNumber::NegInt(n))
    }
}

fn message(e: Z8Error) -> String {
    match e {
        Z8Error::Internal(m) => m,
    }
}

/// A registry with the synthetic source published and its fields named.
fn registry() -> Registry {
    let mut reg = Registry::new();
    reg.set_catalog(Catalog::new().with("a", A).with("b", B).with("v", V));
    for (o, l) in ["a0", "a1", "a2", "a3"].iter().enumerate() {
        reg.define_label(A, l, o as u32);
    }
    reg.publish("synthetic", SourceRef { id: SourceId(5), generation: 1 }, "batch-1");
    reg
}

fn plan_envelope(reg: &mut Registry) -> Envelope {
    let src = reg.current(SourceId(5)).unwrap();
    reg.put_plan(src, "plan".to_string())
}

#[test]
fn envelope_round_trips_through_its_json() {
    let e = Envelope { role: Role::Result, handle: 17, generation: 4, source: SourceId(9) };
    let j = e.to_json();
    assert_eq!(Envelope::from_json(&j).unwrap(), e);
    match &j {
        Json::Object(entries) => {
            let keys: Vec<&str> = entries.iter().map(|(k, _)| k.as_str()).collect();
            assert_eq!(keys, vec!["$kind", "generation", "handle", "role", "source"]);
        }
        _ => panic!("an envelope is an object"),
    }
}

#[test]
fn envelope_parse_refuses_what_is_not_an_envelope() {
    let bad = "expected a {\"$kind\":\"lance-abi\"} envelope";
    let ok = obj(vec![
        ("$kind", s("lance-abi")),
        ("role", s("plan")),
        ("handle", u(3)),
        ("generation", u(2)),
        ("source", u(1)),
    ]);
    let e = Envelope::from_json(&ok).unwrap();
    assert_eq!(e, Envelope { role: Role::Plan, handle: 3, generation: 2, source: SourceId(1) });
    for v in [
        obj(vec![("$kind", s("other")), ("role", s("plan")), ("handle", u(3)), ("generation", u(2)), ("source", u(1))]),
        obj(vec![("$kind", s("lance-abi")), ("role", s("view")), ("handle", u(3)), ("generation", u(2)), ("source", u(1))]),
        obj(vec![("$kind", s("lance-abi")), ("role", s("plan")), ("handle", i(-3)), ("generation", u(2)), ("source", u(1))]),
        obj(vec![("$kind", s("lance-abi")), ("role", s("plan")), ("handle", u(3)), ("generation", u(1 << 32)), ("source", u(1))]),
        obj(vec![("$kind", s("lance-abi")), ("role", s("plan")), ("handle", u(3)), ("generation", u(2))]),
        s("lance-abi"),
        Json::Null,
    ] {
        assert_eq!(message(Envelope::from_json(&v).unwrap_err()), bad);
    }
}

#[test]
fn republished_source_invalidates_old_handles() {
    let mut reg = registry();
    let env = plan_envelope(&mut reg);
    assert_eq!(reg.plan(&env).unwrap(), "plan");
    reg.publish("synthetic", SourceRef { id: SourceId(5), generation: 2 }, "batch-2");
    let e = message(reg.plan(&env).unwrap_err());
    assert!(e.contains("stale lance handle"), "{e}");
    assert_eq!(e, "stale lance handle: source 5 is at generation 2, handle minted at 1");
    assert_eq!(*reg.batch(SourceId(5)).unwrap(), "batch-2");
}

#[test]
fn handles_are_fresh_and_read_back() {
    let mut reg = registry();
    let src = reg.current(SourceId(5)).unwrap();
    let p = reg.put_plan(src, "p".to_string());
    let r = reg.put_result(src, "r".to_string());
    assert_eq!(p.handle, 1);
    assert_eq!(r.handle, 2);
    assert_eq!(p.role, Role::Plan);
    assert_eq!(r.role, Role::Result);
    assert_eq!(reg.plan(&p).unwrap(), "p");
    assert_eq!(reg.result(&r).unwrap(), "r");
    assert_eq!(message(reg.plan(&r).unwrap_err()), "no lance plan handle 2");
    assert_eq!(message(reg.result(&p).unwrap_err()), "no lance result handle 1");
    let gone = Envelope { source: SourceId(6), ..p };
    assert_eq!(message(reg.plan(&gone).unwrap_err()), "no lance source 6");
    assert_eq!(message(reg.batch(SourceId(6)).unwrap_err()), "no lance source 6");
}

#[test]
fn source_names_resolve_to_the_latest_publication() {
    let mut reg = registry();
    assert_eq!(reg.source_id("synthetic").unwrap(), SourceId(5));
    reg.publish("synthetic", SourceRef { id: SourceId(7), generation: 1 }, "other");
    assert_eq!(reg.source_id("synthetic").unwrap(), SourceId(7));
    assert_eq!(
        message(reg.source_id("missing").unwrap_err()),
        "no lance source published as 'missing'"
    );
}

#[test]
fn republishing_drops_the_folds_of_that_source_only() {
    let mut reg = registry();
    reg.publish("other", SourceRef { id: SourceId(8), generation: 1 }, "o");
    reg.remember(SourceId(5), 100, "fold-5".to_string());
    reg.remember(SourceId(8), 200, "fold-8".to_string());
    assert_eq!(reg.cached(&100).unwrap(), "fold-5");
    reg.remember(SourceId(5), 100, "fold-5b".to_string());
    assert_eq!(reg.cached(&100).unwrap(), "fold-5b");
    reg.publish("synthetic", SourceRef { id: SourceId(5), generation: 2 }, "batch-2");
    assert!(reg.cached(&100).is_none());
    assert_eq!(reg.cached(&200).unwrap(), "fold-8");
    assert_eq!(reg.cache_hits(), 0);
}

#[test]
fn stats_count_what_is_recorded() {
    let stats = RegistryStats::new();
    stats.record_execution();
    stats.record_execution();
    stats.record_reinterpretation();
    assert_eq!(RegistryStats::get(&stats.executions), 2);
    assert_eq!(RegistryStats::get(&stats.reinterpretations), 1);
    assert_eq!(RegistryStats::get(&stats.cache_hits), 0);
}

fn configure(reg: &Registry, node: &str, cfg: Json) -> Result<Op, Z8Error> {
    Resolver { reg }.op(node, &cfg)
}

#[test]
fn filters_resolve_names_and_labels_to_ids() {
    let reg = registry();
    match configure(&reg, "lance-filter", obj(vec![("field", s("v")), ("op", s("ge")), ("value", u(10))])).unwrap() {
        Op::Filter(Selection::Cmp { field, op, value }) => {
            assert_eq!((field, op, value), (V, CmpOp::Ge, Scalar::Int(10)));
        }
        o => panic!("{o:?}"),
    }
    match configure(&reg, "lance-filter", obj(vec![("field", s("a")), ("op", s("ne")), ("value", s("a3"))])).unwrap() {
        Op::Filter(Selection::Cmp { field, op, value }) => {
            assert_eq!((field, op, value), (A, CmpOp::Ne, Scalar::Ordinal(3)));
        }
        o => panic!("{o:?}"),
    }
    // An absent op means equality.
    match configure(&reg, "lance-filter", obj(vec![("field", s("v")), ("value", i(-4))])).unwrap() {
        Op::Filter(Selection::Cmp { op, value, .. }) => {
            assert_eq!((op, value), (CmpOp::Eq, Scalar::Int(-4)));
        }
        o => panic!("{o:?}"),
    }
    match configure(&reg, "lance-filter", obj(vec![("op", s("range")), ("lo", u(2)), ("hi", u(9)), ("not", Json::Bool(true))])).unwrap() {
        Op::Filter(Selection::AndNot(a, b)) => {
            assert!(matches!(*a, Selection::All));
            assert!(matches!(*b, Selection::Range(RowRange { lo: 2, hi: 9 })));
        }
        o => panic!("{o:?}"),
    }
    match configure(&reg, "lance-filter", obj(vec![("op", s("mask")), ("mask", u(4))])).unwrap() {
        Op::Filter(Selection::Mask(m)) => assert_eq!(m, MaskId(4)),
        o => panic!("{o:?}"),
    }
    match configure(&reg, "lance-filter", obj(vec![("op", s("in")), ("field", s("a")), ("values", Json::Array(vec![s("a1"), u(7)]))])).unwrap() {
        Op::Filter(Selection::In { field, values }) => {
            assert_eq!(field, A);
            assert_eq!(values, vec![Scalar::Ordinal(1), Scalar::Int(7)]);
        }
        o => panic!("{o:?}"),
    }
}

#[test]
fn filter_errors_name_what_is_missing() {
    let reg = registry();
    let err = |cfg: Json| message(configure(&reg, "lance-filter", cfg).unwrap_err());
    assert_eq!(err(obj(vec![("op", s("range")), ("hi", u(9))])), "range needs 'lo'");
    assert_eq!(err(obj(vec![("op", s("range")), ("lo", u(1)), ("hi", u(1 << 32))])), "range needs 'hi'");
    assert_eq!(err(obj(vec![("op", s("mask"))])), "mask needs an id");
    assert_eq!(err(obj(vec![("op", s("in")), ("field", s("a"))])), "'in' needs 'values'");
    assert_eq!(err(obj(vec![("op", s("in")), ("field", s("a")), ("values", Json::Array(vec![s("zz")]))])), "label 'zz' has no ordinal in 1");
    assert_eq!(err(obj(vec![("op", s("like")), ("field", s("a")), ("value", u(1))])), "unknown filter op 'like'");
    assert_eq!(err(obj(vec![("op", s("like")), ("value", u(1))])), "missing 'field'");
    assert_eq!(err(obj(vec![("field", s("nope")), ("value", u(1))])), "unknown lance field 'nope'");
    assert_eq!(err(obj(vec![("field", s("v"))])), "filter needs 'value'");
    assert_eq!(err(obj(vec![("field", s("v")), ("value", Json::Bool(true))])), "literal must be int or label");
}

#[test]
fn axes_measures_and_top_k_configure() {
    let reg = registry();
    match configure(&reg, "lance-axis", obj(vec![("coord", s("a")), ("role", s("column"))])).unwrap() {
        Op::Axis(c, r) => assert_eq!((c, r), (CoordSpec::Field(A), AxisRole::Column)),
        o => panic!("{o:?}"),
    }
    let bucket = obj(vec![("origin", i(-10)), ("width", u(5)), ("count", u(4))]);
    match configure(&reg, "lance-axis", obj(vec![("coord", obj(vec![("field", s("v")), ("bucket", bucket)]))])).unwrap() {
        Op::Axis(c, r) => assert_eq!(
            (c, r),
            (CoordSpec::Bucket { field: V, origin: -10, width: 5, count: 4 }, AxisRole::Row)
        ),
        o => panic!("{o:?}"),
    }
    let e = configure(&reg, "lance-axis", obj(vec![("coord", s("a")), ("role", s("diagonal"))])).unwrap_err();
    assert_eq!(message(e), "unknown role 'diagonal'");
    let e = configure(&reg, "lance-axis", obj(vec![("coord", obj(vec![("field", s("v")), ("bucket", obj(vec![("origin", u(0)), ("width", u(1))]))]))])).unwrap_err();
    assert_eq!(message(e), "bucket needs 'count'");
    let e = configure(&reg, "lance-axis", obj(vec![("coord", u(3))])).unwrap_err();
    assert_eq!(message(e), "a coordinate is a field name or {field, bucket?}");
    assert_eq!(message(configure(&reg, "lance-axis", obj(vec![])).unwrap_err()), "axis needs 'coord'");

    match configure(&reg, "lance-measure", obj(vec![("op", s("sum")), ("field", s("v"))])).unwrap() {
        Op::Measure(m) => assert_eq!(m, Measure::Of(MeasureKind::Sum, V)),
        o => panic!("{o:?}"),
    }
    match configure(&reg, "lance-measure", obj(vec![("op", s("avg")), ("field", s("v"))])).unwrap() {
        Op::Measure(m) => assert_eq!(m, Measure::Of(MeasureKind::Mean, V)),
        o => panic!("{o:?}"),
    }
    assert!(matches!(configure(&reg, "lance-measure", obj(vec![])).unwrap(), Op::Measure(Measure::Count)));
    assert_eq!(message(configure(&reg, "lance-measure", obj(vec![("op", s("median"))])).unwrap_err()), "unknown measure 'median'");

    match configure(&reg, "lance-top-k", obj(vec![("k", u(3))])).unwrap() {
        Op::TopK(t) => assert_eq!(t, TopK { measure: 0, k: 3, descending: true }),
        o => panic!("{o:?}"),
    }
    match configure(&reg, "lance-top-k", obj(vec![("k", u(2)), ("measure", u(1)), ("descending", Json::Bool(false))])).unwrap() {
        Op::TopK(t) => assert_eq!(t, TopK { measure: 1, k: 2, descending: false }),
        o => panic!("{o:?}"),
    }
    assert_eq!(message(configure(&reg, "lance-top-k", obj(vec![])).unwrap_err()), "top-k needs 'k'");

    match configure(&reg, "lance-source", obj(vec![("source", s("synthetic"))])).unwrap() {
        Op::Source(id) => assert_eq!(id, SourceId(5)),
        o => panic!("{o:?}"),
    }
    assert_eq!(message(configure(&reg, "lance-source", obj(vec![])).unwrap_err()), "source needs a name");
    assert_eq!(message(configure(&reg, "lance-join", obj(vec![])).unwrap_err()), "not a lance node type 'lance-join'");
}

#[test]
fn pivots_list_coordinates_or_rotate() {
    let reg = registry();
    match configure(&reg, "lance-pivot", obj(vec![("rows", Json::Array(vec![s("b")])), ("columns", Json::Array(vec![s("a")]))])).unwrap() {
        Op::Pivot { rows, columns, pages } => {
            assert_eq!(rows, vec![CoordSpec::Field(B)]);
            assert_eq!(columns, vec![CoordSpec::Field(A)]);
            assert!(pages.is_empty());
        }
        o => panic!("{o:?}"),
    }
    assert!(matches!(configure(&reg, "lance-pivot", obj(vec![("rotate", Json::Bool(true))])).unwrap(), Op::Rotate));
    let e = configure(&reg, "lance-pivot", obj(vec![("rows", Json::Array(vec![s("a"), s("zz")]))])).unwrap_err();
    assert_eq!(message(e), "unknown lance field 'zz'");
}

#[test]
fn materialize_refuses_a_plan_handle() {
    let mut reg = registry();
    let env = plan_envelope(&mut reg);
    let node = factory("lance-materialize").create(&reg, &obj(vec![("format", s("csv"))])).unwrap();
    let e = message(node.step(&env.to_json()).unwrap_err());
    assert!(e.contains("needs a result handle"), "{e}");
}

#[test]
fn paged_output_is_refused_and_points_at_ogar_composition() {
    let reg = registry();
    for f in ["html", "typst", "pdf"] {
        let e = factory("lance-materialize").create(&reg, &obj(vec![("format", s(f))]));
        let e = message(e.err().expect("html must not configure"));
        assert!(e.contains("OGAR composition"), "{e}");
    }
    for (f, want) in [("json", Format::Json), ("csv", Format::Csv)] {
        let n = factory("lance-materialize").create(&reg, &obj(vec![("format", s(f))])).unwrap();
        let mut reg2 = registry();
        let src = reg2.current(SourceId(5)).unwrap();
        let r = reg2.put_result(src, "r".to_string());
        assert_eq!(n.step(&r.to_json()).unwrap(), Step::Materialize(r, want));
    }
    let e = factory("lance-materialize").create(&reg, &obj(vec![("format", s("xml"))])).err().unwrap();
    assert_eq!(message(e), "unknown format 'xml'");
}

#[test]
fn pivot_on_a_result_is_a_re_view_and_plans_are_rewritten() {
    let mut reg = registry();
    let src = reg.current(SourceId(5)).unwrap();
    let plan = reg.put_plan(src, "p".to_string());
    let result = reg.put_result(src, "r".to_string());
    let pivot = factory("lance-pivot").create(&reg, &obj(vec![("rows", Json::Array(vec![s("a")]))])).unwrap();
    assert_eq!(pivot.step(&result.to_json()).unwrap(), Step::Review(result));
    assert_eq!(pivot.step(&plan.to_json()).unwrap(), Step::Rewrite(plan));
    let rotate = factory("lance-pivot").create(&reg, &obj(vec![("rotate", Json::Bool(true))])).unwrap();
    assert_eq!(rotate.step(&result.to_json()).unwrap(), Step::Rotate(result));
    let exec = factory("lance-execute").create(&reg, &obj(vec![])).unwrap();
    assert_eq!(exec.step(&plan.to_json()).unwrap(), Step::Execute(plan));
    let e = message(exec.step(&result.to_json()).unwrap_err());
    assert_eq!(e, "lance-execute does not accept a result handle");
    let top = factory("lance-top-k").create(&reg, &obj(vec![("k", u(5))])).unwrap();
    assert_eq!(
        top.step(&result.to_json()).unwrap(),
        Step::Order(result, TopK { measure: 0, k: 5, descending: true })
    );
    let source = factory("lance-source").create(&reg, &obj(vec![("source", s("synthetic"))])).unwrap();
    assert_eq!(source.step(&Json::Null).unwrap(), Step::Open(SourceId(5)));
    assert_eq!(source.node_type(), "lance-source");
    assert_eq!(plan.source_ref(), src);
}

#[test]
fn a_failed_configuration_leaves_the_node_as_it_was() {
    let reg = registry();
    let mut node = factory("lance-filter").create(&reg, &obj(vec![("field", s("v")), ("value", u(1))])).unwrap();
    assert!(node.configure(&reg, &obj(vec![("field", s("nope")), ("value", u(1))])).is_err());
    let mut r2 = registry();
    let src = r2.current(SourceId(5)).unwrap();
    let plan = r2.put_plan(src, "p".to_string());
    assert_eq!(node.step(&plan.to_json()).unwrap(), Step::Rewrite(plan));
    assert_eq!(NODE_TYPES.len(), 8);
    for t in NODE_TYPES {
        assert_eq!(factory(t).node_type(), t);
    }
}

#[test]
fn text_helpers() {
    assert_eq!(decimal(0), "0");
    assert_eq!(decimal(1121), "1121");
    assert_eq!(decimal(u64::MAX), "18446744073709551615");
    assert!(str_eq("ümlaut ✓", "ümlaut ✓"));
    assert!(!str_eq("a", "b"));
    assert!(!str_eq("ab", "a"));
}

#[test]
fn json_accessors_follow_the_number_shapes() {
    assert_eq!(u(5).as_i64(), Some(5));
    assert_eq!(u(u64::MAX).as_i64(), None);
    assert_eq!(u(u64::MAX).as_u64(), Some(u64::MAX));
    assert_eq!(i(-5).as_u64(), None);
    assert_eq!(i(-5).as_i64(), Some(-5));
    let f = Json::Number(JsonNumber::Float(1.5f64.to_bits()));
    assert_eq!(f.as_i64(), None);
    assert_eq!(f.as_u64(), None);
    let o = obj(vec![("k", u(1)), ("k", u(2))]);
    assert_eq!(o.get("k").unwrap().as_u64(), Some(1));
    assert!(o.get("x").is_none());
    assert!(Json::Null.is_null());
    assert!(o.is_object());
    assert_eq!(s("x").as_str(), Some("x"));
    assert_eq!(Json::Bool(true).as_bool(), Some(true));
    assert!(Json::Array(vec![]).as_array().unwrap().is_empty());
}

#[test]
fn a_rotated_plan_reuses_the_fold_its_twin_paid_for() {
    let mut reg = registry();
    let fold = |p: &String, b: &&str| -> Result<String, Z8Error> { Ok(format!("fold({p} over {b})")) };
    let view = |r: &String, p: &String| -> Result<String, Z8Error> { Ok(format!("view({r} as {p})")) };
    let first = reg.execute(SourceId(5), &"plan".to_string(), 42, view, fold).unwrap();
    assert_eq!(first, "fold(plan over batch-1)");
    let second = reg.execute(SourceId(5), &"rotated".to_string(), 42, view, fold).unwrap();
    assert_eq!(second, "view(fold(plan over batch-1) as rotated)");
    assert_eq!(reg.executions(), 1);
    assert_eq!(reg.cache_hits(), 1);
    let e = reg.execute(SourceId(9), &"plan".to_string(), 7, view, fold).unwrap_err();
    assert_eq!(message(e), "no lance source 9");
    let failing = |_: &String, _: &&str| -> Result<String, Z8Error> { Err(Z8Error::Internal("boom".to_string())) };
    assert_eq!(message(reg.execute(SourceId(5), &"p".to_string(), 8, view, failing).unwrap_err()), "boom");
    assert!(reg.cached(&8).is_none());
    assert_eq!(reg.executions(), 1);
    assert_eq!(reg.cache_hits(), 1);
    assert_eq!(reg.reinterpretations(), 0);
}

#[test]
fn a_new_registry_counts_nothing() {
    let reg = registry();
    assert_eq!((reg.executions(), reg.cache_hits(), reg.reinterpretations()), (0, 0, 0));
}

#[test]
fn a_trigger_opens_a_plan_at_the_current_generation() {
    let mut reg = registry();
    let env = reg.open_plan(SourceId(5), |s: SourceRef| format!("over {} at {}", s.id.0, s.generation)).unwrap();
    assert_eq!(env, Envelope { role: Role::Plan, handle: 1, generation: 1, source: SourceId(5) });
    assert_eq!(reg.plan(&env).unwrap(), "over 5 at 1");
    assert_eq!(message(reg.open_plan(SourceId(9), |_: SourceRef| String::new()).unwrap_err()), "no lance source 9");
    assert_eq!(reg.next(), 2);
}

#[test]
fn a_rewrite_mints_a_new_plan_and_keeps_the_old_one() {
    let mut reg = registry();
    let e1 = reg.open_plan(SourceId(5), |_: SourceRef| "p".to_string()).unwrap();
    let e2 = reg.rewrite_plan(&e1, &"filter", |p: &String, a: &&str| -> Result<String, Z8Error> { Ok(format!("{p}+{a}")) }).unwrap();
    assert_eq!(e2, Envelope { role: Role::Plan, handle: 2, generation: 1, source: SourceId(5) });
    assert_eq!(reg.plan(&e2).unwrap(), "p+filter");
    assert_eq!(reg.plan(&e1).unwrap(), "p");
    let failing = |_: &String, _: &()| -> Result<String, Z8Error> { Err(Z8Error::Internal("no".to_string())) };
    assert_eq!(message(reg.rewrite_plan(&e1, &(), failing).unwrap_err()), "no");
    assert_eq!(reg.next(), 3);
}

#[test]
fn a_stale_plan_handle_is_refused_and_mints_nothing() {
    let mut reg = registry();
    let e1 = reg.open_plan(SourceId(5), |_: SourceRef| "p".to_string()).unwrap();
    reg.publish("synthetic", SourceRef { id: SourceId(5), generation: 2 }, "batch-2");
    let fold = |p: &String, b: &&str| -> Result<String, Z8Error> { Ok(format!("fold({p} over {b})")) };
    let view = |r: &String, _: &String| -> Result<String, Z8Error> { Ok(r.clone()) };
    let e = reg.execute_plan(&e1, |_: &String| 42u64, view, fold).unwrap_err();
    assert_eq!(message(e), "stale lance handle: source 5 is at generation 2, handle minted at 1");
    let e = reg.rewrite_plan(&e1, &(), |p: &String, _: &()| -> Result<String, Z8Error> { Ok(p.clone()) }).unwrap_err();
    assert!(message(e).contains("stale lance handle"));
    assert_eq!(reg.next(), 2);
    assert_eq!((reg.executions(), reg.cache_hits()), (0, 0));
}

#[test]
fn executing_a_plan_registers_a_result_and_reuses_the_fold() {
    let mut reg = registry();
    let e1 = reg.open_plan(SourceId(5), |_: SourceRef| "p".to_string()).unwrap();
    let e2 = reg.rewrite_plan(&e1, &(), |p: &String, _: &()| -> Result<String, Z8Error> { Ok(format!("{p}-rotated")) }).unwrap();
    let fold = |p: &String, b: &&str| -> Result<String, Z8Error> { Ok(format!("fold({p} over {b})")) };
    let view = |r: &String, p: &String| -> Result<String, Z8Error> { Ok(format!("view({r} as {p})")) };
    let r1 = reg.execute_plan(&e1, |_: &String| 42u64, view, fold).unwrap();
    assert_eq!(r1, Envelope { role: Role::Result, handle: 3, generation: 1, source: SourceId(5) });
    assert_eq!(reg.result(&r1).unwrap(), "fold(p over batch-1)");
    let r2 = reg.execute_plan(&e2, |_: &String| 42u64, view, fold).unwrap();
    assert_eq!(r2.handle, 4);
    assert_eq!(reg.result(&r2).unwrap(), "view(fold(p over batch-1) as p-rotated)");
    assert_eq!((reg.executions(), reg.cache_hits()), (1, 1));
    assert!(reg.execute_plan(&r2, |_: &String| 42u64, view, fold).is_err());
}

#[test]
fn a_rotated_result_keeps_its_source_and_counts_a_reinterpretation() {
    let mut reg = registry();
    let e1 = reg.open_plan(SourceId(5), |_: SourceRef| "p".to_string()).unwrap();
    let fold = |p: &String, b: &&str| -> Result<String, Z8Error> { Ok(format!("fold({p} over {b})")) };
    let view = |r: &String, _: &String| -> Result<String, Z8Error> { Ok(r.clone()) };
    let r1 = reg.execute_plan(&e1, |_: &String| 1u64, view, fold).unwrap();
    let rot = |r: &String, _: &()| -> Result<String, Z8Error> { Ok(format!("rotate({r})")) };
    let r2 = reg.review_result(&r1, &(), rot, true).unwrap();
    assert_eq!(r2, Envelope { role: Role::Result, handle: 3, generation: 1, source: SourceId(5) });
    assert_eq!(reg.result(&r2).unwrap(), "rotate(fold(p over batch-1))");
    assert_eq!(reg.reinterpretations(), 1);
    let r3 = reg.review_result(&r2, &(), rot, false).unwrap();
    assert_eq!(r3.handle, 4);
    assert_eq!(reg.reinterpretations(), 1);
    assert_eq!(reg.executions(), 1);
    assert_eq!(message(reg.review_result(&e1, &(), rot, true).unwrap_err()), "no lance result handle 1");
    assert_eq!(reg.next(), 5);
}

struct Engine;

impl Engine {
    fn make(s: SourceRef) -> String {
        format!("plan({}@{})", s.id.0, s.generation)
    }
    fn rewrite(p: &String, op: &Op) -> Result<String, Z8Error> {
        Ok(format!("{p}+{}", Engine::name(op)))
    }
    fn review(r: &String, op: &Op) -> Result<String, Z8Error> {
        Ok(format!("{}({r})", Engine::name(op)))
    }
    fn name(op: &Op) -> &'static str {
        match op {
            Op::Filter(_) => "filter",
            Op::Axis(..) => "axis",
            Op::Measure(_) => "measure",
            Op::Pivot { .. } => "pivot",
            Op::Rotate => "rotate",
            Op::TopK(_) => "top-k",
            _ => "other",
        }
    }
    fn key(_: &String) -> u64 {
        42
    }
    fn reinterpret(r: &String, p: &String) -> Result<String, Z8Error> {
        Ok(format!("view({r} as {p})"))
    }
    fn fold(p: &String, b: &&str) -> Result<String, Z8Error> {
        Ok(format!("fold({p} over {b})"))
    }
}

fn advance(node: &z8run::nodes::LanceNode, reg: &mut Registry, payload: &Json) -> Result<z8run::nodes::Handoff, Z8Error> {
    node.advance(reg, payload, Engine::make, Engine::rewrite, Engine::review, Engine::key, Engine::reinterpret, Engine::fold)
}

fn handle(h: Result<z8run::nodes::Handoff, Z8Error>) -> Envelope {
    match h.unwrap() {
        z8run::nodes::Handoff::Handle(e) => e,
        z8run::nodes::Handoff::Export(..) => panic!("expected a handle"),
    }
}

#[test]
fn a_flow_hands_envelopes_from_node_to_node() {
    let mut reg = registry();
    let source = factory("lance-source").create(&reg, &obj(vec![("source", s("synthetic"))])).unwrap();
    let plan = handle(advance(&source, &mut reg, &obj(vec![])));
    assert_eq!(plan, Envelope { role: Role::Plan, handle: 1, generation: 1, source: SourceId(5) });
    assert_eq!(reg.plan(&plan).unwrap(), "plan(5@1)");
    let pivot = factory("lance-pivot").create(&reg, &obj(vec![("rows", Json::Array(vec![s("a")]))])).unwrap();
    let plan2 = handle(advance(&pivot, &mut reg, &plan.to_json()));
    assert_eq!(plan2, Envelope { role: Role::Plan, handle: 2, generation: 1, source: SourceId(5) });
    assert_eq!(reg.plan(&plan2).unwrap(), "plan(5@1)+pivot");
    let exec = factory("lance-execute").create(&reg, &obj(vec![])).unwrap();
    let result = handle(advance(&exec, &mut reg, &plan2.to_json()));
    assert_eq!(result, Envelope { role: Role::Result, handle: 3, generation: 1, source: SourceId(5) });
    assert_eq!(reg.result(&result).unwrap(), "fold(plan(5@1)+pivot over batch-1)");
    let again = handle(advance(&exec, &mut reg, &plan.to_json()));
    assert_eq!(reg.result(&again).unwrap(), "view(fold(plan(5@1)+pivot over batch-1) as plan(5@1))");
    assert_eq!((reg.executions(), reg.cache_hits()), (1, 1));
    let rotate = factory("lance-pivot").create(&reg, &obj(vec![("rotate", Json::Bool(true))])).unwrap();
    let rotated = handle(advance(&rotate, &mut reg, &result.to_json()));
    assert_eq!(rotated, Envelope { role: Role::Result, handle: 5, generation: 1, source: SourceId(5) });
    assert_eq!(reg.reinterpretations(), 1);
    let out = factory("lance-materialize").create(&reg, &obj(vec![("format", s("csv"))])).unwrap();
    assert_eq!(
        advance(&out, &mut reg, &rotated.to_json()).unwrap(),
        z8run::nodes::Handoff::Export(rotated, Format::Csv)
    );
    assert_eq!(reg.next(), 6);
}

#[test]
fn a_republished_source_refuses_old_handles_and_mints_nothing() {
    let mut reg = registry();
    let source = factory("lance-source").create(&reg, &obj(vec![("source", s("synthetic"))])).unwrap();
    let plan = handle(advance(&source, &mut reg, &obj(vec![])));
    reg.publish("synthetic", SourceRef { id: SourceId(5), generation: 2 }, "batch-2");
    let exec = factory("lance-execute").create(&reg, &obj(vec![])).unwrap();
    let e = message(advance(&exec, &mut reg, &plan.to_json()).unwrap_err());
    assert!(e.contains("stale lance handle"));
    assert_eq!(reg.next(), 2);
    assert_eq!((reg.executions(), reg.cache_hits()), (0, 0));
    let fresh = handle(advance(&source, &mut reg, &obj(vec![])));
    assert_eq!(fresh, Envelope { role: Role::Plan, handle: 2, generation: 2, source: SourceId(5) });
    let e = message(advance(&exec, &mut reg, &Json::Null).unwrap_err());
    assert!(!e.is_empty());
    assert_eq!(reg.next(), 3);
}

#[test]
fn a_rewrite_keeps_the_source_the_plan_was_made_over() {
    let mut reg = registry();
    reg.publish("other", SourceRef { id: SourceId(8), generation: 7 }, "batch-8");
    let e1 = reg.open_plan(SourceId(5), |_: SourceRef| "p".to_string()).unwrap();
    let forged = Envelope { role: Role::Plan, handle: e1.handle, generation: 7, source: SourceId(8) };
    let e2 = reg.rewrite_plan(&forged, &(), |p: &String, _: &()| -> Result<String, Z8Error> { Ok(p.clone()) }).unwrap();
    assert_eq!(e2, Envelope { role: Role::Plan, handle: 2, generation: 1, source: SourceId(5) });
    let fold = |p: &String, b: &&str| -> Result<String, Z8Error> { Ok(format!("fold({p} over {b})")) };
    let view = |r: &String, _: &String| -> Result<String, Z8Error> { Ok(r.clone()) };
    let r = reg.execute_plan(&forged, |_: &String| 1u64, view, fold).unwrap();
    assert_eq!(r, Envelope { role: Role::Result, handle: 3, generation: 1, source: SourceId(5) });
    assert_eq!(reg.result(&r).unwrap(), "fold(p over batch-1)");
}

#[test]
fn a_plan_node_hands_its_own_operation_to_the_engine() {
    let mut reg = registry();
    let source = factory("lance-source").create(&reg, &obj(vec![("source", s("synthetic"))])).unwrap();
    let plan = handle(advance(&source, &mut reg, &obj(vec![])));
    let rotate = factory("lance-pivot").create(&reg, &obj(vec![("rotate", Json::Bool(true))])).unwrap();
    let rotated = handle(advance(&rotate, &mut reg, &plan.to_json()));
    assert_eq!(reg.plan(&rotated).unwrap(), "plan(5@1)+rotate");
    let top = factory("lance-top-k").create(&reg, &obj(vec![("k", u(5))])).unwrap();
    let topped = handle(advance(&top, &mut reg, &rotated.to_json()));
    assert_eq!(reg.plan(&topped).unwrap(), "plan(5@1)+rotate+top-k");
    let exec = factory("lance-execute").create(&reg, &obj(vec![])).unwrap();
    let result = handle(advance(&exec, &mut reg, &topped.to_json()));
    let ordered = handle(advance(&top, &mut reg, &result.to_json()));
    assert_eq!(reg.result(&ordered).unwrap(), "top-k(fold(plan(5@1)+rotate+top-k over batch-1))");
    assert_eq!(reg.reinterpretations(), 0);
}
