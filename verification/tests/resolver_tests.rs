use make_trace::messages::{PropertyDescriptor, RemoteObject};
use make_trace::resolver::{ResolveStep, Resolver, VarValue, Variable};

fn prop(name: &str, kind: &str, object_id: Option<&str>, value: Option<&str>) -> PropertyDescriptor {
    PropertyDescriptor {
        name: name.to_owned(),
        value: RemoteObject {
            kind: kind.to_owned(),
            object_id: object_id.map(|s| s.to_owned()),
            value: value.map(|s| s.to_owned()),
        },
    }
}

/// Runs the machine to completion, answering each fetch from `graph`;
/// returns the variable list and how many fetches were issued.
fn run(props: Vec<PropertyDescriptor>, graph: &[(&str, Vec<PropertyDescriptor>)]) -> (Vec<Variable>, usize) {
    let mut r = Resolver::new(props);
    let mut fetches = 0;
    loop {
        match r.step() {
            ResolveStep::Progress => {}
            ResolveStep::Fetch(oid) => {
                fetches += 1;
                let entry = graph.iter().find(|(k, _)| *k == oid).expect("unknown object id");
                let answer: Vec<PropertyDescriptor> = entry
                    .1
                    .iter()
                    .map(|p| prop(&p.name, &p.value.kind, p.value.object_id.as_deref(), p.value.value.as_deref()))
                    .collect();
                r.on_properties(answer);
            }
            ResolveStep::Finished(vs) => return (vs, fetches),
        }
    }
}

fn expect_scalar(v: &Variable, name: &str, text: &str) {
    assert_eq!(v.name, name);
    match &v.value {
        VarValue::Scalar(s) => assert_eq!(s, text),
        VarValue::Nested(_) => panic!("expected a scalar for {}", name),
    }
}

fn expect_nested<'a>(v: &'a Variable, name: &str) -> &'a Vec<Variable> {
    assert_eq!(v.name, name);
    match &v.value {
        VarValue::Scalar(_) => panic!("expected a nested value for {}", name),
        VarValue::Nested(children) => children,
    }
}

#[test]
fn an_inline_scalar_resolves_with_zero_fetches() {
    let (vs, fetches) = run(vec![prop("x", "string", None, Some("1"))], &[]);
    assert_eq!(fetches, 0);
    assert_eq!(vs.len(), 1);
    expect_scalar(&vs[0], "x", "1");
}

#[test]
fn a_rejected_property_at_the_scope_level_becomes_the_sentinel_without_fetch() {
    let (vs, fetches) = run(
        vec![
            prop("__hidden", "string", None, Some("1")),
            prop("f", "function", Some("F"), None),
            prop("x", "string", None, Some("2")),
        ],
        &[],
    );
    assert_eq!(fetches, 0);
    assert_eq!(vs.len(), 3);
    // an inline scalar is terminal whatever the policy says
    expect_scalar(&vs[0], "__hidden", "1");
    // a rejected reference is present but intentionally unresolved
    expect_scalar(&vs[1], "f", "unresolved");
    expect_scalar(&vs[2], "x", "2");
}

#[test]
fn a_rejected_nested_property_becomes_the_unresolved_sentinel() {
    let (vs, fetches) = run(
        vec![prop("y", "object", Some("R"), None)],
        &[("R", vec![prop("__class__", "object", Some("C"), None)])],
    );
    assert_eq!(fetches, 1);
    assert_eq!(vs.len(), 1);
    let children = expect_nested(&vs[0], "y");
    assert_eq!(children.len(), 1);
    expect_scalar(&children[0], "__class__", "unresolved");
}

#[test]
fn a_nested_scalar_is_kept_even_when_the_policy_would_reject_it() {
    let (vs, fetches) = run(
        vec![prop("y", "object", Some("R"), None)],
        &[("R", vec![prop("__doc__", "string", None, Some("text"))])],
    );
    assert_eq!(fetches, 1);
    let children = expect_nested(&vs[0], "y");
    expect_scalar(&children[0], "__doc__", "text");
}

#[test]
fn one_fetch_per_nesting_level() {
    let (vs, fetches) = run(
        vec![prop("a", "object", Some("R1"), None)],
        &[
            ("R1", vec![prop("b", "object", Some("R2"), None)]),
            ("R2", vec![prop("c", "string", None, Some("2"))]),
        ],
    );
    assert_eq!(fetches, 2);
    let level1 = expect_nested(&vs[0], "a");
    let level2 = expect_nested(&level1[0], "b");
    expect_scalar(&level2[0], "c", "2");
}

#[test]
fn a_reference_with_neither_value_nor_identifier_is_dropped() {
    let (vs, fetches) = run(vec![prop("broken", "object", None, None)], &[]);
    assert_eq!(fetches, 0);
    assert!(vs.is_empty());
}

#[test]
fn descriptor_order_is_kept() {
    let (vs, _) = run(
        vec![
            prop("x", "string", None, Some("1")),
            prop("y", "object", Some("R"), None),
            prop("z", "string", None, Some("3")),
        ],
        &[("R", vec![prop("w", "string", None, Some("2"))])],
    );
    assert_eq!(vs.len(), 3);
    assert_eq!(vs[0].name, "x");
    assert_eq!(vs[1].name, "y");
    assert_eq!(vs[2].name, "z");
}

#[test]
fn the_example_scope_resolves_as_specified() {
    // source ["x = 1", "y = 2"], one scope "locals" with {x: "1", y: ref R},
    // R resolving to {z: "2"}
    let (vs, fetches) = run(
        vec![
            prop("x", "string", None, Some("1")),
            prop("y", "object", Some("R"), None),
        ],
        &[("R", vec![prop("z", "string", None, Some("2"))])],
    );
    assert_eq!(fetches, 1);
    assert_eq!(vs.len(), 2);
    expect_scalar(&vs[0], "x", "1");
    let children = expect_nested(&vs[1], "y");
    assert_eq!(children.len(), 1);
    expect_scalar(&children[0], "z", "2");
}
