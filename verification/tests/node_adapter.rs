use llmdp::adapters::collect_facts;
use llmdp::adapters::node::NodeAdapter;

#[test]
fn node_plan_is_empty_without_a_manifest() {
    let adapter = NodeAdapter;
    let plan = adapter.plan(None, false);
    assert!(plan.is_empty());
    let facts = collect_facts(&plan, &Vec::new());
    assert_eq!(facts.to_json(), "{}");
}

#[test]
fn node_plan_is_empty_when_the_manifest_does_not_parse() {
    let adapter = NodeAdapter;
    // Even a present lockfile plans no audit when the manifest is unparsable.
    let plan = adapter.plan(Some("{ not json"), true);
    assert!(plan.is_empty());
}

#[test]
fn node_plan_runs_a_defined_test_script() {
    let adapter = NodeAdapter;
    let manifest = "{\"name\":\"sample-node\",\"scripts\":{\"test\":\"exit 0\"}}";
    let plan = adapter.plan(Some(manifest), false);
    assert_eq!(plan.len(), 1);
    assert_eq!(plan[0].program, "npm");
    assert_eq!(plan[0].args, vec![String::from("run"), String::from("test")]);
    assert_eq!(plan[0].fact_key, "tests_ok");
    let facts = collect_facts(&plan, &vec![true]);
    assert_eq!(facts.get("tests_ok"), Some(true));
    assert_eq!(facts.get("lint_ok"), None);
    assert_eq!(facts.to_json(), "{\"tests_ok\":true}");
}

#[test]
fn node_plan_records_a_failing_lint_script_as_false() {
    let adapter = NodeAdapter;
    let manifest = "{\"scripts\":{\"lint\":\"exit 1\"}}";
    let plan = adapter.plan(Some(manifest), false);
    assert_eq!(plan.len(), 1);
    assert_eq!(plan[0].fact_key, "lint_ok");
    let facts = collect_facts(&plan, &vec![false]);
    assert_eq!(facts.get("lint_ok"), Some(false));
    assert_eq!(facts.to_json(), "{\"lint_ok\":false}");
}

#[test]
fn node_plan_orders_all_applicable_checks() {
    let adapter = NodeAdapter;
    let manifest = "{\"scripts\":{\"build\":\"b\",\"typecheck\":\"t\",\"lint\":\"l\",\"test\":\"t\"}}";
    let plan = adapter.plan(Some(manifest), true);
    assert_eq!(plan.len(), 5);
    let keys: Vec<&str> = plan.iter().map(|c| c.fact_key.as_str()).collect();
    assert_eq!(keys, vec!["lint_ok", "tests_ok", "build_ok", "typecheck_ok", "audit_ok"]);
    for check in &plan[..4] {
        assert_eq!(check.program, "npm");
        assert_eq!(check.args[0], "run");
    }
    assert_eq!(plan[4].program, "npm");
    assert_eq!(
        plan[4].args,
        vec![String::from("audit"), String::from("--audit-level=high")]
    );
}

#[test]
fn node_plan_audits_exactly_when_a_lockfile_exists() {
    let adapter = NodeAdapter;
    let manifest = "{\"name\":\"sample-node\"}";
    let without = adapter.plan(Some(manifest), false);
    assert!(without.is_empty());
    let with = adapter.plan(Some(manifest), true);
    assert_eq!(with.len(), 1);
    assert_eq!(with[0].fact_key, "audit_ok");
    let facts = collect_facts(&with, &vec![true]);
    assert_eq!(facts.to_json(), "{\"audit_ok\":true}");
}

#[test]
fn node_plan_ignores_a_scripts_entry_that_is_no_object() {
    let adapter = NodeAdapter;
    let manifest = "{\"scripts\":17}";
    let plan = adapter.plan(Some(manifest), false);
    assert!(plan.is_empty());
}

#[test]
fn node_plan_ignores_unknown_script_names() {
    let adapter = NodeAdapter;
    let manifest = "{\"scripts\":{\"deploy\":\"d\",\"test\":\"t\"}}";
    let plan = adapter.plan(Some(manifest), false);
    assert_eq!(plan.len(), 1);
    assert_eq!(plan[0].fact_key, "tests_ok");
}
