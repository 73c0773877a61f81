use llmdp::adapters::collect_facts;
use llmdp::adapters::rust::RustAdapter;

#[test]
fn rust_plan_holds_the_three_fixed_checks_in_order() {
    let adapter = RustAdapter;
    let plan = adapter.plan();
    assert_eq!(plan.len(), 3);
    assert_eq!(plan[0].program, "cargo");
    assert_eq!(
        plan[0].args,
        vec![String::from("fmt"), String::from("--"), String::from("--check")]
    );
    assert_eq!(plan[0].fact_key, "fmt_ok");
    assert_eq!(plan[1].program, "cargo");
    assert_eq!(
        plan[1].args,
        vec![
            String::from("clippy"),
            String::from("--"),
            String::from("-D"),
            String::from("warnings"),
        ]
    );
    assert_eq!(plan[1].fact_key, "clippy_ok");
    assert_eq!(plan[2].program, "cargo");
    assert_eq!(plan[2].args, vec![String::from("test")]);
    assert_eq!(plan[2].fact_key, "tests_ok");
}

#[test]
fn rust_facts_hold_all_three_keys_after_a_clean_run() {
    let adapter = RustAdapter;
    let plan = adapter.plan();
    let facts = collect_facts(&plan, &vec![true, true, true]);
    assert_eq!(facts.len(), 3);
    assert_eq!(facts.get("fmt_ok"), Some(true));
    assert_eq!(facts.get("clippy_ok"), Some(true));
    assert_eq!(facts.get("tests_ok"), Some(true));
    assert_eq!(facts.to_json(), "{\"fmt_ok\":true,\"clippy_ok\":true,\"tests_ok\":true}");
}

#[test]
fn rust_facts_keep_all_three_keys_when_formatting_fails() {
    let adapter = RustAdapter;
    let plan = adapter.plan();
    let facts = collect_facts(&plan, &vec![false, true, true]);
    assert_eq!(facts.len(), 3);
    assert_eq!(facts.get("fmt_ok"), Some(false));
    assert_eq!(facts.get("clippy_ok"), Some(true));
    assert_eq!(facts.get("tests_ok"), Some(true));
}
