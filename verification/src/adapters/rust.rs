//! The build-tool adapter for Rust repositories.
//!
//! It runs a fixed, unconditional sequence of three checks — a formatting
//! check, a lint check with warnings treated as failures, and a test run —
//! and populates `fmt_ok`, `clippy_ok` and `tests_ok`, each always present
//! when the run completes.

use vstd::prelude::*;

verus! {

use vstd::string::StringExecFns;

use crate::adapters::CheckView;
use crate::adapters::PlannedCheck;
use crate::adapters::distinct_fact_keys;
use crate::adapters::facts_of;
use crate::adapters::views_of;
use crate::facts::map_of;

/// The formatting check: `cargo fmt -- --check`.
pub open spec fn fmt_check() -> CheckView {
    CheckView {
        program: "cargo"@,
        args: seq!["fmt"@, "--"@, "--check"@],
        fact_key: "fmt_ok"@,
    }
}

/// The lint check with warnings as failures: `cargo clippy -- -D warnings`.
pub open spec fn clippy_check() -> CheckView {
    CheckView {
        program: "cargo"@,
        args: seq!["clippy"@, "--"@, "-D"@, "warnings"@],
        fact_key: "clippy_ok"@,
    }
}

/// The test run: `cargo test`.
pub open spec fn test_check() -> CheckView {
    CheckView { program: "cargo"@, args: seq!["test"@], fact_key: "tests_ok"@ }
}

/// The whole plan, in its fixed order: format, then lint, then test.
pub open spec fn rust_plan() -> Seq<CheckView> {
    seq![fmt_check(), clippy_check(), test_check()]
}

/// The adapter for a toolchain-centric Rust repository.
pub struct RustAdapter;

impl RustAdapter {
    /// Plans the three checks.  No applicability detection is involved: all
    /// three are assumed relevant whenever this adapter is selected.
    pub fn plan(&self) -> (plan: Vec<PlannedCheck>)
        ensures
            views_of(plan@) == rust_plan(),
            distinct_fact_keys(views_of(plan@)),
    {
        let mut plan: Vec<PlannedCheck> = Vec::new();
        plan.push(PlannedCheck {
            program: String::from_str("cargo"),
            args: vec![
                String::from_str("fmt"),
                String::from_str("--"),
                String::from_str("--check"),
            ],
            fact_key: String::from_str("fmt_ok"),
        });
        plan.push(PlannedCheck {
            program: String::from_str("cargo"),
            args: vec![
                String::from_str("clippy"),
                String::from_str("--"),
                String::from_str("-D"),
                String::from_str("warnings"),
            ],
            fact_key: String::from_str("clippy_ok"),
        });
        plan.push(PlannedCheck {
            program: String::from_str("cargo"),
            args: vec![String::from_str("test")],
            fact_key: String::from_str("tests_ok"),
        });
        proof {
            assert(plan@[0]@.args =~= fmt_check().args);
            assert(plan@[1]@.args =~= clippy_check().args);
            assert(plan@[2]@.args =~= test_check().args);
            assert(plan@[0]@ =~= fmt_check());
            assert(plan@[1]@ =~= clippy_check());
            assert(plan@[2]@ =~= test_check());
            assert(views_of(plan@) =~= rust_plan());
            lemma_rust_plan_distinct();
        }
        plan
    }
}

/// The three fact keys differ from one another.
proof fn lemma_rust_plan_distinct()
    ensures
        distinct_fact_keys(rust_plan()),
{
    reveal_strlit("fmt_ok");
    reveal_strlit("clippy_ok");
    reveal_strlit("tests_ok");
    assert("fmt_ok"@.len() == 6);
    assert("clippy_ok"@.len() == 9);
    assert("tests_ok"@.len() == 8);
    assert forall|i: int, j: int| 0 <= i < j < rust_plan().len()
        implies (#[trigger] rust_plan()[i]).fact_key != (#[trigger] rust_plan()[j]).fact_key by {
        assert(rust_plan()[0].fact_key == "fmt_ok"@);
        assert(rust_plan()[1].fact_key == "clippy_ok"@);
        assert(rust_plan()[2].fact_key == "tests_ok"@);
    }
}

/// The three fact keys are distinct, so a completed run populates all of
/// `fmt_ok`, `clippy_ok` and `tests_ok` at once; a run that fails
/// operationally never forms a facts mapping at all, so no run yields only a
/// subset of the three.
pub proof fn law_rust_facts_all_or_nothing(outcomes: Seq<bool>)
    requires
        outcomes.len() == rust_plan().len(),
    ensures
        distinct_fact_keys(rust_plan()),
        map_of(facts_of(rust_plan(), outcomes)).dom()
            =~= set!["fmt_ok"@, "clippy_ok"@, "tests_ok"@],
        map_of(facts_of(rust_plan(), outcomes))["fmt_ok"@] == outcomes[0],
        map_of(facts_of(rust_plan(), outcomes))["clippy_ok"@] == outcomes[1],
        map_of(facts_of(rust_plan(), outcomes))["tests_ok"@] == outcomes[2],
{
    reveal_strlit("fmt_ok");
    reveal_strlit("clippy_ok");
    reveal_strlit("tests_ok");
    lemma_rust_plan_distinct();
    crate::adapters::law_collected_facts(rust_plan(), outcomes);
    assert(rust_plan()[0].fact_key == "fmt_ok"@);
    assert(rust_plan()[1].fact_key == "clippy_ok"@);
    assert(rust_plan()[2].fact_key == "tests_ok"@);
    assert forall|k: Seq<char>|
        #[trigger] map_of(facts_of(rust_plan(), outcomes)).dom().contains(k)
            == set!["fmt_ok"@, "clippy_ok"@, "tests_ok"@].contains(k) by {
        if map_of(facts_of(rust_plan(), outcomes)).dom().contains(k) {
            let i = choose|i: int|
                0 <= i < rust_plan().len() && (#[trigger] rust_plan()[i]).fact_key == k;
        }
    }
}

} // verus!
