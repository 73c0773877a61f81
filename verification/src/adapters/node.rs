//! The package-manager adapter for Node repositories.
//!
//! It inspects the manifest (`package.json`) for a closed list of script
//! names and runs only the scripts that are defined, plus a dependency audit
//! when a lockfile is present.  A manifest that is absent or does not parse
//! yields an empty plan, and so an empty facts mapping: that is a normal
//! outcome, not an error.

use vstd::prelude::*;

verus! {

use vstd::string::StringExecFns;

use crate::adapters::CheckView;
use crate::adapters::PlannedCheck;
use crate::adapters::distinct_fact_keys;
use crate::adapters::facts_of;
use crate::adapters::views_of;
use crate::facts::map_of;
use crate::text::contains_str;

/// What the manifest text defines: `None` when the text is not a parsable
/// JSON document, otherwise the set of names its `scripts` object holds (the
/// empty set when there is no `scripts` object).
pub uninterp spec fn manifest_scripts_of(text: Seq<char>) -> Option<Set<Seq<char>>>;

/// Relies on serde_json 1.x: `from_str` parses the text as JSON, and
/// `Value::get("scripts")` with `Value::as_object` hands out the `scripts`
/// object when there is one.  Whether the text parses, and which key names
/// that object holds, depend on the text alone; the result is handed out as
/// the plain list of those names.
#[verifier::external_body]
fn read_manifest_scripts(text: &str) -> (names: Option<Vec<String>>)
    ensures
        names is None <==> manifest_scripts_of(text@) is None,
        names matches Some(list)
            ==> manifest_scripts_of(text@)
                == Some(list@.map_values(|n: String| n@).to_set()),
{
    let document: serde_json::Value = match serde_json::from_str(text) {
        Ok(value) => value,
        Err(_) => return None,
    };
    let names = match document.get("scripts").and_then(serde_json::Value::as_object) {
        Some(scripts) => scripts.keys().cloned().collect(),
        None => Vec::new(),
    };
    Some(names)
}

/// One conditional script check: `npm run <script>`, recorded under the
/// script's fact key.
pub open spec fn script_check(script: Seq<char>, fact_key: Seq<char>) -> CheckView {
    CheckView { program: "npm"@, args: seq!["run"@, script], fact_key }
}

/// The dependency audit: `npm audit --audit-level=high`, recorded as
/// `audit_ok`.
pub open spec fn audit_check() -> CheckView {
    CheckView {
        program: "npm"@,
        args: seq!["audit"@, "--audit-level=high"@],
        fact_key: "audit_ok"@,
    }
}

/// A one-element plan segment when the check applies, else nothing.
pub open spec fn check_if(applicable: bool, check: CheckView) -> Seq<CheckView> {
    if applicable {
        seq![check]
    } else {
        Seq::empty()
    }
}

/// The node plan for a parsed manifest: each of the four known scripts when
/// the manifest defines it, in the fixed order lint, test, build, typecheck,
/// and the audit when a lockfile is present.
pub open spec fn node_plan_for(scripts: Set<Seq<char>>, has_lockfile: bool) -> Seq<CheckView> {
    check_if(scripts.contains("lint"@), script_check("lint"@, "lint_ok"@))
        + check_if(scripts.contains("test"@), script_check("test"@, "tests_ok"@))
        + check_if(scripts.contains("build"@), script_check("build"@, "build_ok"@))
        + check_if(scripts.contains("typecheck"@), script_check("typecheck"@, "typecheck_ok"@))
        + check_if(has_lockfile, audit_check())
}

/// The whole node plan: empty when the manifest is absent or unparsable.
pub open spec fn node_plan(scripts: Option<Set<Seq<char>>>, has_lockfile: bool) -> Seq<CheckView> {
    match scripts {
        Option::None => Seq::empty(),
        Option::Some(s) => node_plan_for(s, has_lockfile),
    }
}

/// The adapter for a scripts-and-manifest Node repository.
pub struct NodeAdapter;

impl NodeAdapter {
    /// Plans the applicable checks from the manifest text (`None` when the
    /// manifest file is absent or unreadable) and the presence of a lockfile
    /// in the repository root.
    pub fn plan(&self, manifest_text: Option<&str>, has_lockfile: bool) -> (plan: Vec<
        PlannedCheck,
    >)
        ensures
            views_of(plan@) == node_plan(
                match manifest_text {
                    Option::None => Option::None,
                    Option::Some(t) => manifest_scripts_of(t@),
                },
                has_lockfile,
            ),
            distinct_fact_keys(views_of(plan@)),
    {
        let names: Vec<String> = match manifest_text {
            Some(text) => match read_manifest_scripts(text) {
                Some(names) => names,
                None => {
                    let empty: Vec<PlannedCheck> = Vec::new();
                    proof {
                        assert(views_of(empty@) =~= Seq::<CheckView>::empty());
                    }
                    return empty;
                },
            },
            None => {
                let empty: Vec<PlannedCheck> = Vec::new();
                proof {
                    assert(views_of(empty@) =~= Seq::<CheckView>::empty());
                }
                return empty;
            },
        };
        let ghost scripts: Set<Seq<char>> = names@.map_values(|n: String| n@).to_set();
        let mut plan: Vec<PlannedCheck> = Vec::new();
        if contains_name(&names, "lint") {
            plan.push(npm_script("lint", "lint_ok"));
        }
        let ghost plan1 = views_of(plan@);
        proof {
            assert(plan1 =~= check_if(scripts.contains("lint"@), script_check("lint"@, "lint_ok"@)));
        }
        if contains_name(&names, "test") {
            plan.push(npm_script("test", "tests_ok"));
        }
        let ghost plan2 = views_of(plan@);
        proof {
            assert(plan2 =~= plan1 + check_if(
                scripts.contains("test"@),
                script_check("test"@, "tests_ok"@),
            ));
        }
        if contains_name(&names, "build") {
            plan.push(npm_script("build", "build_ok"));
        }
        let ghost plan3 = views_of(plan@);
        proof {
            assert(plan3 =~= plan2 + check_if(
                scripts.contains("build"@),
                script_check("build"@, "build_ok"@),
            ));
        }
        if contains_name(&names, "typecheck") {
            plan.push(npm_script("typecheck", "typecheck_ok"));
        }
        let ghost plan4 = views_of(plan@);
        proof {
            assert(plan4 =~= plan3 + check_if(
                scripts.contains("typecheck"@),
                script_check("typecheck"@, "typecheck_ok"@),
            ));
        }
        if has_lockfile {
            plan.push(npm_audit());
        }
        proof {
            assert(views_of(plan@) =~= plan4 + check_if(has_lockfile, audit_check()));
            assert(views_of(plan@) =~= node_plan_for(scripts, has_lockfile));
            lemma_node_plan_distinct(scripts, has_lockfile);
        }
        plan
    }
}

/// The closed vocabulary of conditional script checks: each known script
/// name beside the fact key it populates.
pub open spec fn script_fact_pairs() -> Seq<(Seq<char>, Seq<char>)> {
    seq![
        ("lint"@, "lint_ok"@),
        ("test"@, "tests_ok"@),
        ("build"@, "build_ok"@),
        ("typecheck"@, "typecheck_ok"@),
    ]
}

/// Makes the five fact keys' characters, and so their pairwise
/// distinctness, available to a proof.
proof fn lemma_node_keys_distinct()
    ensures
        "lint_ok"@ != "tests_ok"@,
        "lint_ok"@ != "build_ok"@,
        "lint_ok"@ != "typecheck_ok"@,
        "lint_ok"@ != "audit_ok"@,
        "tests_ok"@ != "build_ok"@,
        "tests_ok"@ != "typecheck_ok"@,
        "tests_ok"@ != "audit_ok"@,
        "build_ok"@ != "typecheck_ok"@,
        "build_ok"@ != "audit_ok"@,
        "typecheck_ok"@ != "audit_ok"@,
{
    reveal_strlit("lint_ok");
    reveal_strlit("tests_ok");
    reveal_strlit("build_ok");
    reveal_strlit("typecheck_ok");
    reveal_strlit("audit_ok");
    assert("lint_ok"@.len() == 7);
    assert("tests_ok"@.len() == 8);
    assert("build_ok"@.len() == 8);
    assert("typecheck_ok"@.len() == 12);
    assert("audit_ok"@.len() == 8);
    assert("tests_ok"@[0] == 't' && "build_ok"@[0] == 'b' && "audit_ok"@[0] == 'a');
}

/// No two checks of a node plan populate the same fact key.
pub proof fn lemma_node_plan_distinct(scripts: Set<Seq<char>>, has_lockfile: bool)
    ensures
        distinct_fact_keys(node_plan_for(scripts, has_lockfile)),
{
    lemma_node_keys_distinct();
    let plan = node_plan_for(scripts, has_lockfile);
    assert forall|i: int, j: int| 0 <= i < j < plan.len()
        implies (#[trigger] plan[i]).fact_key != (#[trigger] plan[j]).fact_key by {
    }
}

/// A fact key of the conditional script checks is present exactly when the
/// manifest defines the corresponding script, and it then holds whether that
/// script's command exited with status zero.
pub proof fn law_node_script_fact(
    scripts: Set<Seq<char>>,
    has_lockfile: bool,
    outcomes: Seq<bool>,
    script: Seq<char>,
    fact_key: Seq<char>,
)
    requires
        outcomes.len() == node_plan_for(scripts, has_lockfile).len(),
        script_fact_pairs().contains((script, fact_key)),
    ensures
        map_of(facts_of(node_plan_for(scripts, has_lockfile), outcomes)).dom().contains(fact_key)
            <==> scripts.contains(script),
        scripts.contains(script) ==> exists|i: int|
            0 <= i < node_plan_for(scripts, has_lockfile).len()
                && #[trigger] node_plan_for(scripts, has_lockfile)[i]
                    == script_check(script, fact_key)
                && map_of(facts_of(node_plan_for(scripts, has_lockfile), outcomes))[fact_key]
                    == outcomes[i],
{
    lemma_node_keys_distinct();
    lemma_node_plan_distinct(scripts, has_lockfile);
    let plan = node_plan_for(scripts, has_lockfile);
    crate::adapters::law_collected_facts(plan, outcomes);
    let p = choose|p: int|
        0 <= p < script_fact_pairs().len() && script_fact_pairs()[p] == (script, fact_key);
    let n1: int = if scripts.contains("lint"@) { 1 } else { 0 };
    let n2: int = if scripts.contains("test"@) { 1 } else { 0 };
    let n3: int = if scripts.contains("build"@) { 1 } else { 0 };
    if scripts.contains(script) {
        let pos: int = if p == 0 { 0 } else if p == 1 { n1 } else if p == 2 { n1 + n2 } else {
            n1 + n2 + n3
        };
        assert(plan[pos] == script_check(script, fact_key));
        assert(map_of(facts_of(plan, outcomes))[plan[pos].fact_key] == outcomes[pos]);
        assert(map_of(facts_of(plan, outcomes)).dom().contains(fact_key));
    }
    if map_of(facts_of(plan, outcomes)).dom().contains(fact_key) {
        let i = choose|i: int| 0 <= i < plan.len() && (#[trigger] plan[i]).fact_key == fact_key;
        assert(scripts.contains(script));
    }
}

/// When the manifest is absent or unparsable, the plan, and with it the
/// resulting facts mapping, is exactly empty.
pub proof fn law_node_unparsable_empty(has_lockfile: bool, outcomes: Seq<bool>)
    ensures
        node_plan(Option::None, has_lockfile) == Seq::<CheckView>::empty(),
        map_of(facts_of(node_plan(Option::None, has_lockfile), outcomes)) == Map::<
            Seq<char>,
            bool,
        >::empty(),
{
    assert(facts_of(node_plan(Option::None, has_lockfile), outcomes)
        =~= Seq::<(Seq<char>, bool)>::empty());
}

/// `audit_ok` is present exactly when a lockfile exists in the repository
/// root (given a manifest that parsed), and it then holds whether the audit
/// command exited with status zero; the audit is the last planned check.
pub proof fn law_node_audit_fact(scripts: Set<Seq<char>>, has_lockfile: bool, outcomes: Seq<bool>)
    requires
        outcomes.len() == node_plan_for(scripts, has_lockfile).len(),
    ensures
        map_of(facts_of(node_plan_for(scripts, has_lockfile), outcomes)).dom().contains("audit_ok"@)
            <==> has_lockfile,
        has_lockfile ==> {
            let plan = node_plan_for(scripts, has_lockfile);
            plan[plan.len() - 1] == audit_check()
                && map_of(facts_of(plan, outcomes))["audit_ok"@] == outcomes[plan.len() - 1]
        },
{
    lemma_node_keys_distinct();
    lemma_node_plan_distinct(scripts, has_lockfile);
    let plan = node_plan_for(scripts, has_lockfile);
    crate::adapters::law_collected_facts(plan, outcomes);
    if has_lockfile {
        let pos = plan.len() - 1;
        assert(plan[pos] == audit_check());
        assert(map_of(facts_of(plan, outcomes))[plan[pos].fact_key] == outcomes[pos]);
        assert(map_of(facts_of(plan, outcomes)).dom().contains("audit_ok"@));
    }
    if map_of(facts_of(plan, outcomes)).dom().contains("audit_ok"@) {
        let i = choose|i: int|
            0 <= i < plan.len() && (#[trigger] plan[i]).fact_key == "audit_ok"@;
        assert(has_lockfile);
    }
}

/// Whether the script set holds this name, decided on the plain name list.
fn contains_name(names: &Vec<String>, target: &str) -> (found: bool)
    ensures
        found == names@.map_values(|n: String| n@).to_set().contains(target@),
{
    let found = contains_str(names, target);
    proof {
        let mapped = names@.map_values(|n: String| n@);
        if found {
            let i = choose|i: int| 0 <= i < names@.len() && (#[trigger] names@[i])@ == target@;
            assert(mapped[i] == target@);
            assert(mapped.contains(target@));
        }
        if mapped.to_set().contains(target@) {
            let i = choose|i: int| 0 <= i < mapped.len() && mapped[i] == target@;
            assert((names@[i])@ == target@);
        }
    }
    found
}

/// Builds the `npm run <script>` check for one defined script.
fn npm_script(script: &str, fact_key: &str) -> (check: PlannedCheck)
    ensures
        check@ == script_check(script@, fact_key@),
{
    let check = PlannedCheck {
        program: String::from_str("npm"),
        args: vec![String::from_str("run"), String::from_str(script)],
        fact_key: String::from_str(fact_key),
    };
    proof {
        assert(check@.args =~= script_check(script@, fact_key@).args);
        assert(check@ =~= script_check(script@, fact_key@));
    }
    check
}

/// Builds the dependency-audit check.
fn npm_audit() -> (check: PlannedCheck)
    ensures
        check@ == audit_check(),
{
    let check = PlannedCheck {
        program: String::from_str("npm"),
        args: vec![String::from_str("audit"), String::from_str("--audit-level=high")],
        fact_key: String::from_str("audit_ok"),
    };
    proof {
        assert(check@.args =~= audit_check().args);
        assert(check@ =~= audit_check());
    }
    check
}

} // verus!
