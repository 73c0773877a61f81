//! What all language adapters share: the operational error, the planned
//! checks, and the rule that turns recorded outcomes into a facts mapping.
//!
//! An adapter run is split in two.  First a plan is drawn up: the fixed
//! sequence of commands to run, each paired with the fact key it populates.
//! The surrounding binary then executes the commands one by one and records,
//! for each command that could be started, whether it exited with status
//! zero.  If every planned command started, the outcomes are collected into a
//! facts mapping; if any could not be started, the run aborts with an
//! operational error and no facts mapping is ever formed.

use vstd::prelude::*;

pub mod node;
pub mod rust;

verus! {

use crate::facts::Facts;
use crate::facts::distinct_keys;
use crate::facts::map_of;

/// A run-stopping failure: a required external tool could not be invoked at
/// all.  A tool that starts and reports failure is never an error; that
/// outcome is recorded as a `false` fact instead.
pub enum AdapterError {
    Operational(String),
}

impl AdapterError {
    /// Wraps a human-readable message as an operational error.
    pub fn operational(message: String) -> (error: AdapterError)
        ensures
            error == AdapterError::Operational(message),
    {
        AdapterError::Operational(message)
    }

    /// The human-readable message carried by the error.
    pub fn message(&self) -> (message: &String)
        ensures
            *self == AdapterError::Operational(*message),
    {
        match self {
            AdapterError::Operational(m) => m,
        }
    }
}

/// The mathematical content of one planned check: the program to invoke, its
/// arguments, and the fact key its outcome populates.
#[verifier::ext_equal]
pub struct CheckView {
    pub program: Seq<char>,
    pub args: Seq<Seq<char>>,
    pub fact_key: Seq<char>,
}

/// One planned check: a command to run in the repository root, and the fact
/// key under which its outcome is recorded.
pub struct PlannedCheck {
    pub program: String,
    pub args: Vec<String>,
    pub fact_key: String,
}

impl View for PlannedCheck {
    type V = CheckView;

    open spec fn view(&self) -> CheckView {
        CheckView {
            program: self.program@,
            args: self.args.deep_view(),
            fact_key: self.fact_key@,
        }
    }
}

/// The views of a sequence of planned checks.
pub open spec fn views_of(plan: Seq<PlannedCheck>) -> Seq<CheckView> {
    plan.map_values(|c: PlannedCheck| c@)
}

/// No two planned checks populate the same fact key.
pub open spec fn distinct_fact_keys(plan: Seq<CheckView>) -> bool {
    forall|i: int, j: int|
        0 <= i < j < plan.len()
            ==> (#[trigger] plan[i]).fact_key != (#[trigger] plan[j]).fact_key
}

/// The fact entries of a fully executed plan: the i-th check's key paired
/// with the i-th outcome.
pub open spec fn facts_of(plan: Seq<CheckView>, outcomes: Seq<bool>) -> Seq<(Seq<char>, bool)> {
    Seq::new(plan.len(), |i: int| (plan[i].fact_key, outcomes[i]))
}

/// Reduces a finished process to a check outcome: true exactly when the
/// process exited with status code zero.  A process killed without a status
/// code counts as a failed check, not as an error.
pub fn exit_status_ok(code: Option<i32>) -> (ok: bool)
    ensures
        ok == (code == Some(0i32)),
{
    match code {
        Some(c) => c == 0,
        None => false,
    }
}

/// Collects the outcomes of a fully executed plan into a facts mapping: one
/// fact per planned check, in plan order.  This is only called once every
/// planned command has started and finished; a run that failed operationally
/// never reaches it.
pub fn collect_facts(plan: &Vec<PlannedCheck>, outcomes: &Vec<bool>) -> (facts: Facts)
    requires
        outcomes@.len() == plan@.len(),
        distinct_fact_keys(views_of(plan@)),
    ensures
        facts@ == facts_of(views_of(plan@), outcomes@),
{
    let mut facts = Facts::new();
    let n = plan.len();
    let mut i: usize = 0;
    while i < n
        invariant
            n == plan@.len(),
            outcomes@.len() == plan@.len(),
            distinct_fact_keys(views_of(plan@)),
            i <= n,
            facts@ == facts_of(views_of(plan@), outcomes@).take(i as int),
        decreases n - i,
    {
        proof {
            assert forall|j: int| 0 <= j < facts@.len()
                implies (#[trigger] facts@[j]).0 != plan@[i as int].fact_key@ by {
                assert(facts@[j] == facts_of(views_of(plan@), outcomes@)[j]);
                assert(facts@[j].0 == views_of(plan@)[j].fact_key);
                assert(views_of(plan@)[i as int].fact_key == plan@[i as int].fact_key@);
            }
        }
        facts.insert(plan[i].fact_key.clone(), outcomes[i]);
        proof {
            assert(facts@ =~= facts_of(views_of(plan@), outcomes@).take(i as int + 1));
        }
        i += 1;
    }
    proof {
        assert(facts_of(views_of(plan@), outcomes@).take(n as int)
            =~= facts_of(views_of(plan@), outcomes@));
    }
    facts
}

/// The collected facts mapping has exactly the plan's fact keys as its
/// domain, and holds each check's outcome under that check's key.
pub proof fn law_collected_facts(plan: Seq<CheckView>, outcomes: Seq<bool>)
    requires
        outcomes.len() == plan.len(),
        distinct_fact_keys(plan),
    ensures
        forall|k: Seq<char>| #[trigger] map_of(facts_of(plan, outcomes)).dom().contains(k)
            == (exists|i: int| 0 <= i < plan.len() && (#[trigger] plan[i]).fact_key == k),
        forall|i: int| 0 <= i < plan.len()
            ==> map_of(facts_of(plan, outcomes))[(#[trigger] plan[i]).fact_key] == outcomes[i],
{
    let entries = facts_of(plan, outcomes);
    assert(distinct_keys(entries));
    crate::facts::lemma_map_of(entries);
    assert forall|k: Seq<char>| #[trigger] map_of(entries).dom().contains(k)
        == (exists|i: int| 0 <= i < plan.len() && (#[trigger] plan[i]).fact_key == k) by {
        if map_of(entries).dom().contains(k) {
            let i = choose|i: int| 0 <= i < entries.len() && (#[trigger] entries[i]).0 == k;
            assert(plan[i].fact_key == k);
        }
        if exists|i: int| 0 <= i < plan.len() && (#[trigger] plan[i]).fact_key == k {
            let i = choose|i: int| 0 <= i < plan.len() && (#[trigger] plan[i]).fact_key == k;
            assert(entries[i].0 == k);
        }
    }
    assert forall|i: int| 0 <= i < plan.len()
        implies map_of(entries)[(#[trigger] plan[i]).fact_key] == outcomes[i] by {
        assert(entries[i].0 == plan[i].fact_key && entries[i].1 == outcomes[i]);
    }
}

} // verus!
