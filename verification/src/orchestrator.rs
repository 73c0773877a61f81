//! Orchestration decisions: which adapter a language key selects, the default
//! facts file name, and which exit status the process ends with.
//!
//! The orchestrator validates its inputs, invokes exactly one adapter,
//! persists the facts, and forwards the external evaluator's exit status as
//! its own.  Usage errors and operational errors both end the run with the
//! same dedicated exit status, before the evaluator is ever invoked.

use vstd::prelude::*;

verus! {

use vstd::string::StringExecFns;

use crate::text::str_eq;

/// The exit status for a usage error (missing path, unsupported language)
/// and for an operational error (a tool or the evaluator could not be
/// started, or the facts could not be written).
pub const FAILURE_EXIT_CODE: i32 = 3;

/// The closed set of supported language adapters.
#[derive(Clone, Copy, Debug, PartialEq, Eq, Structural)]
pub enum Language {
    Rust,
    Node,
}

impl Language {
    /// Selects the adapter for a language key: `rust` and `node` are the
    /// only recognized keys; any other key is a usage error.
    pub fn from_key(key: &str) -> (language: Option<Language>)
        ensures
            language == Some(Language::Rust) <==> key@ == "rust"@,
            language == Some(Language::Node) <==> key@ == "node"@,
            language is None <==> (key@ != "rust"@ && key@ != "node"@),
    {
        proof {
            reveal_strlit("rust");
            reveal_strlit("node");
            assert("rust"@.len() == 4);
            assert("rust"@[0] != "node"@[0]);
        }
        if str_eq(key, "rust") {
            Some(Language::Rust)
        } else if str_eq(key, "node") {
            Some(Language::Node)
        } else {
            None
        }
    }
}

/// Reduces the evaluator's outcome to this process's exit status: the
/// evaluator's own status code is forwarded verbatim, and an evaluator that
/// exited without a retrievable status code is an operational error.
pub fn evaluator_exit_code(status: Option<i32>) -> (code: i32)
    ensures
        status matches Some(c) ==> code == c,
        status is None ==> code == FAILURE_EXIT_CODE,
{
    match status {
        Some(c) => c,
        None => FAILURE_EXIT_CODE,
    }
}

/// The repository-relative file name the facts are written to when the
/// operator supplies no output path.
pub fn default_facts_file_name() -> (name: String)
    ensures
        name@ == ".llmdp_facts.json"@,
{
    String::from_str(".llmdp_facts.json")
}

} // verus!
