use llmdp::adapters::AdapterError;
use llmdp::adapters::exit_status_ok;
use llmdp::orchestrator::FAILURE_EXIT_CODE;
use llmdp::orchestrator::Language;
use llmdp::orchestrator::default_facts_file_name;
use llmdp::orchestrator::evaluator_exit_code;

#[test]
fn language_keys_select_exactly_one_adapter() {
    assert_eq!(Language::from_key("rust"), Some(Language::Rust));
    assert_eq!(Language::from_key("node"), Some(Language::Node));
    assert_eq!(Language::from_key("python"), None);
    assert_eq!(Language::from_key(""), None);
    assert_eq!(Language::from_key("Rust"), None);
}

#[test]
fn check_outcome_is_true_only_for_exit_status_zero() {
    assert!(exit_status_ok(Some(0)));
    assert!(!exit_status_ok(Some(1)));
    assert!(!exit_status_ok(Some(101)));
    // A process killed without a status code is a failed check, not an error.
    assert!(!exit_status_ok(None));
}

#[test]
fn evaluator_exit_status_is_forwarded_verbatim() {
    assert_eq!(evaluator_exit_code(Some(0)), 0);
    assert_eq!(evaluator_exit_code(Some(1)), 1);
    assert_eq!(evaluator_exit_code(Some(42)), 42);
    assert_eq!(evaluator_exit_code(None), FAILURE_EXIT_CODE);
}

#[test]
fn usage_and_operational_errors_share_exit_status_three() {
    assert_eq!(FAILURE_EXIT_CODE, 3);
}

#[test]
fn operational_errors_carry_their_message() {
    let error = AdapterError::operational(String::from("failed to run npm audit"));
    assert_eq!(error.message().as_str(), "failed to run npm audit");
}

#[test]
fn facts_default_to_a_repository_relative_file() {
    assert_eq!(default_facts_file_name(), ".llmdp_facts.json");
}
