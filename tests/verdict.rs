use nova_bench::verdict::{verdict_of, Verdict};
use nova_snark::errors::NovaError;

#[test]
fn clean_outcome_is_accepted() {
    assert_eq!(verdict_of(Ok(())).unwrap(), Verdict::Accepted);
}

#[test]
fn wrong_step_count_is_a_rejection_not_a_fault() {
    assert_eq!(verdict_of(Err(NovaError::ProofVerifyError)).unwrap(), Verdict::Rejected);
}

#[test]
fn unsatisfied_instance_is_a_rejection() {
    assert_eq!(verdict_of(Err(NovaError::UnSat)).unwrap(), Verdict::Rejected);
}

#[test]
fn other_scheme_errors_are_faults() {
    let e = verdict_of(Err(NovaError::InvalidInitialInputLength)).unwrap_err();
    assert_eq!(e.cause, NovaError::InvalidInitialInputLength);
    let e = verdict_of(Err(NovaError::DecompressionError)).unwrap_err();
    assert_eq!(e.cause, NovaError::DecompressionError);
}
