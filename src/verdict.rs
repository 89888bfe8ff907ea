use vstd::prelude::*;
use nova_snark::errors::NovaError;

verus! {

/// The folding scheme's error type; its variants carry no data.
#[verifier::external_type_specification]
pub struct ExNovaError(NovaError);

/// What a verification run reports when the scheme did not fault.
#[derive(Debug, Clone, Copy, PartialEq, Eq, Structural)]
pub enum Verdict {
    Accepted,
    Rejected,
}

/// A fault inside the scheme, as opposed to an artifact that does not check.
#[derive(Debug)]
pub struct VerificationError {
    pub cause: NovaError,
}

/// The errors by which the recursive verifier says that an artifact does not
/// hold for the claimed step count and initial state.
pub open spec fn is_rejection(e: NovaError) -> bool {
    e == NovaError::ProofVerifyError || e == NovaError::UnSat
}

/// The verdict for an outcome of the recursive verifier.
pub open spec fn verdict_spec(outcome: Result<(), NovaError>) -> Result<Verdict, VerificationError> {
    match outcome {
        Ok(()) => Ok(Verdict::Accepted),
        Err(e) => if is_rejection(e) {
            Ok(Verdict::Rejected)
        } else {
            Err(VerificationError { cause: e })
        },
    }
}

/// Reads the verifier's outcome: a rejected artifact is a normal verdict; any
/// other error is a fault of the scheme.
pub fn verdict_of(outcome: Result<(), NovaError>) -> (r: Result<Verdict, VerificationError>)
    ensures
        r == verdict_spec(outcome),
{
    match outcome {
        Ok(()) => Ok(Verdict::Accepted),
        Err(e) => match e {
            NovaError::ProofVerifyError | NovaError::UnSat => Ok(Verdict::Rejected),
            _ => Err(VerificationError { cause: e }),
        },
    }
}

/// Two runs whose verifier outcomes agree report the same result, and a run is
/// reported as a success exactly when the verifier returned no error; a
/// rejected artifact is never escalated to a fault.
pub proof fn lemma_verdict_determined(a: Result<(), NovaError>, b: Result<(), NovaError>)
    requires
        a == b,
    ensures
        verdict_spec(a) == verdict_spec(b),
        (verdict_spec(a) == Ok::<Verdict, VerificationError>(Verdict::Accepted)) <==> a is Ok,
        a matches Err(e) && is_rejection(e) ==> verdict_spec(a) is Ok,
{
}

} // verus!
