//! The verification loop: a counted sequence of independent trials, each
//! fully completed before the next begins. A blob, commitment or proof
//! construction failure aborts the whole run; a verification error or a
//! "not valid" verdict is this trial's datum and the run continues.

use vstd::prelude::*;

use crate::blob::canonical_blob;
use crate::kzg::{
    blob_data, commit_accepts, commitment_bytes_of, kzg_error_description, proof_accepts,
    proof_bytes_of, setup_points, setup_precompute, verify_accepts, verify_blob_kzg_proof,
    verify_outcome_of,
};
use crate::pipeline::{random_valid_blob_components, PipelineError};

verus! {

/// What one trial observed: the verification primitive's boolean verdict,
/// or a description of the error it raised.
#[derive(Debug)]
pub enum IterationOutcome {
    /// The primitive answered: the proof is valid (`true`) or not.
    Verified(bool),
    /// The primitive itself failed; the trial is recorded, not fatal.
    Failed(String),
}

/// The commitment and proof the scheme itself derives for the canonical
/// blob bytes `b` under the given setup are accepted at every stage, and
/// the verification primitive treats the triple as `accepted` (reaches a
/// verdict) or not.
pub open spec fn honest_triple_verdict(
    b: Seq<u8>,
    points: Seq<u8>,
    precompute: u64,
    accepted: bool,
) -> bool {
    &&& canonical_blob(b)
    &&& commit_accepts(points, precompute, b)
    &&& proof_accepts(points, precompute, b, commitment_bytes_of(points, precompute, b))
    &&& accepted == verify_accepts(
        points,
        precompute,
        b,
        commitment_bytes_of(points, precompute, b),
        proof_bytes_of(points, precompute, b, commitment_bytes_of(points, precompute, b)),
    )
}

/// This outcome is what the scheme itself decided for a commitment and
/// proof honestly derived from some canonical blob under the setup with
/// the given points and precompute width: a `Verified` verdict is the
/// scheme's own where verification answered, and a `Failed` record stands
/// exactly where verification itself errored.
pub open spec fn outcome_is_honest(o: IterationOutcome, points: Seq<u8>, precompute: u64) -> bool {
    match o {
        IterationOutcome::Verified(v) => exists|b: Seq<u8>|
            #[trigger] honest_triple_verdict(b, points, precompute, true) && v == verify_outcome_of(
                points,
                precompute,
                b,
                commitment_bytes_of(points, precompute, b),
                proof_bytes_of(points, precompute, b, commitment_bytes_of(points, precompute, b)),
            ),
        IterationOutcome::Failed(_) => exists|b: Seq<u8>|
            #[trigger] honest_triple_verdict(b, points, precompute, false),
    }
}

/// One independent trial: generate a canonical blob, commit, prove, then
/// verify the triple. A construction failure is fatal, comes back as
/// `Err`, and occurs only when the scheme refused a drawn canonical blob
/// at that stage; the verification call's result, verdict or error, is
/// this trial's outcome, honest either way.
pub fn run_iteration(settings: &c_kzg::KzgSettings) -> (r: Result<IterationOutcome, PipelineError>)
    ensures
        r matches Err(e) ==> (e is CommitmentComputationFailed || e is ProofComputationFailed),
        r matches Err(e) && e is CommitmentComputationFailed ==> exists|b: Seq<u8>|
            #[trigger] canonical_blob(b) && !commit_accepts(
                setup_points(*settings),
                setup_precompute(*settings),
                b,
            ),
        r matches Err(e) && e is ProofComputationFailed ==> exists|b: Seq<u8>|
            #[trigger] canonical_blob(b) && commit_accepts(
                setup_points(*settings),
                setup_precompute(*settings),
                b,
            ) && !proof_accepts(
                setup_points(*settings),
                setup_precompute(*settings),
                b,
                commitment_bytes_of(setup_points(*settings), setup_precompute(*settings), b),
            ),
        r matches Ok(o) ==> outcome_is_honest(
            o,
            setup_points(*settings),
            setup_precompute(*settings),
        ),
{
    let (blob, commitment, kzg_proof) = match random_valid_blob_components(settings) {
        Ok(t) => t,
        Err(e) => {
            return Err(e);
        },
    };
    match verify_blob_kzg_proof(&blob, &commitment, &kzg_proof, settings) {
        Ok(valid) => {
            proof {
                assert(honest_triple_verdict(
                    blob_data(blob),
                    setup_points(*settings),
                    setup_precompute(*settings),
                    true,
                ));
            }
            Ok(IterationOutcome::Verified(valid))
        },
        Err(e) => {
            proof {
                assert(honest_triple_verdict(
                    blob_data(blob),
                    setup_points(*settings),
                    setup_precompute(*settings),
                    false,
                ));
            }
            Ok(IterationOutcome::Failed(kzg_error_description(&e)))
        },
    }
}

/// Run `iterations` independent trials in index order and record each
/// trial's outcome. The run aborts with `Err` only on a construction
/// failure, that is only when the scheme refused a drawn canonical blob;
/// a verification error never aborts it. Otherwise exactly one outcome
/// per trial comes back, each an honest one, so a run of zero trials
/// always succeeds with an empty record.
pub fn run_iterations(iterations: usize, settings: &c_kzg::KzgSettings) -> (r: Result<
    Vec<IterationOutcome>,
    PipelineError,
>)
    ensures
        r matches Ok(v) ==> v@.len() == iterations && forall|idx: int|
            0 <= idx < v@.len() ==> outcome_is_honest(
                #[trigger] v@[idx],
                setup_points(*settings),
                setup_precompute(*settings),
            ),
        iterations == 0 ==> r is Ok,
        r matches Err(e) ==> (e is CommitmentComputationFailed || e is ProofComputationFailed),
        r matches Err(e) && e is CommitmentComputationFailed ==> exists|b: Seq<u8>|
            #[trigger] canonical_blob(b) && !commit_accepts(
                setup_points(*settings),
                setup_precompute(*settings),
                b,
            ),
        r matches Err(e) && e is ProofComputationFailed ==> exists|b: Seq<u8>|
            #[trigger] canonical_blob(b) && commit_accepts(
                setup_points(*settings),
                setup_precompute(*settings),
                b,
            ) && !proof_accepts(
                setup_points(*settings),
                setup_precompute(*settings),
                b,
                commitment_bytes_of(setup_points(*settings), setup_precompute(*settings), b),
            ),
{
    let mut outcomes: Vec<IterationOutcome> = Vec::new();
    let mut i: usize = 0;
    while i < iterations
        invariant
            i <= iterations,
            outcomes@.len() == i,
            forall|idx: int|
                0 <= idx < outcomes@.len() ==> outcome_is_honest(
                    #[trigger] outcomes@[idx],
                    setup_points(*settings),
                    setup_precompute(*settings),
                ),
        decreases iterations - i,
    {
        let outcome = match run_iteration(settings) {
            Ok(o) => o,
            Err(e) => {
                return Err(e);
            },
        };
        outcomes.push(outcome);
        i += 1;
    }
    Ok(outcomes)
}

} // verus!
