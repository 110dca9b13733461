//! The commitment/proof pipeline: from a fresh canonical blob to the
//! commitment and the proof bound to it, in two dependent steps. A failure
//! of either cryptographic call is unrecoverable for the run; blob
//! construction is proved never to fail here.

use vstd::prelude::*;

use crate::blob::{canonical_blob, random_valid_blob, BlobError};
use crate::kzg::{
    blob_data, blob_to_kzg_commitment, commit_accepts, commitment_bytes_of,
    compute_blob_kzg_proof, kzg_error_description, proof_accepts, proof_bytes_of, setup_points,
    setup_precompute,
};
use crate::kzg_commitment::KzgCommitment;
use crate::kzg_proof::KzgProof;

verus! {

/// A failure that aborts the whole run: the harness itself, not the
/// property under test, is broken.
#[derive(Debug)]
pub enum PipelineError {
    /// A blob could not be constructed.
    BlobConstruction(BlobError),
    /// The commitment primitive rejected the blob or the setup.
    CommitmentComputationFailed(String),
    /// The proof primitive rejected the blob/commitment pair.
    ProofComputationFailed(String),
}

/// The characters of a pipeline failure's message: the failing stage,
/// then the underlying cause where one was recorded.
pub open spec fn message_chars(e: PipelineError) -> Seq<char> {
    match e {
        PipelineError::BlobConstruction(BlobError::IndexOverflow) => "error generating valid blob: slot offset overflow"@,
        PipelineError::BlobConstruction(BlobError::OutOfBounds) => "error generating valid blob: blob byte index out of bounds"@,
        PipelineError::BlobConstruction(BlobError::MalformedBlob) => "error generating valid blob: failed to create blob"@,
        PipelineError::CommitmentComputationFailed(d) => "error computing kzg commitment: "@ + d@,
        PipelineError::ProofComputationFailed(d) => "error computing kzg proof: "@ + d@,
    }
}

impl PipelineError {
    /// A human-readable account of the failure, character for character
    /// as `message_chars` states it.
    pub fn message(&self) -> (r: String)
        ensures
            r@ == message_chars(*self),
    {
        match self {
            PipelineError::BlobConstruction(BlobError::IndexOverflow) => String::from_str(
                "error generating valid blob: slot offset overflow",
            ),
            PipelineError::BlobConstruction(BlobError::OutOfBounds) => String::from_str(
                "error generating valid blob: blob byte index out of bounds",
            ),
            PipelineError::BlobConstruction(BlobError::MalformedBlob) => String::from_str(
                "error generating valid blob: failed to create blob",
            ),
            PipelineError::CommitmentComputationFailed(d) => String::from_str(
                "error computing kzg commitment: ",
            ).concat(d.as_str()),
            PipelineError::ProofComputationFailed(d) => String::from_str(
                "error computing kzg proof: ",
            ).concat(d.as_str()),
        }
    }
}

/// Push a blob through the two dependent cryptographic calls: commit to
/// the blob, then prove against the just-computed commitment; the proof
/// step is only attempted once the commitment step succeeded. This
/// succeeds exactly when the scheme accepts both steps, and the pair is
/// then exactly the scheme's values for this blob under this setup; each
/// failure names the stage that refused.
pub fn compute(blob: &c_kzg::Blob, settings: &c_kzg::KzgSettings) -> (r: Result<
    (KzgCommitment, KzgProof),
    PipelineError,
>)
    ensures
        r is Ok <==> commit_accepts(
            setup_points(*settings),
            setup_precompute(*settings),
            blob_data(*blob),
        ) && proof_accepts(
            setup_points(*settings),
            setup_precompute(*settings),
            blob_data(*blob),
            commitment_bytes_of(
                setup_points(*settings),
                setup_precompute(*settings),
                blob_data(*blob),
            ),
        ),
        r matches Ok(t) ==> t.0.0@ == commitment_bytes_of(
            setup_points(*settings),
            setup_precompute(*settings),
            blob_data(*blob),
        ) && t.1.0@ == proof_bytes_of(
            setup_points(*settings),
            setup_precompute(*settings),
            blob_data(*blob),
            t.0.0@,
        ),
        r matches Err(e) && e is CommitmentComputationFailed <==> !commit_accepts(
            setup_points(*settings),
            setup_precompute(*settings),
            blob_data(*blob),
        ),
        r matches Err(e) && e is ProofComputationFailed <==> commit_accepts(
            setup_points(*settings),
            setup_precompute(*settings),
            blob_data(*blob),
        ) && !proof_accepts(
            setup_points(*settings),
            setup_precompute(*settings),
            blob_data(*blob),
            commitment_bytes_of(
                setup_points(*settings),
                setup_precompute(*settings),
                blob_data(*blob),
            ),
        ),
{
    let commitment = match blob_to_kzg_commitment(blob, settings) {
        Ok(c) => c,
        Err(e) => {
            return Err(PipelineError::CommitmentComputationFailed(kzg_error_description(&e)));
        },
    };
    let kzg_proof = match compute_blob_kzg_proof(blob, &commitment, settings) {
        Ok(p) => p,
        Err(e) => {
            return Err(PipelineError::ProofComputationFailed(kzg_error_description(&e)));
        },
    };
    Ok((commitment, kzg_proof))
}

/// Generate a canonical blob and compute its commitment and proof. On
/// success the triple is mutually consistent: the commitment and proof
/// are exactly the scheme's values for this iteration's blob under this
/// setup. Blob construction never fails, so any error comes from one of
/// the two cryptographic calls, and only when the scheme refused the
/// drawn canonical blob at that stage.
pub fn random_valid_blob_components(settings: &c_kzg::KzgSettings) -> (r: Result<
    (c_kzg::Blob, KzgCommitment, KzgProof),
    PipelineError,
>)
    ensures
        r matches Ok(t) ==> canonical_blob(blob_data(t.0)) && commit_accepts(
            setup_points(*settings),
            setup_precompute(*settings),
            blob_data(t.0),
        ) && proof_accepts(
            setup_points(*settings),
            setup_precompute(*settings),
            blob_data(t.0),
            t.1.0@,
        ) && t.1.0@ == commitment_bytes_of(
            setup_points(*settings),
            setup_precompute(*settings),
            blob_data(t.0),
        ) && t.2.0@ == proof_bytes_of(
            setup_points(*settings),
            setup_precompute(*settings),
            blob_data(t.0),
            t.1.0@,
        ),
        r matches Err(e) ==> (e is CommitmentComputationFailed || e is ProofComputationFailed),
        r matches Err(e) && e is CommitmentComputationFailed ==> exists|b: Seq<u8>|
            #[trigger] canonical_blob(b) && !commit_accepts(
                setup_points(*settings),
                setup_precompute(*settings),
                b,
            ),
        r matches Err(e) && e is ProofComputationFailed ==> exists|b: Seq<u8>|
            #[trigger] canonical_blob(b) && commit_accepts(
                setup_points(*settings),
                setup_precompute(*settings),
                b,
            ) && !proof_accepts(
                setup_points(*settings),
                setup_precompute(*settings),
                b,
                commitment_bytes_of(setup_points(*settings), setup_precompute(*settings), b),
            ),
{
    let blob = match random_valid_blob() {
        Ok(b) => b,
        Err(e) => {
            return Err(PipelineError::BlobConstruction(e));
        },
    };
    let (commitment, kzg_proof) = match compute(&blob, settings) {
        Ok(t) => t,
        Err(e) => {
            return Err(e);
        },
    };
    Ok((blob, commitment, kzg_proof))
}

/// Commitment and proof computation are deterministic: over one trusted
/// setup, equal blob bytes give the same success verdict at each stage,
/// equal commitment bytes, and equal proof bytes against that
/// commitment. The wrappers' contracts pin both computations, and
/// whether each succeeds, to functions of the setup and the argument
/// bytes alone, so the equalities follow for any two runs.
pub proof fn lemma_pipeline_deterministic(
    points1: Seq<u8>,
    precompute1: u64,
    blob1: Seq<u8>,
    points2: Seq<u8>,
    precompute2: u64,
    blob2: Seq<u8>,
)
    requires
        points1 == points2,
        precompute1 == precompute2,
        blob1 == blob2,
    ensures
        commit_accepts(points1, precompute1, blob1) == commit_accepts(
            points2,
            precompute2,
            blob2,
        ),
        proof_accepts(
            points1,
            precompute1,
            blob1,
            commitment_bytes_of(points1, precompute1, blob1),
        ) == proof_accepts(
            points2,
            precompute2,
            blob2,
            commitment_bytes_of(points2, precompute2, blob2),
        ),
        commitment_bytes_of(points1, precompute1, blob1) == commitment_bytes_of(
            points2,
            precompute2,
            blob2,
        ),
        proof_bytes_of(
            points1,
            precompute1,
            blob1,
            commitment_bytes_of(points1, precompute1, blob1),
        ) == proof_bytes_of(
            points2,
            precompute2,
            blob2,
            commitment_bytes_of(points2, precompute2, blob2),
        ),
{
}

} // verus!
