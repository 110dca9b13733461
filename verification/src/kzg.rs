//! Trusted surface over the `c-kzg` crate: the opaque types it supplies and
//! wrappers for the five calls the pipeline makes. Every contract here is
//! believed, not proved; each doc comment names the function relied on.
//!
//! The results of the cryptographic calls are functions of the trusted
//! setup and the argument bytes alone, so each is given a name
//! (`commitment_bytes_of`, `proof_bytes_of`, `verify_outcome_of`) that the
//! verified pipeline's contracts speak of exactly.

use vstd::prelude::*;

use crate::kzg_commitment::KzgCommitment;
use crate::kzg_proof::KzgProof;
use crate::params::BYTES_PER_BLOB;

verus! {

#[verifier::external_type_specification]
#[verifier::external_body]
pub struct ExBlob(c_kzg::Blob);

#[verifier::external_type_specification]
#[verifier::external_body]
pub struct ExKzgSettings(c_kzg::KzgSettings);

#[verifier::external_type_specification]
#[verifier::external_body]
pub struct ExError(c_kzg::Error);

/// The bytes a blob holds.
pub uninterp spec fn blob_data(b: c_kzg::Blob) -> Seq<u8>;

/// The group-point encodings a trusted setup was built from, G1 monomial,
/// then G1 Lagrange, then G2 monomial, laid end to end.
pub uninterp spec fn setup_points(s: c_kzg::KzgSettings) -> Seq<u8>;

/// The precompute width a trusted setup was built with.
pub uninterp spec fn setup_precompute(s: c_kzg::KzgSettings) -> u64;

/// Whether `load_trusted_setup` accepts the given point encodings and
/// precompute width: its verdict is a function of these alone.
pub uninterp spec fn setup_accepts(
    g1_monomial: Seq<u8>,
    g1_lagrange: Seq<u8>,
    g2_monomial: Seq<u8>,
    precompute: u64,
) -> bool;

/// Whether `blob_to_kzg_commitment` succeeds for a given setup and blob
/// bytes: its verdict is a function of these alone.
pub uninterp spec fn commit_accepts(points: Seq<u8>, precompute: u64, blob: Seq<u8>) -> bool;

/// Whether `compute_blob_kzg_proof` succeeds for a given setup, blob
/// bytes and commitment bytes: its verdict is a function of these alone.
pub uninterp spec fn proof_accepts(
    points: Seq<u8>,
    precompute: u64,
    blob: Seq<u8>,
    commitment: Seq<u8>,
) -> bool;

/// Whether `verify_blob_kzg_proof` reaches a verdict, rather than
/// erroring, for a given setup and byte triple: a function of these alone.
pub uninterp spec fn verify_accepts(
    points: Seq<u8>,
    precompute: u64,
    blob: Seq<u8>,
    commitment: Seq<u8>,
    proof_bytes: Seq<u8>,
) -> bool;

/// The commitment bytes that `blob_to_kzg_commitment` computes for a given
/// setup and blob bytes.
pub uninterp spec fn commitment_bytes_of(points: Seq<u8>, precompute: u64, blob: Seq<u8>) -> Seq<
    u8,
>;

/// The proof bytes that `compute_blob_kzg_proof` computes for a given
/// setup, blob bytes and commitment bytes.
pub uninterp spec fn proof_bytes_of(
    points: Seq<u8>,
    precompute: u64,
    blob: Seq<u8>,
    commitment: Seq<u8>,
) -> Seq<u8>;

/// The verdict that `verify_blob_kzg_proof` reaches for a given setup and
/// (blob, commitment, proof) byte triple.
pub uninterp spec fn verify_outcome_of(
    points: Seq<u8>,
    precompute: u64,
    blob: Seq<u8>,
    commitment: Seq<u8>,
    proof_bytes: Seq<u8>,
) -> bool;

/// Relies on `c_kzg::Blob::from_bytes`: it succeeds exactly on a buffer of
/// `BYTES_PER_BLOB` bytes, which it copies into the blob.
#[verifier::external_body]
pub(crate) fn blob_from_bytes(bytes: &Vec<u8>) -> (r: Result<c_kzg::Blob, c_kzg::Error>)
    ensures
        r is Ok <==> bytes@.len() == BYTES_PER_BLOB,
        r matches Ok(b) ==> blob_data(b) == bytes@,
{
    c_kzg::Blob::from_bytes(bytes.as_slice())
}

/// Relies on `c_kzg::KzgSettings::load_trusted_setup`: its validation is
/// deterministic, a function of the point encodings and the precompute
/// width alone, named `setup_accepts`; on success the settings hold
/// exactly the given points and precompute width. Its documentation
/// allows precompute values 0 through 15.
#[verifier::external_body]
pub(crate) fn load_trusted_setup(
    g1_monomial: &Vec<u8>,
    g1_lagrange: &Vec<u8>,
    g2_monomial: &Vec<u8>,
    precompute: u64,
) -> (r: Result<c_kzg::KzgSettings, c_kzg::Error>)
    requires
        precompute <= 15,
    ensures
        r is Ok <==> setup_accepts(g1_monomial@, g1_lagrange@, g2_monomial@, precompute),
        r matches Ok(s) ==> setup_points(s) == g1_monomial@ + g1_lagrange@ + g2_monomial@
            && setup_precompute(s) == precompute,
{
    c_kzg::KzgSettings::load_trusted_setup(
        g1_monomial.as_slice(),
        g1_lagrange.as_slice(),
        g2_monomial.as_slice(),
        precompute,
    )
}

/// Relies on `c_kzg::KzgSettings::blob_to_kzg_commitment`: whether it
/// succeeds, and the commitment it computes, are functions of the setup
/// and the blob bytes alone, named `commit_accepts` and
/// `commitment_bytes_of`.
#[verifier::external_body]
pub(crate) fn blob_to_kzg_commitment(blob: &c_kzg::Blob, settings: &c_kzg::KzgSettings) -> (r:
    Result<KzgCommitment, c_kzg::Error>)
    ensures
        r is Ok <==> commit_accepts(
            setup_points(*settings),
            setup_precompute(*settings),
            blob_data(*blob),
        ),
        r matches Ok(c) ==> c.0@ == commitment_bytes_of(
            setup_points(*settings),
            setup_precompute(*settings),
            blob_data(*blob),
        ),
{
    settings.blob_to_kzg_commitment(blob).map(|c| KzgCommitment(c.to_bytes().into_inner()))
}

/// Relies on `c_kzg::KzgSettings::compute_blob_kzg_proof`: whether it
/// succeeds, and the proof it computes, are functions of the setup, the
/// blob bytes and the commitment bytes alone, named `proof_accepts` and
/// `proof_bytes_of`.
#[verifier::external_body]
pub(crate) fn compute_blob_kzg_proof(
    blob: &c_kzg::Blob,
    commitment: &KzgCommitment,
    settings: &c_kzg::KzgSettings,
) -> (r: Result<KzgProof, c_kzg::Error>)
    ensures
        r is Ok <==> proof_accepts(
            setup_points(*settings),
            setup_precompute(*settings),
            blob_data(*blob),
            commitment.0@,
        ),
        r matches Ok(p) ==> p.0@ == proof_bytes_of(
            setup_points(*settings),
            setup_precompute(*settings),
            blob_data(*blob),
            commitment.0@,
        ),
{
    settings
        .compute_blob_kzg_proof(blob, &c_kzg::Bytes48::new(commitment.0))
        .map(|p| KzgProof(p.to_bytes().into_inner()))
}

/// Relies on `c_kzg::KzgSettings::verify_blob_kzg_proof`: whether it
/// reaches a verdict, and the verdict itself, are functions of the setup
/// and the three byte buffers alone, named `verify_accepts` and
/// `verify_outcome_of`.
#[verifier::external_body]
pub(crate) fn verify_blob_kzg_proof(
    blob: &c_kzg::Blob,
    commitment: &KzgCommitment,
    kzg_proof: &KzgProof,
    settings: &c_kzg::KzgSettings,
) -> (r: Result<bool, c_kzg::Error>)
    ensures
        r is Ok <==> verify_accepts(
            setup_points(*settings),
            setup_precompute(*settings),
            blob_data(*blob),
            commitment.0@,
            kzg_proof.0@,
        ),
        r matches Ok(v) ==> v == verify_outcome_of(
            setup_points(*settings),
            setup_precompute(*settings),
            blob_data(*blob),
            commitment.0@,
            kzg_proof.0@,
        ),
{
    settings.verify_blob_kzg_proof(
        blob,
        &c_kzg::Bytes48::new(commitment.0),
        &c_kzg::Bytes48::new(kzg_proof.0),
    )
}

/// Relies on the `Debug` impl of `c_kzg::Error` for a human-readable
/// account of a failure; nothing is assumed of the text.
#[verifier::external_body]
pub(crate) fn kzg_error_description(e: &c_kzg::Error) -> String {
    format!("{:?}", e)
}

} // verus!
