use kzg_harness::args::{parse_iterations_arg_or_default, parse_usize, DEFAULT_ITERATIONS};
use kzg_harness::blob::{blob_from_entropy, canonicalize_blob_bytes, random_valid_blob, BlobError};
use kzg_harness::params::{BYTES_PER_BLOB, BYTES_PER_COMMITMENT, BYTES_PER_FIELD_ELEMENT, BYTES_PER_PROOF};
use kzg_harness::pipeline::{compute, random_valid_blob_components, PipelineError};
use kzg_harness::report::{render_usize, report_line};
use kzg_harness::runner::{run_iterations, IterationOutcome};
use kzg_harness::trusted_setup::load_setup;

#[test]
fn generated_blob_has_full_length() {
    let blob = random_valid_blob().unwrap();
    assert_eq!(blob.as_ref().len(), BYTES_PER_BLOB);
}

#[test]
fn generated_blob_slots_are_canonical() {
    let blob = random_valid_blob().unwrap();
    let bytes: &[u8] = blob.as_ref();
    for slot in 0..(BYTES_PER_BLOB / BYTES_PER_FIELD_ELEMENT) {
        assert_eq!(bytes[slot * BYTES_PER_FIELD_ELEMENT], 0);
    }
}

#[test]
fn blob_from_entropy_zeroes_only_slot_heads() {
    let entropy = vec![0xABu8; BYTES_PER_BLOB];
    let blob = blob_from_entropy(entropy).unwrap();
    let bytes: &[u8] = blob.as_ref();
    assert_eq!(bytes.len(), BYTES_PER_BLOB);
    for k in 0..BYTES_PER_BLOB {
        if k % BYTES_PER_FIELD_ELEMENT == 0 {
            assert_eq!(bytes[k], 0);
        } else {
            assert_eq!(bytes[k], 0xAB);
        }
    }
}

#[test]
fn canonicalize_zeroes_in_place() {
    let mut bytes = vec![0xFFu8; BYTES_PER_BLOB];
    assert!(canonicalize_blob_bytes(&mut bytes).is_ok());
    for k in 0..BYTES_PER_BLOB {
        if k % BYTES_PER_FIELD_ELEMENT == 0 {
            assert_eq!(bytes[k], 0);
        } else {
            assert_eq!(bytes[k], 0xFF);
        }
    }
}

#[test]
fn canonicalize_short_buffer_is_out_of_bounds() {
    let mut bytes = vec![0u8; 100];
    assert_eq!(canonicalize_blob_bytes(&mut bytes), Err(BlobError::OutOfBounds));
}

#[test]
fn blob_from_entropy_rejects_wrong_lengths() {
    assert!(matches!(
        blob_from_entropy(Vec::new()),
        Err(BlobError::OutOfBounds)
    ));
    assert!(matches!(
        blob_from_entropy(vec![0u8; BYTES_PER_BLOB - 1]),
        Err(BlobError::MalformedBlob)
    ));
    assert!(matches!(
        blob_from_entropy(vec![0u8; BYTES_PER_BLOB + 1]),
        Err(BlobError::MalformedBlob)
    ));
}

#[test]
fn parse_usize_accepts_digit_strings() {
    assert_eq!(parse_usize("123"), Some(123));
    assert_eq!(parse_usize("0"), Some(0));
    assert_eq!(parse_usize("+7"), Some(7));
    assert_eq!(parse_usize("4294967295"), Some(4294967295));
}

#[test]
fn parse_usize_rejects_non_numbers() {
    assert_eq!(parse_usize(""), None);
    assert_eq!(parse_usize("+"), None);
    assert_eq!(parse_usize("abc"), None);
    assert_eq!(parse_usize("12a"), None);
    assert_eq!(parse_usize("-3"), None);
    assert_eq!(parse_usize("99999999999999999999999999999"), None);
}

#[test]
fn iteration_arg_defaults_to_128() {
    assert_eq!(parse_iterations_arg_or_default(None), Some(128));
    assert_eq!(DEFAULT_ITERATIONS, 128);
}

#[test]
fn iteration_arg_non_numeric_is_refused() {
    let arg = String::from("abc");
    assert_eq!(parse_iterations_arg_or_default(Some(&arg)), None);
}

#[test]
fn iteration_arg_numeric_is_taken() {
    let arg = String::from("3");
    assert_eq!(parse_iterations_arg_or_default(Some(&arg)), Some(3));
}

#[test]
fn render_usize_writes_decimal() {
    assert_eq!(render_usize(0), "0");
    assert_eq!(render_usize(7), "7");
    assert_eq!(render_usize(128), "128");
    assert_eq!(render_usize(1000), "1000");
    assert_eq!(render_usize(4294967295), "4294967295");
}

#[test]
fn report_line_for_verdict() {
    let line = report_line(0, &IterationOutcome::Verified(true));
    assert_eq!(line, "Iteration 0 validation result: true");
    let line = report_line(5, &IterationOutcome::Verified(false));
    assert_eq!(line, "Iteration 5 validation result: false");
}

#[test]
fn report_line_for_failure() {
    let line = report_line(12, &IterationOutcome::Failed(String::from("boom")));
    assert_eq!(line, "Iteration 12 failed: boom");
}

#[test]
fn commitment_and_proof_are_deterministic() {
    let settings = c_kzg::ethereum_kzg_settings(0);
    let mut entropy = vec![0u8; BYTES_PER_BLOB];
    for (k, b) in entropy.iter_mut().enumerate() {
        *b = (k % 251) as u8;
    }
    let blob_a = blob_from_entropy(entropy.clone()).unwrap();
    let blob_b = blob_from_entropy(entropy).unwrap();
    let (commitment_a, proof_a) = compute(&blob_a, settings).unwrap();
    let (commitment_b, proof_b) = compute(&blob_b, settings).unwrap();
    assert_eq!(commitment_a.0, commitment_b.0);
    assert_eq!(proof_a.0, proof_b.0);
    assert_eq!(commitment_a.0.len(), BYTES_PER_COMMITMENT);
    assert_eq!(proof_a.0.len(), BYTES_PER_PROOF);
}

#[test]
fn honest_triple_verifies_as_valid() {
    let settings = c_kzg::ethereum_kzg_settings(0);
    let outcomes = run_iterations(3, settings).unwrap();
    assert_eq!(outcomes.len(), 3);
    for outcome in &outcomes {
        assert!(matches!(outcome, IterationOutcome::Verified(true)));
    }
}

#[test]
fn zero_iterations_report_nothing() {
    let settings = c_kzg::ethereum_kzg_settings(0);
    let outcomes = run_iterations(0, settings).unwrap();
    assert!(outcomes.is_empty());
}

#[test]
fn generated_components_are_mutually_consistent() {
    let settings = c_kzg::ethereum_kzg_settings(0);
    let (blob, commitment, kzg_proof) = random_valid_blob_components(settings).unwrap();
    let (commitment_again, proof_again) = compute(&blob, settings).unwrap();
    assert_eq!(commitment.0, commitment_again.0);
    assert_eq!(kzg_proof.0, proof_again.0);
}

#[test]
fn pipeline_errors_carry_their_cause() {
    let e = PipelineError::CommitmentComputationFailed(String::from("bad setup"));
    assert_eq!(e.message(), "error computing kzg commitment: bad setup");
    let e = PipelineError::ProofComputationFailed(String::from("bad pair"));
    assert_eq!(e.message(), "error computing kzg proof: bad pair");
    let e = PipelineError::BlobConstruction(BlobError::OutOfBounds);
    assert_eq!(
        e.message(),
        "error generating valid blob: blob byte index out of bounds"
    );
}

#[test]
fn corrupted_setup_is_refused() {
    let g1_monomial = vec![1u8, 2, 3];
    let g1_lagrange = vec![4u8, 5, 6];
    let g2_monomial = vec![7u8, 8, 9];
    assert!(load_setup(&g1_monomial, &g1_lagrange, &g2_monomial).is_err());
}
