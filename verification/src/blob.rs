//! Canonical blob generation: a blob is a fixed-length byte buffer whose
//! field-element slots must each encode a value below the scheme's modulus.
//! Zeroing the most-significant (first, big-endian) byte of every slot keeps
//! each slot inside a conservative sub-range of the field, which the scheme
//! accepts as canonical.

use vstd::prelude::*;

use crate::kzg::{blob_data, blob_from_bytes};
use crate::params::{BYTES_PER_BLOB, BYTES_PER_FIELD_ELEMENT, FIELD_ELEMENTS_PER_BLOB};

verus! {

/// Why constructing a blob failed.
#[derive(Debug, Clone, Copy, PartialEq, Eq, Structural)]
pub enum BlobError {
    /// Computing a slot's byte offset would overflow the address space.
    IndexOverflow,
    /// A computed slot offset lands outside the buffer.
    OutOfBounds,
    /// The final byte buffer was rejected by the blob constructor.
    MalformedBlob,
}

/// Byte offset of the first (most-significant) byte of slot `j`.
pub open spec fn slot_start(j: int) -> int {
    j * (BYTES_PER_FIELD_ELEMENT as int)
}

/// The buffer `s`, with the most-significant byte of every field-element
/// slot replaced by zero. Bytes past the blob's extent are untouched.
pub open spec fn canonicalized(s: Seq<u8>) -> Seq<u8> {
    Seq::new(
        s.len(),
        |k: int|
            if k % (BYTES_PER_FIELD_ELEMENT as int) == 0 && k < BYTES_PER_BLOB as int {
                0u8
            } else {
                s[k]
            },
    )
}

/// A full-size buffer whose every slot has a zero most-significant byte.
pub open spec fn canonical_blob(s: Seq<u8>) -> bool {
    &&& s.len() == BYTES_PER_BLOB
    &&& forall|j: int|
        0 <= j < FIELD_ELEMENTS_PER_BLOB ==> s[#[trigger] slot_start(j)] == 0
}

/// Canonicalizing a full-size buffer yields a canonical blob.
pub proof fn lemma_canonicalized_is_canonical(s: Seq<u8>)
    requires
        s.len() == BYTES_PER_BLOB,
    ensures
        canonical_blob(canonicalized(s)),
{
    assert forall|j: int| 0 <= j < FIELD_ELEMENTS_PER_BLOB implies canonicalized(s)[
        #[trigger] slot_start(j)
    ] == 0 by {
        assert((j * 32) % 32 == 0 && 0 <= j * 32 && j * 32 < 131072) by (nonlinear_arith)
            requires
                0 <= j < 4096,
        ;
    }
}

/// Zero the most-significant byte of every field-element slot in place.
///
/// Succeeds exactly when the buffer reaches past the start of the last
/// slot; on a shorter buffer the first out-of-range slot is reported.
pub fn canonicalize_blob_bytes(bytes: &mut Vec<u8>) -> (r: Result<(), BlobError>)
    ensures
        final(bytes)@ == canonicalized(old(bytes)@),
        r is Ok <==> old(bytes)@.len() > (FIELD_ELEMENTS_PER_BLOB - 1) * BYTES_PER_FIELD_ELEMENT,
        r is Err ==> r == Err::<(), BlobError>(BlobError::OutOfBounds),
{
    let ghost orig = bytes@;
    let n = bytes.len();
    let mut i: usize = 0;
    while i < FIELD_ELEMENTS_PER_BLOB
        invariant
            i <= FIELD_ELEMENTS_PER_BLOB,
            orig == old(bytes)@,
            n == orig.len(),
            bytes@.len() == orig.len(),
            forall|k: int|
                0 <= k < orig.len() ==> bytes@[k] == (if k % 32 == 0 && k < i * 32 {
                    0u8
                } else {
                    orig[k]
                }),
            i > 0 ==> (i - 1) * 32 < n,
        decreases FIELD_ELEMENTS_PER_BLOB - i,
    {
        let offset = match i.checked_mul(BYTES_PER_FIELD_ELEMENT) {
            Some(o) => o,
            None => {
                return Err(BlobError::IndexOverflow);
            },
        };
        if offset >= n {
            proof {
                assert(n <= i * 32 <= 4095 * 32);
                assert forall|k: int| 0 <= k < orig.len() implies bytes@[k] == canonicalized(
                    orig,
                )[k] by {
                    if k % 32 == 0 {
                        assert(k < i * 32);
                    }
                }
                assert(bytes@ =~= canonicalized(orig));
            }
            return Err(BlobError::OutOfBounds);
        }
        bytes.set(offset, 0);
        proof {
            assert((i * 32) % 32 == 0) by (nonlinear_arith);
            assert forall|k: int| 0 <= k < orig.len() implies bytes@[k] == (if k % 32 == 0 && k < (i
                + 1) * 32 {
                0u8
            } else {
                orig[k]
            }) by {
                if k != i * 32 && k % 32 == 0 {
                    assert(!(i * 32 <= k < (i + 1) * 32)) by (nonlinear_arith)
                        requires
                            k % 32 == 0 && k != i * 32,
                    ;
                }
            }
        }
        i += 1;
    }
    proof {
        assert(4095 * 32 < n);
        assert forall|k: int| 0 <= k < orig.len() implies bytes@[k] == canonicalized(orig)[k] by {
            if k % 32 == 0 && k < 131072 {
                assert(k < i * 32);
            } else if k % 32 == 0 {
                assert(!(k < i * 32)) by (nonlinear_arith)
                    requires
                        k >= 131072 && i == 4096,
                ;
            }
        }
        assert(bytes@ =~= canonicalized(orig));
    }
    Ok(())
}

/// Relies on `rand::rng` and `rand::Rng::fill_bytes`: a fresh buffer of
/// the requested length, filled from the thread-local generator. Nothing
/// is assumed of the bytes beyond their count.
#[verifier::external_body]
fn random_bytes(len: usize) -> (r: Vec<u8>)
    ensures
        r@.len() == len,
{
    let mut buf = vec![0u8; len];
    rand::Rng::fill_bytes(&mut rand::rng(), buf.as_mut_slice());
    buf
}

/// Build a blob from caller-supplied entropy: zero the most-significant
/// byte of every slot, then hand the buffer to the blob constructor.
/// Succeeds exactly on a buffer of the blob's full size.
pub fn blob_from_entropy(entropy: Vec<u8>) -> (r: Result<c_kzg::Blob, BlobError>)
    ensures
        r is Ok <==> entropy@.len() == BYTES_PER_BLOB,
        r matches Ok(b) ==> blob_data(b) == canonicalized(entropy@) && canonical_blob(
            blob_data(b),
        ),
        entropy@.len() <= (FIELD_ELEMENTS_PER_BLOB - 1) * BYTES_PER_FIELD_ELEMENT ==> r == Err::<
            c_kzg::Blob,
            BlobError,
        >(BlobError::OutOfBounds),
        entropy@.len() > (FIELD_ELEMENTS_PER_BLOB - 1) * BYTES_PER_FIELD_ELEMENT && entropy@.len()
            != BYTES_PER_BLOB ==> r == Err::<c_kzg::Blob, BlobError>(BlobError::MalformedBlob),
{
    let mut bytes = entropy;
    let ghost source = bytes@;
    match canonicalize_blob_bytes(&mut bytes) {
        Ok(()) => {},
        Err(e) => {
            return Err(e);
        },
    }
    proof {
        if source.len() == BYTES_PER_BLOB {
            lemma_canonicalized_is_canonical(source);
        }
    }
    match blob_from_bytes(&bytes) {
        Ok(b) => Ok(b),
        Err(_) => Err(BlobError::MalformedBlob),
    }
}

/// Draw fresh entropy and build a canonical blob from it: the blob always
/// comes back, at the full blob size, with every slot's most-significant
/// byte zero, whatever bytes the generator produced.
pub fn random_valid_blob() -> (r: Result<c_kzg::Blob, BlobError>)
    ensures
        r matches Ok(b) && canonical_blob(blob_data(b)),
{
    blob_from_entropy(random_bytes(BYTES_PER_BLOB))
}

} // verus!
