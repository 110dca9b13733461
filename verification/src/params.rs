//! Fixed dimensions of the commitment scheme's data.

use vstd::prelude::*;

verus! {

/// Number of bytes in the big-endian encoding of one field element.
pub const BYTES_PER_FIELD_ELEMENT: usize = 32;

/// Number of field-element slots in a blob.
pub const FIELD_ELEMENTS_PER_BLOB: usize = 4096;

/// Total byte length of a blob: one slot per field element.
pub const BYTES_PER_BLOB: usize = 131072;

/// Byte length of a commitment.
pub const BYTES_PER_COMMITMENT: usize = 48;

/// Byte length of a proof.
pub const BYTES_PER_PROOF: usize = 48;

} // verus!
