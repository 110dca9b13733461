//! The proof binding a blob to its commitment, held as plain bytes.

use vstd::prelude::*;

use crate::params::BYTES_PER_PROOF;

verus! {

/// A proof binding a blob to its commitment, enabling verification.
#[derive(PartialEq, Hash, Clone, Copy)]
pub struct KzgProof(pub [u8; BYTES_PER_PROOF]);

} // verus!
