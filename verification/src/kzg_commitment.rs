//! The commitment produced for a blob, held as plain bytes.

use vstd::prelude::*;

use crate::params::BYTES_PER_COMMITMENT;

verus! {

/// A commitment: a fixed-size cryptographic digest of a blob under the
/// trusted-setup parameters.
#[derive(Clone, Copy)]
pub struct KzgCommitment(pub [u8; BYTES_PER_COMMITMENT]);

} // verus!
