//! A correctness-testing harness for a KZG polynomial commitment scheme on
//! fixed-size blobs of field elements. The library generates structurally
//! valid random blobs, runs each through a commit -> prove -> verify
//! pipeline, and classifies the outcome of every trial. The cryptographic
//! primitives themselves are supplied by the `c-kzg` crate and stand behind
//! trusted wrappers; everything around them is verified.

pub mod args;
pub mod blob;
pub mod kzg;
pub mod kzg_commitment;
pub mod kzg_proof;
pub mod params;
pub mod pipeline;
pub mod report;
pub mod runner;
pub mod trusted_setup;
