//! Loading of the trusted-setup parameters: the group-point encodings are
//! threaded in explicitly, so alternate setups can be substituted, and are
//! handed to the external setup-loading primitive once at startup.

use vstd::prelude::*;

use crate::kzg::{
    kzg_error_description, load_trusted_setup, setup_accepts, setup_points, setup_precompute,
};

verus! {

/// The external setup-loading primitive rejected the parameters; fatal,
/// before any iteration runs.
#[derive(Debug)]
pub struct TrustedSetupLoadError(pub String);

/// Build the scheme's settings from the three point collections: G1
/// monomial, G1 Lagrange and G2 monomial encodings, each laid flat. This
/// succeeds exactly when the loading primitive accepts these points, and
/// the settings then hold exactly these points, with no precompute.
pub fn load_setup(g1_monomial: &Vec<u8>, g1_lagrange: &Vec<u8>, g2_monomial: &Vec<u8>) -> (r:
    Result<c_kzg::KzgSettings, TrustedSetupLoadError>)
    ensures
        r is Ok <==> setup_accepts(g1_monomial@, g1_lagrange@, g2_monomial@, 0),
        r matches Ok(s) ==> setup_points(s) == g1_monomial@ + g1_lagrange@ + g2_monomial@
            && setup_precompute(s) == 0,
{
    match load_trusted_setup(g1_monomial, g1_lagrange, g2_monomial, 0) {
        Ok(s) => Ok(s),
        Err(e) => Err(TrustedSetupLoadError(kzg_error_description(&e))),
    }
}

} // verus!
