//! Parameters of the mutation that claims a shadow wallet.

use vstd::prelude::*;

verus! {

/// What a shadow-wallet claim names: the token and, possibly, a batch.
#[derive(Debug)]
pub struct ClaimShadowWalletParams {
    /// The token to claim
    pub token: String,
    /// The batch of the claim
    pub batch_id: Option<String>,
}

} // verus!
