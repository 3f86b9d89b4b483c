//! The states a molecule builder passes through.

use vstd::prelude::*;

verus! {

/// Nothing configured yet.
#[derive(Debug)]
pub struct Empty;

/// A source wallet is configured.
#[derive(Debug)]
pub struct WithSourceWallet;

/// Atoms have been added.
#[derive(Debug)]
pub struct WithAtoms;

/// Ready to be signed.
#[derive(Debug)]
pub struct ReadyToSign;

/// Signed, ready to be built.
#[derive(Debug)]
pub struct Signed;

} // verus!
