//! Verified core of the KnishIO client library: query and mutation builders,
//! molecule composition, the WOTS+ hash normalisation, metadata access policies,
//! rule conditions and secret-storage helpers.

pub mod atom;
pub mod clock;
pub mod error;
pub mod json;
pub mod keyed;
pub mod molecule;
pub mod mutation;
pub mod numeric;
pub mod policy_meta;
pub mod text;
pub mod types;
pub mod wallet;
pub mod query;
pub mod response;
pub mod rules;
pub mod storage;
