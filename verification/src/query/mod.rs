//! GraphQL queries: each holds its filter parameters, its query text and the
//! variables it sends.

pub mod active_session;
pub mod atom;
pub mod balance;
pub mod batch;
pub mod continu_id;
pub mod meta_type;
pub mod meta_type_via_atom;
pub mod policy;
pub mod token;
pub mod user_activity;
pub mod wallet_bundle;
pub mod wallet_list;
