//! A minimal stateful contract core: entry-point dispatch over a single
//! owner record, an incrementally built response envelope, and a layered
//! query gateway that keeps transport failures, logical failures and
//! successful values apart.

pub mod types;
pub mod errors;
pub mod text;
pub mod querier;
pub mod api;
pub mod msg;
pub mod response;
pub mod state;
pub mod codec;
pub mod contract;
pub mod testing;
