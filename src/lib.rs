//! A coin-flip wager whose outcome is drawn from an externally produced
//! signature: a stake is collected into a pool, and a favourable digest of the
//! signature pays the pool out.
//!
//! Starting a wager (`Contract::flip`) and resolving it
//! (`Contract::mpc_callback`) are two separate steps; the host carries the
//! signature request between them and performs the payout transfer.

pub mod contract;
pub mod digest;
pub mod hex_text;
pub mod laws;

pub use contract::{
    Contract, ExternalCallError, FlipError, Resolution, ResolveError, SignatureRequest,
    SignatureResponse, Totals, Transfer, FLIP_COST, FLIP_KEEP,
};
pub use digest::{is_favorable, prefix_value};
