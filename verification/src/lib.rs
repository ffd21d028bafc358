//! The executive of a smart-contract runtime.
//!
//! The executive drives a nested, re-entrant stack of contract invocations on
//! behalf of a host chain. It dispatches constructors and calls, moves value
//! under the subsistence rule, sub-meters gas per frame, keeps a live cache of
//! contract records across re-entrant frames and decides what is written back
//! when a frame ends.
//!
//! Everything the executive needs from the chain (balances, contract records,
//! rent, storage transactions, events) is reached through [`host::Host`]; the
//! code that runs inside a frame is an [`executable::Executable`]. The host
//! promises nothing to the verifier, and an executable only that it leaves
//! the frames of the stack in place: every function here is proved for
//! whatever a host or an executable answers.

pub mod primitives;
pub mod error;
pub mod gas;
pub mod contract;
pub mod host;
pub mod cache;
pub mod transfer;
pub mod executable;
pub mod rent_params;
pub mod frame;
pub mod model;
pub mod stack;
pub mod executive;
pub mod ext;
pub mod laws;
mod sealing;
