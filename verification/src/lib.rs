//! A programmable-authorization wrapper for a legacy on-ledger asset.
//!
//! The wrapper is a state machine. Each entry point checks its guards against
//! the wrapper's own state and the principals that signed the call, and then
//! either finishes or names the one operation it needs from the host: a
//! review by the policy controller, a change of the legacy asset's issuing
//! authority, or an action against the legacy asset. The host performs the
//! operation and hands the reply to [`WrapperInterface::resume`], which
//! decides what happens next.

pub mod account_authorization;
pub mod address;
pub mod collaborators;
pub mod contract;
pub mod error;
pub mod host;
pub mod laws;
pub mod metadata;
pub mod model;
pub mod swap;
pub mod validations;

pub use account_authorization::{AccountFlags, FlagEntry};
pub use address::Address;
pub use collaborators::{Collaborators, Played};
pub use contract::{SpecifcFeaturesTrait, WrapperInterface};
pub use error::Error;
pub use host::{AssetAction, Grant, Reply, Request, Step};
pub use metadata::WrapperMetadata;
pub use model::{Entry, PendingCall, WrapperState};
pub use swap::{SwapContract, SwapPlan, SwapTrait, TokenTransfer};
