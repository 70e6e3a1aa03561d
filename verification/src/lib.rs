//! Cross-chain state verification for Substrate chains: GRANDPA finality, observation of finalized
//! blocks, proofs of state transitions, and the routing of messages between chains.

pub mod error;
pub mod finality;
pub mod grandpa;
pub mod message;
pub mod number;
pub mod observer;
pub mod pallet;
pub mod proofs;
pub mod routing;
pub mod state;
pub mod store;
pub mod text;
pub mod trusted;
pub mod verification;
pub mod wrapper_types;

pub use wrapper_types::{SSMPStateTransition, SubstrateFrostMessage, SubstrateStateProof};
