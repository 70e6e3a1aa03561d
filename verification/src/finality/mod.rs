//! GRANDPA finality: authority sets, votes, finality status and the finality predicate.

pub mod authority;
pub mod client;
pub mod config;
pub mod error;
pub mod predicate;
pub mod status;
pub mod verification;
pub mod voters;

pub use authority::{AuthoritySet, AuthoritySetChange, AuthoritySetManager};
pub use client::{GrandpaFinalityProvider, SubstrateBlockRef, SubstrateVerificationClient};
pub use config::{ChainConfig, GrandpaVerificationParams, NetworkType};
pub use error::{FinalityError, FinalityVerificationError, GrandpaFinalityVerificationError};
pub use predicate::GrandpaFinality;
pub use status::{FinalityCache, FinalityStatus, VotingRoundInfo};
pub use voters::{JustificationTally, Voters};
