//! Configuration of chains and of finality checks.

use vstd::prelude::*;
use vstd::string::StringExecFns;

use crate::text::joined;

verus! {

/// The network that a chain belongs to.
#[derive(Debug)]
pub enum NetworkType {
    Mainnet,
    Testnet(String),
    Development,
}

impl Clone for NetworkType {
    fn clone(&self) -> (r: Self)
        ensures
            r == *self,
    {
        match self {
            NetworkType::Mainnet => NetworkType::Mainnet,
            NetworkType::Testnet(name) => NetworkType::Testnet(name.clone()),
            NetworkType::Development => NetworkType::Development,
        }
    }
}

/// The identity of a chain.
#[derive(Debug)]
pub struct ChainConfig {
    pub chain_id: String,
    pub network_type: NetworkType,
    pub authority_set_id: u64,
}

impl Default for ChainConfig {
    fn default() -> (r: Self)
        ensures
            r.chain_id@ == "substrate-default"@,
            r.network_type is Development,
            r.authority_set_id == 0,
    {
        ChainConfig {
            chain_id: "substrate-default".to_owned(),
            network_type: NetworkType::Development,
            authority_set_id: 0,
        }
    }
}

impl Clone for ChainConfig {
    fn clone(&self) -> (r: Self)
        ensures
            r == *self,
    {
        ChainConfig {
            chain_id: self.chain_id.clone(),
            network_type: self.network_type.clone(),
            authority_set_id: self.authority_set_id,
        }
    }
}

impl ChainConfig {
    /// The identifier of the chain, marked with its network where that is not the main one.
    pub open spec fn full_id(&self) -> Seq<char> {
        match self.network_type {
            NetworkType::Mainnet => self.chain_id@,
            NetworkType::Testnet(name) => self.chain_id@ + "-testnet-"@ + name@,
            NetworkType::Development => self.chain_id@ + "-dev"@,
        }
    }

    /// The identifier of the chain, marked with its network where that is not the main one.
    pub fn get_chain_id(&self) -> (r: String)
        ensures
            r@ == self.full_id(),
    {
        match &self.network_type {
            NetworkType::Mainnet => self.chain_id.clone(),
            NetworkType::Testnet(name) => joined(self.chain_id.as_str(), "-testnet-").concat(
                name.as_str(),
            ),
            NetworkType::Development => joined(self.chain_id.as_str(), "-dev"),
        }
    }
}

/// What a block has to meet before it is taken as verified.
#[derive(Clone, Copy, Debug, PartialEq, Eq, Structural)]
pub struct GrandpaVerificationParams {
    /// Minimum number of block confirmations.
    pub min_confirmations: u32,
    /// Maximum allowed fork depth.
    pub max_fork_depth: u32,
    /// Verification timeout in seconds.
    pub timeout_secs: u64,
    /// Identifier of the GRANDPA voter set.
    pub set_id: u64,
    /// Whether signatures are verified strictly.
    pub strict_signature_verification: bool,
}

impl Default for GrandpaVerificationParams {
    fn default() -> (r: Self)
        ensures
            r == (GrandpaVerificationParams {
                min_confirmations: 2,
                max_fork_depth: 50,
                timeout_secs: 30,
                set_id: 0,
                strict_signature_verification: true,
            }),
    {
        GrandpaVerificationParams {
            min_confirmations: 2,
            max_fork_depth: 50,
            timeout_secs: 30,
            set_id: 0,
            strict_signature_verification: true,
        }
    }
}

/// The rules of a chain that a block has to meet.
#[derive(Clone, Copy, Debug, PartialEq, Eq, Structural)]
pub struct ChainRules {
    /// Minimum number of block confirmations.
    pub min_confirmations: u32,
    /// Maximum allowed fork depth.
    pub max_fork_depth: u32,
    /// Number of voting rounds of the finality protocol.
    pub voting_rounds: u32,
}

/// What the finality predicate asks of a block.
#[derive(Clone, Copy, Debug, PartialEq, Eq, Structural)]
pub struct PredicateConfig {
    /// Minimum number of block confirmations.
    pub min_confirmations: u32,
    /// The confidence that is asked for, in percent, rounded down.
    pub required_percent: u64,
    /// For how long finality is waited for, in nanoseconds.
    pub evaluation_timeout: u128,
}

/// The identifier of a chain is its own, followed by the network where that is not the main one.
pub proof fn law_identifiers_name_the_network(config: ChainConfig)
    ensures
        config.network_type is Mainnet ==> config.full_id() == config.chain_id@,
        config.network_type matches NetworkType::Testnet(name) ==> config.full_id()
            == config.chain_id@ + "-testnet-"@ + name@,
        config.network_type is Development ==> config.full_id() == config.chain_id@ + "-dev"@,
{
}

} // verus!
