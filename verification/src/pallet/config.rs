//! What a runtime has to provide.

use vstd::prelude::*;

use crate::grandpa::BlockHash;
use crate::number::GrandpaNumber;
use crate::trusted;
use crate::trusted::blake2_256_hash;

verus! {

/// A hash function with 32 bytes of output.
pub trait FrostHash {
    /// The hash of `data`.
    spec fn digest(data: Seq<u8>) -> Seq<u8>;

    /// Hashes `data`.
    fn hash(data: &[u8]) -> (r: BlockHash)
        ensures
            r@ == Self::digest(data@),
    ;
}

/// The hash function BLAKE2 with 32 bytes of output.
#[derive(Clone, Copy, Debug)]
pub struct BlakeTwo256;

impl FrostHash for BlakeTwo256 {
    open spec fn digest(data: Seq<u8>) -> Seq<u8> {
        trusted::blake2_256(data)
    }

    fn hash(data: &[u8]) -> (r: BlockHash) {
        blake2_256_hash(data)
    }
}

/// What a runtime has to provide.
pub trait Config {
    /// The hash function for watch targets.
    type FrostHash: FrostHash;

    /// The type of block numbers.
    type Number: GrandpaNumber;

    /// The client for access to the chain.
    type Client;
}

/// The hash of data under BLAKE2 is that of all the data.
pub proof fn law_blake2_hashes_all_the_data(data: Seq<u8>)
    ensures
        <BlakeTwo256 as FrostHash>::digest(data) == trusted::blake2_256(data),
{
}

} // verus!
