//! Block numbers of different widths.

use vstd::prelude::*;

use crate::grandpa;
use crate::grandpa::{BlockHash, GrandpaJustification, JustificationView};
use crate::trusted;
use crate::trusted::{
    decode_justification_u32, decode_justification_u64, encode_precommit_u32, encode_precommit_u64,
};

verus! {

/// `n`, or `max` where `n` exceeds it.
pub open spec fn nearest(n: nat, max: nat) -> nat {
    if n <= max {
        n
    } else {
        max
    }
}

/// `a - b`, or zero where that would be negative.
pub open spec fn difference(a: nat, b: nat) -> nat {
    if a >= b {
        (a - b) as nat
    } else {
        0
    }
}

/// An unsigned block number of at most 64 bits.
pub trait BlockNumber: Copy + Sized {
    /// The number as a mathematical integer.
    spec fn as_nat(self) -> nat;

    /// The largest number of this type.
    spec fn max_nat() -> nat;

    /// Every number lies between zero and the largest one, which fits 64 bits.
    proof fn lemma_bounds(self)
        ensures
            self.as_nat() <= Self::max_nat() <= u64::MAX,
    ;

    /// The number zero.
    fn zero() -> (r: Self)
        ensures
            r.as_nat() == 0,
    ;

    /// The number nearest to `value`.
    fn saturated_from(value: u64) -> (r: Self)
        ensures
            r.as_nat() == nearest(value as nat, Self::max_nat()),
    ;

    /// The same number with 64 bits.
    fn to_u64(self) -> (r: u64)
        ensures
            r as nat == self.as_nat(),
    ;
}

/// A block number for which GRANDPA votes and justifications have a byte form.
pub trait GrandpaNumber: BlockNumber {
    /// The number `n` of this type in little-endian byte order.
    spec fn le_bytes(n: nat) -> Seq<u8>;

    /// The justification that `bytes` hold for a chain with numbers of this type.
    spec fn decoded_justification(bytes: Seq<u8>) -> Option<JustificationView>;

    /// The bytes that a precommit vote for the given block is signed over.
    fn encode_precommit(target_hash: &BlockHash, target_number: Self) -> (r: Vec<u8>)
        ensures
            r@ == target_hash@ + Self::le_bytes(target_number.as_nat()),
    ;

    /// Reads a justification from `bytes`.
    fn decode_justification(bytes: &[u8]) -> (r: Option<GrandpaJustification<Self>>)
        ensures
            grandpa::optional_view(r) == Self::decoded_justification(bytes@),
    ;
}

impl BlockNumber for u32 {
    open spec fn as_nat(self) -> nat {
        self as nat
    }

    open spec fn max_nat() -> nat {
        u32::MAX as nat
    }

    proof fn lemma_bounds(self) {
    }

    fn zero() -> (r: Self) {
        0
    }

    fn saturated_from(value: u64) -> (r: Self) {
        if value <= u32::MAX as u64 {
            value as u32
        } else {
            u32::MAX
        }
    }

    fn to_u64(self) -> (r: u64) {
        self as u64
    }
}

impl GrandpaNumber for u32 {
    open spec fn le_bytes(n: nat) -> Seq<u8> {
        vstd::bytes::spec_u32_to_le_bytes(n as u32)
    }

    open spec fn decoded_justification(bytes: Seq<u8>) -> Option<JustificationView> {
        trusted::decoded_justification_u32(bytes)
    }

    fn encode_precommit(target_hash: &BlockHash, target_number: Self) -> (r: Vec<u8>) {
        encode_precommit_u32(target_hash, target_number)
    }

    fn decode_justification(bytes: &[u8]) -> (r: Option<GrandpaJustification<Self>>) {
        decode_justification_u32(bytes)
    }
}

impl BlockNumber for u64 {
    open spec fn as_nat(self) -> nat {
        self as nat
    }

    open spec fn max_nat() -> nat {
        u64::MAX as nat
    }

    proof fn lemma_bounds(self) {
    }

    fn zero() -> (r: Self) {
        0
    }

    fn saturated_from(value: u64) -> (r: Self) {
        value
    }

    fn to_u64(self) -> (r: u64) {
        self
    }
}

impl GrandpaNumber for u64 {
    open spec fn le_bytes(n: nat) -> Seq<u8> {
        vstd::bytes::spec_u64_to_le_bytes(n as u64)
    }

    open spec fn decoded_justification(bytes: Seq<u8>) -> Option<JustificationView> {
        trusted::decoded_justification_u64(bytes)
    }

    fn encode_precommit(target_hash: &BlockHash, target_number: Self) -> (r: Vec<u8>) {
        encode_precommit_u64(target_hash, target_number)
    }

    fn decode_justification(bytes: &[u8]) -> (r: Option<GrandpaJustification<Self>>) {
        decode_justification_u64(bytes)
    }
}

/// The difference of two block numbers, or zero where it would be negative.
pub fn saturating_sub<N: BlockNumber>(a: N, b: N) -> (r: N)
    ensures
        r.as_nat() == difference(a.as_nat(), b.as_nat()),
{
    proof {
        a.lemma_bounds();
    }
    N::saturated_from(a.to_u64().saturating_sub(b.to_u64()))
}

/// The nearest number never exceeds the largest one, and is the number itself where that fits.
pub proof fn law_nearest_number_fits(n: nat, max: nat)
    ensures
        n <= max ==> nearest(n, max) == n,
        n >= max ==> nearest(n, max) == max,
{
}

/// The difference of two numbers makes the smaller one up to the larger one, and there is none the
/// other way round.
pub proof fn law_difference_fills_the_gap(a: nat, b: nat)
    ensures
        a >= b ==> b + difference(a, b) == a,
        a <= b ==> difference(a, b) == 0,
{
}

/// Block numbers stand for themselves, are written in little-endian byte order with all their
/// bytes, and justifications are read by the width of the numbers.
pub proof fn law_block_numbers_keep_their_width(short: u32, long: u64, bytes: Seq<u8>)
    ensures
        short.as_nat() == short,
        long.as_nat() == long,
        <u32 as BlockNumber>::max_nat() == 0xffff_ffff,
        <u64 as BlockNumber>::max_nat() == 0xffff_ffff_ffff_ffff,
        <u32 as GrandpaNumber>::le_bytes(short as nat) == vstd::bytes::spec_u32_to_le_bytes(short),
        <u64 as GrandpaNumber>::le_bytes(long as nat) == vstd::bytes::spec_u64_to_le_bytes(long),
        <u32 as GrandpaNumber>::decoded_justification(bytes) == trusted::decoded_justification_u32(
            bytes,
        ),
        <u64 as GrandpaNumber>::decoded_justification(bytes) == trusted::decoded_justification_u64(
            bytes,
        ),
{
}

} // verus!
