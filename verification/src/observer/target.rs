//! What an observer watches for.

use vstd::prelude::*;
use vstd::std_specs::cmp::PartialEqSpec;

use frame_support::traits::ConstU32;
use frame_support::BoundedVec;

use crate::state::copied;
use crate::trusted;
use crate::trusted::{
    bounded_32, bounded_64, bounded_slice_32, bounded_slice_64, encode_watch_target, utf8_lossy,
};
use crate::wrapper_types;

verus! {

/// The most bytes in the name of a module, a function or a chain.
pub const MAX_NAME: usize = 32;

/// The most bytes in a message hash.
pub const MAX_MESSAGE_HASH: usize = 64;

/// A call of a runtime module to watch for, and the chain to route it to.
#[derive(Debug)]
pub struct WatchTarget {
    /// Module to watch.
    pub module_name: BoundedVec<u8, ConstU32<32>>,
    /// Function to watch.
    pub function_name: BoundedVec<u8, ConstU32<32>>,
    /// Optional message hash to watch for.
    pub message_hash: Option<BoundedVec<u8, ConstU32<64>>>,
    /// Target chain to route to.
    pub target_chain: BoundedVec<u8, ConstU32<32>>,
}

/// What a watch target says.
#[verifier::ext_equal]
pub struct TargetView {
    pub module_name: Seq<u8>,
    pub function_name: Seq<u8>,
    pub message_hash: Option<Seq<u8>>,
    pub target_chain: Seq<u8>,
}

impl View for WatchTarget {
    type V = TargetView;

    open spec fn view(&self) -> TargetView {
        TargetView {
            module_name: trusted::contents_32(self.module_name),
            function_name: trusted::contents_32(self.function_name),
            message_hash: match self.message_hash {
                Some(hash) => Some(trusted::contents_64(hash)),
                None => None,
            },
            target_chain: trusted::contents_32(self.target_chain),
        }
    }
}

impl TargetView {
    /// Whether every part is within its bound.
    pub open spec fn within_bounds(self) -> bool {
        &&& self.module_name.len() <= MAX_NAME
        &&& self.function_name.len() <= MAX_NAME
        &&& self.message_hash matches Some(hash) ==> hash.len() <= MAX_MESSAGE_HASH
        &&& self.target_chain.len() <= MAX_NAME
    }
}

/// Why the given parts make no watch target, if they do not.
pub open spec fn too_long(target: TargetView) -> Option<Seq<char>> {
    if target.module_name.len() > MAX_NAME {
        Some("Module name too long"@)
    } else if target.function_name.len() > MAX_NAME {
        Some("Function name too long"@)
    } else if target.message_hash is Some && target.message_hash->0.len() > MAX_MESSAGE_HASH {
        Some("Message hash too long"@)
    } else if target.target_chain.len() > MAX_NAME {
        Some("Target chain too long"@)
    } else {
        None
    }
}

/// A length below 2^14 in the compact form of SCALE: one byte for a length below 64, else two, with
/// the form in the two lowest bits.
pub open spec fn encoded_len(n: nat) -> Seq<u8> {
    if n < 64 {
        seq![(4 * n) as u8]
    } else {
        seq![((4 * n + 1) % 256) as u8, ((4 * n + 1) / 256) as u8]
    }
}

/// Bytes with their length in front.
pub open spec fn encoded_bytes(bytes: Seq<u8>) -> Seq<u8> {
    encoded_len(bytes.len()) + bytes
}

/// Optional bytes, with a byte in front that says whether there are any.
pub open spec fn encoded_option(bytes: Option<Seq<u8>>) -> Seq<u8> {
    match bytes {
        Some(b) => seq![1u8] + encoded_bytes(b),
        None => seq![0u8],
    }
}

/// A watch target in SCALE: its parts, one after the other.
pub open spec fn encoded_target(target: TargetView) -> Seq<u8> {
    encoded_bytes(target.module_name) + encoded_bytes(target.function_name) + encoded_option(
        target.message_hash,
    ) + encoded_bytes(target.target_chain)
}

impl WatchTarget {
    /// A watch target of the given parts, or which part is too long.
    pub fn new(
        module_name: Vec<u8>,
        function_name: Vec<u8>,
        message_hash: Option<Vec<u8>>,
        target_chain: Vec<u8>,
    ) -> (r: Result<Self, &'static str>)
        ensures
            ({
                let parts = TargetView {
                    module_name: module_name@,
                    function_name: function_name@,
                    message_hash: match message_hash {
                        Some(hash) => Some(hash@),
                        None => None,
                    },
                    target_chain: target_chain@,
                };
                match too_long(parts) {
                    Some(e) => r matches Err(err) && err@ == e,
                    None => r matches Ok(target) && target@ == parts,
                }
            }),
    {
        let module_name = match bounded_32(module_name) {
            Some(name) => name,
            None => {
                return Err("Module name too long");
            },
        };
        let function_name = match bounded_32(function_name) {
            Some(name) => name,
            None => {
                return Err("Function name too long");
            },
        };
        let message_hash = match message_hash {
            Some(hash) => match bounded_64(hash) {
                Some(hash) => Some(hash),
                None => {
                    return Err("Message hash too long");
                },
            },
            None => None,
        };
        let target_chain = match bounded_32(target_chain) {
            Some(name) => name,
            None => {
                return Err("Target chain too long");
            },
        };
        Ok(WatchTarget { module_name, function_name, message_hash, target_chain })
    }

    /// The name of the module.
    pub fn module(&self) -> (r: &[u8])
        ensures
            r@ == self@.module_name,
            r@.len() <= MAX_NAME,
    {
        bounded_slice_32(&self.module_name)
    }

    /// The name of the function.
    pub fn function(&self) -> (r: &[u8])
        ensures
            r@ == self@.function_name,
            r@.len() <= MAX_NAME,
    {
        bounded_slice_32(&self.function_name)
    }

    /// The message hash.
    pub fn hash(&self) -> (r: Option<&[u8]>)
        ensures
            match self@.message_hash {
                Some(hash) => r matches Some(bytes) && bytes@ == hash && hash.len()
                    <= MAX_MESSAGE_HASH,
                None => r is None,
            },
    {
        match &self.message_hash {
            Some(hash) => Some(bounded_slice_64(hash)),
            None => None,
        }
    }

    /// The name of the target chain.
    pub fn chain(&self) -> (r: &[u8])
        ensures
            r@ == self@.target_chain,
            r@.len() <= MAX_NAME,
    {
        bounded_slice_32(&self.target_chain)
    }

    /// The name of the target chain as text.
    pub fn chain_text(&self) -> (r: String)
        ensures
            wrapper_types::spells(r@, self@.target_chain),
    {
        utf8_lossy(self.chain())
    }

    /// The watch target in SCALE.
    pub fn encode(&self) -> (r: Vec<u8>)
        ensures
            r@ == encoded_target(self@),
            self@.within_bounds(),
    {
        encode_watch_target(self.module(), self.function(), self.hash(), self.chain())
    }
}

fn copied_32(bytes: &BoundedVec<u8, ConstU32<32>>) -> (r: BoundedVec<u8, ConstU32<32>>)
    ensures
        trusted::contents_32(r) == trusted::contents_32(*bytes),
{
    match bounded_32(copied(bounded_slice_32(bytes))) {
        Some(copy) => copy,
        None => vstd::pervasive::unreached(),
    }
}

fn copied_64(bytes: &BoundedVec<u8, ConstU32<64>>) -> (r: BoundedVec<u8, ConstU32<64>>)
    ensures
        trusted::contents_64(r) == trusted::contents_64(*bytes),
{
    match bounded_64(copied(bounded_slice_64(bytes))) {
        Some(copy) => copy,
        None => vstd::pervasive::unreached(),
    }
}

impl Clone for WatchTarget {
    fn clone(&self) -> (r: Self)
        ensures
            r@ == self@,
    {
        let message_hash = match &self.message_hash {
            Some(hash) => Some(copied_64(hash)),
            None => None,
        };
        WatchTarget {
            module_name: copied_32(&self.module_name),
            function_name: copied_32(&self.function_name),
            message_hash,
            target_chain: copied_32(&self.target_chain),
        }
    }
}

/// Whether two byte slices are equal.
pub fn same_bytes(a: &[u8], b: &[u8]) -> (r: bool)
    ensures
        r == (a@ == b@),
{
    if a.len() != b.len() {
        return false;
    }
    let mut i: usize = 0;
    while i < a.len()
        invariant
            i <= a@.len(),
            a@.len() == b@.len(),
            forall|j: int| 0 <= j < i ==> a@[j] == b@[j],
        decreases a@.len() - i,
    {
        if a[i] != b[i] {
            assert(a@[i as int] != b@[i as int]);
            return false;
        }
        i += 1;
    }
    assert(a@ =~= b@);
    true
}

impl PartialEq for WatchTarget {
    fn eq(&self, other: &Self) -> (r: bool) {
        let hashes = match (self.hash(), other.hash()) {
            (Some(a), Some(b)) => same_bytes(a, b),
            (None, None) => true,
            _ => false,
        };
        hashes && same_bytes(self.module(), other.module()) && same_bytes(
            self.function(),
            other.function(),
        ) && same_bytes(self.chain(), other.chain())
    }
}

impl vstd::std_specs::cmp::PartialEqSpecImpl for WatchTarget {
    open spec fn obeys_eq_spec() -> bool {
        true
    }

    open spec fn eq_spec(&self, other: &Self) -> bool {
        self@ == other@
    }
}

/// Bytes with their length in front tell where they end: what follows them can be told apart.
proof fn lemma_bytes_end(a: Seq<u8>, b: Seq<u8>, after_a: Seq<u8>, after_b: Seq<u8>)
    requires
        a.len() <= MAX_MESSAGE_HASH,
        b.len() <= MAX_MESSAGE_HASH,
        encoded_bytes(a) + after_a == encoded_bytes(b) + after_b,
    ensures
        a == b,
        after_a == after_b,
{
    let whole_a = encoded_bytes(a) + after_a;
    let whole_b = encoded_bytes(b) + after_b;
    assert(whole_a[0] == encoded_len(a.len())[0]);
    assert(whole_b[0] == encoded_len(b.len())[0]);
    assert(a.len() == b.len());
    let head = encoded_len(a.len()).len() as int;
    let end = head + a.len();
    assert(a =~= whole_a.subrange(head, end));
    assert(b =~= whole_b.subrange(head, end));
    assert(after_a =~= whole_a.subrange(end, whole_a.len() as int));
    assert(after_b =~= whole_b.subrange(end, whole_b.len() as int));
}

proof fn lemma_option_end(
    a: Option<Seq<u8>>,
    b: Option<Seq<u8>>,
    after_a: Seq<u8>,
    after_b: Seq<u8>,
)
    requires
        a matches Some(bytes) ==> bytes.len() <= MAX_MESSAGE_HASH,
        b matches Some(bytes) ==> bytes.len() <= MAX_MESSAGE_HASH,
        encoded_option(a) + after_a == encoded_option(b) + after_b,
    ensures
        a == b,
        after_a == after_b,
{
    let whole_a = encoded_option(a) + after_a;
    let whole_b = encoded_option(b) + after_b;
    assert(whole_a[0] == encoded_option(a)[0]);
    assert(whole_b[0] == encoded_option(b)[0]);
    let rest_a = whole_a.subrange(1, whole_a.len() as int);
    let rest_b = whole_b.subrange(1, whole_b.len() as int);
    match (a, b) {
        (Some(x), Some(y)) => {
            assert(rest_a =~= encoded_bytes(x) + after_a);
            assert(rest_b =~= encoded_bytes(y) + after_b);
            lemma_bytes_end(x, y, after_a, after_b);
        },
        (None, None) => {
            assert(rest_a =~= after_a);
            assert(rest_b =~= after_b);
        },
        _ => {},
    }
}

/// Watch targets with the same encoding are the same.
pub proof fn law_encoding_tells_targets_apart(a: TargetView, b: TargetView)
    requires
        a.within_bounds(),
        b.within_bounds(),
        encoded_target(a) == encoded_target(b),
    ensures
        a == b,
{
    let chain_a = encoded_bytes(a.target_chain);
    let chain_b = encoded_bytes(b.target_chain);
    let hash_a = encoded_option(a.message_hash) + chain_a;
    let hash_b = encoded_option(b.message_hash) + chain_b;
    let function_a = encoded_bytes(a.function_name) + hash_a;
    let function_b = encoded_bytes(b.function_name) + hash_b;
    assert(encoded_target(a) =~= encoded_bytes(a.module_name) + function_a);
    assert(encoded_target(b) =~= encoded_bytes(b.module_name) + function_b);
    lemma_bytes_end(a.module_name, b.module_name, function_a, function_b);
    lemma_bytes_end(a.function_name, b.function_name, hash_a, hash_b);
    lemma_option_end(a.message_hash, b.message_hash, chain_a, chain_b);
    let end: Seq<u8> = Seq::empty();
    assert(chain_a + end =~= chain_a);
    assert(chain_b + end =~= chain_b);
    lemma_bytes_end(a.target_chain, b.target_chain, end, end);
}

/// Parts make a watch target exactly where names have at most 32 bytes and the message hash at most
/// 64. The first part that is too long, in the order module, function, hash, chain, is named.
pub proof fn law_parts_have_bounds(target: TargetView)
    ensures
        too_long(target) is None <==> {
            &&& target.module_name.len() <= 32
            &&& target.function_name.len() <= 32
            &&& target.message_hash matches Some(hash) ==> hash.len() <= 64
            &&& target.target_chain.len() <= 32
        },
        too_long(target) is None <==> target.within_bounds(),
        target.module_name.len() > 32 ==> too_long(target) == Some("Module name too long"@),
        target.module_name.len() <= 32 && target.function_name.len() > 32 ==> too_long(target)
            == Some("Function name too long"@),
        target.module_name.len() <= 32 && target.function_name.len() <= 32 ==> (
        target.message_hash matches Some(hash) && hash.len() > 64 ==> too_long(target) == Some(
            "Message hash too long"@,
        )),
        target.module_name.len() <= 32 && target.function_name.len() <= 32
            && target.target_chain.len() > 32 && (target.message_hash matches Some(hash)
            ==> hash.len() <= 64) ==> too_long(target) == Some("Target chain too long"@),
{
}

/// Lengths below 64 are encoded in one byte, whose upper six bits hold them, and other lengths below
/// 16384 in two bytes, lower one first, with a one in the lowest bit.
pub proof fn law_lengths_are_compact(n: nat)
    requires
        n < 16384,
    ensures
        n < 64 ==> encoded_len(n).len() == 1 && encoded_len(n)[0] == 4 * n,
        n >= 64 ==> encoded_len(n).len() == 2 && encoded_len(n)[0] + 256 * encoded_len(n)[1] == 4 * n
            + 1,
{
}

/// An encoded target holds its parts in order: each with its length in front, and before the message
/// hash a byte that says whether there is one.
pub proof fn law_encoding_holds_the_parts_in_order(
    module_name: Seq<u8>,
    function_name: Seq<u8>,
    hash: Seq<u8>,
    target_chain: Seq<u8>,
)
    ensures
        ({
            let names = encoded_len(module_name.len()) + module_name + (encoded_len(
                function_name.len(),
            ) + function_name);
            let chain = encoded_len(target_chain.len()) + target_chain;
            &&& encoded_target(
                TargetView { module_name, function_name, message_hash: None, target_chain },
            ) == names + seq![0u8] + chain
            &&& encoded_target(
                TargetView { module_name, function_name, message_hash: Some(hash), target_chain },
            ) == names + (seq![1u8] + (encoded_len(hash.len()) + hash)) + chain
        }),
{
}

/// What a watch target says is what its parts hold.
pub proof fn law_targets_say_what_they_hold(target: WatchTarget)
    ensures
        target@.module_name == trusted::contents_32(target.module_name),
        target@.function_name == trusted::contents_32(target.function_name),
        target@.target_chain == trusted::contents_32(target.target_chain),
        target.message_hash matches Some(hash) ==> target@.message_hash == Some(
            trusted::contents_64(hash),
        ),
        target.message_hash is None ==> target@.message_hash is None,
{
}

/// Targets are equal exactly where they name the same call, chain and message hash.
pub proof fn law_targets_are_equal_by_their_parts(a: WatchTarget, b: WatchTarget)
    ensures
        WatchTarget::obeys_eq_spec(),
        a.eq_spec(&b) <==> {
            &&& a@.module_name == b@.module_name
            &&& a@.function_name == b@.function_name
            &&& a@.target_chain == b@.target_chain
            &&& a@.message_hash == b@.message_hash
        },
{
}

} // verus!
