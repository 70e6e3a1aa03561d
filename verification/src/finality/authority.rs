//! Authority sets and the changes that finality brings about in them.

use std::marker::PhantomData;

use vstd::prelude::*;

use crate::grandpa::{copied_authorities, AuthorityId, AuthorityList};
use crate::number::BlockNumber;

verus! {

/// The authorities that may vote, under the identifier of their set. `H` and `N` are the hash
/// and number types of the chain.
#[derive(Debug)]
pub struct AuthoritySet<H, N> {
    pub authorities: AuthorityList,
    pub set_id: u64,
    pub _phantom: PhantomData<(H, N)>,
}

impl<H, N> AuthoritySet<H, N> {
    /// A set of authorities under the given identifier.
    pub fn new(authorities: AuthorityList, set_id: u64) -> (r: Self)
        ensures
            r.authorities == authorities,
            r.set_id == set_id,
    {
        AuthoritySet { authorities, set_id, _phantom: PhantomData }
    }

    /// The authorities of the set.
    pub fn current_authorities(&self) -> (r: &AuthorityList)
        ensures
            *r == self.authorities,
    {
        &self.authorities
    }
}

impl<H, N> Clone for AuthoritySet<H, N> {
    fn clone(&self) -> (r: Self)
        ensures
            r.authorities@ == self.authorities@,
            r.set_id == self.set_id,
    {
        AuthoritySet::new(copied_authorities(&self.authorities), self.set_id)
    }
}

/// A change of the authority set that takes effect once its block is finalized.
#[derive(Debug)]
pub struct AuthoritySetChange<N> {
    pub set_id: u64,
    pub authorities: AuthorityList,
    pub scheduled_at: N,
}

/// What a scheduled change says.
pub struct ChangeView {
    pub set_id: u64,
    pub authorities: Seq<(AuthorityId, u64)>,
    pub scheduled_at: nat,
}

impl<N: BlockNumber> View for AuthoritySetChange<N> {
    type V = ChangeView;

    open spec fn view(&self) -> ChangeView {
        ChangeView {
            set_id: self.set_id,
            authorities: self.authorities@,
            scheduled_at: self.scheduled_at.as_nat(),
        }
    }
}

/// Follows finality and applies scheduled authority set changes in the order in which they were
/// scheduled.
#[derive(Debug)]
pub struct AuthoritySetManager<H, N> {
    current_set: AuthoritySet<H, N>,
    pending_changes: Vec<AuthoritySetChange<N>>,
    last_finalized: N,
}

/// The state of a manager: the current set, the changes that wait, first in line first, and the
/// last finalized block.
#[verifier::ext_equal]
pub struct ManagerView {
    pub authorities: Seq<(AuthorityId, u64)>,
    pub set_id: u64,
    pub pending: Seq<ChangeView>,
    pub last_finalized: nat,
}

impl<H, N: BlockNumber> View for AuthoritySetManager<H, N> {
    type V = ManagerView;

    closed spec fn view(&self) -> ManagerView {
        ManagerView {
            authorities: self.current_set.authorities@,
            set_id: self.current_set.set_id,
            pending: self.pending_changes@.map_values(|c: AuthoritySetChange<N>| c@),
            last_finalized: self.last_finalized.as_nat(),
        }
    }
}

/// The state after a change was put at the end of the line, for the set after the current one.
pub open spec fn scheduled(
    state: ManagerView,
    authorities: Seq<(AuthorityId, u64)>,
    at: nat,
) -> ManagerView {
    ManagerView {
        pending: state.pending.push(
            ChangeView { set_id: (state.set_id + 1) as u64, authorities, scheduled_at: at },
        ),
        ..state
    }
}

/// How many changes at the head of the line are due at block `number`.
pub open spec fn due_count(pending: Seq<ChangeView>, number: nat) -> nat
    decreases pending.len(),
{
    if pending.len() == 0 || pending[0].scheduled_at > number {
        0
    } else {
        1 + due_count(pending.drop_first(), number)
    }
}

/// The state after block `number` was finalized: every due change at the head of the line has
/// left it, and the last of them is in force.
pub open spec fn finalized(state: ManagerView, number: nat) -> ManagerView {
    let due = due_count(state.pending, number);
    ManagerView {
        authorities: if due == 0 {
            state.authorities
        } else {
            state.pending[due - 1].authorities
        },
        set_id: if due == 0 {
            state.set_id
        } else {
            state.pending[due - 1].set_id
        },
        pending: state.pending.skip(due as int),
        last_finalized: number,
    }
}

/// The state after the first change in line came into force.
spec fn applied(state: ManagerView) -> ManagerView {
    ManagerView {
        authorities: state.pending[0].authorities,
        set_id: state.pending[0].set_id,
        pending: state.pending.drop_first(),
        last_finalized: state.last_finalized,
    }
}

impl<H, N: BlockNumber> AuthoritySetManager<H, N> {
    /// A manager at block zero with no change in line.
    pub fn new(initial_set: AuthoritySet<H, N>) -> (r: Self)
        ensures
            r@ == (ManagerView {
                authorities: initial_set.authorities@,
                set_id: initial_set.set_id,
                pending: Seq::empty(),
                last_finalized: 0,
            }),
    {
        let r = AuthoritySetManager {
            current_set: initial_set,
            pending_changes: Vec::new(),
            last_finalized: N::zero(),
        };
        assert(r@.pending =~= Seq::empty());
        r
    }

    /// Puts a change at the end of the line.
    pub fn schedule_change(&mut self, new_authorities: AuthorityList, scheduled_at: N)
        requires
            old(self)@.set_id < u64::MAX,
        ensures
            final(self)@ == scheduled(old(self)@, new_authorities@, scheduled_at.as_nat()),
    {
        let next_set_id: u64 = self.current_set.set_id + 1;
        let change = AuthoritySetChange {
            set_id: next_set_id,
            authorities: new_authorities,
            scheduled_at,
        };
        self.pending_changes.push(change);
        assert(self@.pending =~= old(self)@.pending.push(change@));
    }

    /// Notes that block `number` is final and brings the changes that this makes due into force.
    pub fn process_finalized_block(&mut self, number: N)
        ensures
            final(self)@ == finalized(old(self)@, number.as_nat()),
    {
        self.last_finalized = number;
        assert(finalized(self@, number.as_nat()) == finalized(old(self)@, number.as_nat()));
        while self.pending_changes.len() > 0 && self.pending_changes[0].scheduled_at.to_u64()
            <= number.to_u64()
            invariant
                finalized(self@, number.as_nat()) == finalized(old(self)@, number.as_nat()),
                self@.last_finalized == number.as_nat(),
            decreases self.pending_changes@.len(),
        {
            let ghost before = self@;
            assert(before.pending[0] == self.pending_changes@[0]@);
            let change = self.pending_changes.remove(0);
            self.apply_change(change);
            proof {
                assert(self@ =~= applied(before)) by {
                    assert(self@.pending =~= before.pending.drop_first());
                }
                lemma_applied(before, number.as_nat());
            }
        }
        proof {
            if self.pending_changes@.len() > 0 {
                assert(self@.pending[0] == self.pending_changes@[0]@);
            }
            assert(due_count(self@.pending, number.as_nat()) == 0);
            assert(self@.pending.skip(0) =~= self@.pending);
        }
    }

    fn apply_change(&mut self, change: AuthoritySetChange<N>)
        ensures
            final(self)@ == (ManagerView {
                authorities: change.authorities@,
                set_id: change.set_id,
                ..old(self)@
            }),
            final(self).pending_changes == old(self).pending_changes,
    {
        self.current_set = AuthoritySet::new(change.authorities, change.set_id);
    }

    /// The authorities of the current set.
    pub fn current_authorities(&self) -> (r: &AuthorityList)
        ensures
            r@ == self@.authorities,
    {
        self.current_set.current_authorities()
    }

    /// The identifier of the current set.
    pub fn set_id(&self) -> (r: u64)
        ensures
            r == self@.set_id,
    {
        self.current_set.set_id
    }
}

proof fn lemma_applied(state: ManagerView, number: nat)
    requires
        state.pending.len() > 0,
        state.pending[0].scheduled_at <= number,
    ensures
        finalized(applied(state), number) == finalized(state, number),
{
    let rest = state.pending.drop_first();
    let due = due_count(rest, number);
    lemma_due_count(rest, number);
    assert(rest.skip(due as int) =~= state.pending.skip(due as int + 1));
}

proof fn lemma_due_count(pending: Seq<ChangeView>, number: nat)
    ensures
        due_count(pending, number) <= pending.len(),
        forall|i: int|
            0 <= i < due_count(pending, number) ==> (#[trigger] pending[i]).scheduled_at <= number,
        due_count(pending, number) < pending.len() ==> pending[due_count(
            pending,
            number,
        ) as int].scheduled_at > number,
    decreases pending.len(),
{
    if pending.len() > 0 && pending[0].scheduled_at <= number {
        let rest = pending.drop_first();
        lemma_due_count(rest, number);
        assert forall|i: int| 0 <= i < due_count(pending, number) implies (
        #[trigger] pending[i]).scheduled_at <= number by {
            if i > 0 {
                assert(pending[i] == rest[i - 1]);
            }
        }
    }
}

/// No change comes into force before its block is final, nor before the changes scheduled ahead
/// of it; and the line stops only at a change that is not due.
pub proof fn law_changes_wait_for_their_block(state: ManagerView, number: nat)
    ensures
        ({
            let due = due_count(state.pending, number);
            &&& due <= state.pending.len()
            &&& forall|i: int| 0 <= i < due ==> (#[trigger] state.pending[i]).scheduled_at <= number
            &&& due < state.pending.len() ==> state.pending[due as int].scheduled_at > number
            &&& finalized(state, number).pending == state.pending.skip(due as int)
        }),
{
    lemma_due_count(state.pending, number);
}

/// Finalizing a block and then a later one has the same effect as finalizing the later one.
pub proof fn law_finality_may_skip_blocks(state: ManagerView, first: nat, second: nat)
    requires
        first <= second,
    ensures
        finalized(finalized(state, first), second) == finalized(state, second),
{
    let a = due_count(state.pending, first);
    lemma_due_count(state.pending, first);
    lemma_due_split(state.pending, a, second);
    let rest = state.pending.skip(a as int);
    let b = due_count(rest, second);
    lemma_due_count(rest, second);
    assert(rest.skip(b as int) =~= state.pending.skip((a + b) as int));
    if b > 0 {
        assert(rest[b - 1] == state.pending[a + b - 1]);
    }
    assert(finalized(finalized(state, first), second) =~= finalized(state, second));
}

proof fn lemma_due_split(pending: Seq<ChangeView>, first: nat, number: nat)
    requires
        first <= pending.len(),
        forall|i: int| 0 <= i < first ==> (#[trigger] pending[i]).scheduled_at <= number,
    ensures
        due_count(pending, number) == first + due_count(pending.skip(first as int), number),
    decreases first,
{
    if first == 0 {
        assert(pending.skip(0) =~= pending);
    } else {
        let rest = pending.drop_first();
        assert(pending[0].scheduled_at <= number);
        assert forall|i: int| 0 <= i < first - 1 implies (#[trigger] rest[i]).scheduled_at
            <= number by {
            assert(rest[i] == pending[i + 1]);
        }
        lemma_due_split(rest, (first - 1) as nat, number);
        assert(rest.skip(first - 1) =~= pending.skip(first as int));
    }
}

/// Whether the sets in line follow the current one: none is older, none more than one ahead, and
/// they never go back.
pub open spec fn in_sequence(state: ManagerView) -> bool {
    &&& forall|i: int|
        0 <= i < state.pending.len() ==> state.set_id <= (#[trigger] state.pending[i]).set_id
            <= state.set_id + 1
    &&& forall|i: int, j: int|
        0 <= i <= j < state.pending.len() ==> (#[trigger] state.pending[i]).set_id <= (
        #[trigger] state.pending[j]).set_id
}

/// A manager without changes in line is in sequence, and stays so whatever is scheduled and
/// finalized; finalizing a block raises the set identifier by one at most.
pub proof fn law_set_id_moves_in_steps(
    state: ManagerView,
    authorities: Seq<(AuthorityId, u64)>,
    number: nat,
)
    requires
        in_sequence(state),
    ensures
        state.set_id < u64::MAX ==> in_sequence(scheduled(state, authorities, number)),
        in_sequence(finalized(state, number)),
        state.set_id <= finalized(state, number).set_id <= state.set_id + 1,
{
    lemma_due_count(state.pending, number);
    let due = due_count(state.pending, number);
    let next = finalized(state, number);
    assert forall|i: int| 0 <= i < next.pending.len() implies next.set_id <= (
    #[trigger] next.pending[i]).set_id <= next.set_id + 1 by {
        assert(next.pending[i] == state.pending[due + i]);
    }
    assert forall|i: int, j: int| 0 <= i <= j < next.pending.len() implies (
    #[trigger] next.pending[i]).set_id <= (#[trigger] next.pending[j]).set_id by {
        assert(next.pending[i] == state.pending[due + i]);
        assert(next.pending[j] == state.pending[due + j]);
    }
}

/// Scheduling puts one change at the end of the line, with exactly the authorities and the block that
/// were given and the identifier after the current one, and leaves everything else as it is.
pub proof fn law_scheduled_change_holds_what_was_given(
    state: ManagerView,
    authorities: Seq<(AuthorityId, u64)>,
    at: nat,
)
    requires
        state.set_id < u64::MAX,
    ensures
        ({
            let after = scheduled(state, authorities, at);
            &&& after.pending.len() == state.pending.len() + 1
            &&& after.pending.drop_last() == state.pending
            &&& after.pending.last().authorities == authorities
            &&& after.pending.last().scheduled_at == at
            &&& after.pending.last().set_id == state.set_id + 1
            &&& after.authorities == state.authorities
            &&& after.set_id == state.set_id
            &&& after.last_finalized == state.last_finalized
        }),
{
    assert(scheduled(state, authorities, at).pending.drop_last() =~= state.pending);
}

/// A change that is scheduled with nothing ahead of it comes into force with exactly its authorities
/// and its identifier once its block, or a later one, is final, and not before.
pub proof fn law_scheduled_authorities_come_into_force(
    state: ManagerView,
    authorities: Seq<(AuthorityId, u64)>,
    at: nat,
    number: nat,
)
    requires
        state.set_id < u64::MAX,
        state.pending.len() == 0,
    ensures
        ({
            let after = finalized(scheduled(state, authorities, at), number);
            &&& at <= number ==> {
                &&& after.authorities == authorities
                &&& after.set_id == state.set_id + 1
                &&& after.pending.len() == 0
            }
            &&& at > number ==> {
                &&& after.authorities == state.authorities
                &&& after.set_id == state.set_id
                &&& after.pending.len() == 1
            }
            &&& after.last_finalized == number
        }),
{
    let line = scheduled(state, authorities, at).pending;
    assert(line[0].authorities == authorities);
    assert(line.drop_first() =~= Seq::empty());
    reveal_with_fuel(due_count, 2);
}

/// Where the first `k` changes in line are due and the one after them is not, the last of the `k` is
/// in force after the block, with its authorities and its identifier, and the line starts behind it.
/// Where none is due, nothing but the last finalized block changes.
pub proof fn law_last_due_change_is_in_force(state: ManagerView, number: nat, k: nat)
    requires
        k <= state.pending.len(),
        forall|i: int| 0 <= i < k ==> (#[trigger] state.pending[i]).scheduled_at <= number,
        k < state.pending.len() ==> state.pending[k as int].scheduled_at > number,
    ensures
        ({
            let after = finalized(state, number);
            &&& after.last_finalized == number
            &&& after.pending.len() == state.pending.len() - k
            &&& forall|i: int|
                0 <= i < after.pending.len() ==> #[trigger] after.pending[i]
                    == state.pending[k + i]
            &&& k > 0 ==> after.authorities == state.pending[k - 1].authorities && after.set_id
                == state.pending[k - 1].set_id
            &&& k == 0 ==> after.authorities == state.authorities && after.set_id == state.set_id
        }),
{
    lemma_due_split(state.pending, k, number);
    let rest = state.pending.skip(k as int);
    if rest.len() > 0 {
        assert(rest[0] == state.pending[k as int]);
    }
    assert(due_count(rest, number) == 0);
}

/// What a change says is what it holds.
pub proof fn law_changes_say_what_they_hold<N: BlockNumber>(change: AuthoritySetChange<N>)
    ensures
        change@.set_id == change.set_id,
        change@.authorities == change.authorities@,
        change@.scheduled_at == change.scheduled_at.as_nat(),
{
}

} // verus!
