//! Which events of a block match a watch target.

use vstd::prelude::*;

use crate::observer::target::{same_bytes, TargetView, WatchTarget};

verus! {

/// Whether `part` stands in `bytes` at the place `i`.
pub open spec fn stands_at(bytes: Seq<u8>, part: Seq<u8>, i: int) -> bool {
    &&& 0 <= i
    &&& i + part.len() <= bytes.len()
    &&& bytes.subrange(i, i + part.len()) == part
}

/// Whether `part` stands anywhere in `bytes`.
pub open spec fn occurs(bytes: Seq<u8>, part: Seq<u8>) -> bool {
    exists|i: int| stands_at(bytes, part, i)
}

/// Whether an encoded event names the module and the function of a target.
pub open spec fn names_call(event: Seq<u8>, target: TargetView) -> bool {
    occurs(event, target.module_name) && occurs(event, target.function_name)
}

/// Whether an encoded event matches a target: it names the module and the function, and holds the
/// message hash where there is one.
pub open spec fn event_matches(event: Seq<u8>, target: TargetView) -> bool {
    names_call(event, target) && (target.message_hash matches Some(hash) ==> occurs(event, hash))
}

/// The encoded events of a block.
pub open spec fn encoded_events(events: Seq<Vec<u8>>) -> Seq<Seq<u8>> {
    events.map_values(|event: Vec<u8>| event@)
}

/// Whether any of the events matches a target.
pub open spec fn any_matches(events: Seq<Seq<u8>>, target: TargetView) -> bool {
    exists|i: int| 0 <= i < events.len() && event_matches(#[trigger] events[i], target)
}

/// Whether an event can be held against a target: nothing that has to be looked for is empty.
pub open spec fn comparable(event: Seq<u8>, target: TargetView) -> bool {
    &&& target.module_name.len() > 0
    &&& target.function_name.len() > 0
    &&& target.message_hash matches Some(hash) ==> hash.len() > 0 || !names_call(event, target)
}

/// Whether all events can be held against a target.
pub open spec fn all_comparable(events: Seq<Seq<u8>>, target: TargetView) -> bool {
    forall|i: int| 0 <= i < events.len() ==> comparable(#[trigger] events[i], target)
}

/// Whether `part` stands anywhere in `bytes`.
pub fn contains(bytes: &[u8], part: &[u8]) -> (r: bool)
    requires
        part@.len() > 0,
    ensures
        r == occurs(bytes@, part@),
{
    if part.len() > bytes.len() {
        return false;
    }
    let len: usize = bytes.len();
    let last: usize = len - part.len();
    let mut i: usize = 0;
    while i <= last
        invariant
            part@.len() > 0,
            len == bytes@.len(),
            last + part@.len() == len,
            i <= last + 1,
            forall|j: int| 0 <= j < i ==> !stands_at(bytes@, part@, j),
        decreases last + 1 - i,
    {
        let window = vstd::slice::slice_subrange(bytes, i, i + part.len());
        if same_bytes(window, part) {
            assert(stands_at(bytes@, part@, i as int));
            return true;
        }
        i += 1;
    }
    false
}

/// Whether an encoded event matches a target.
pub fn generic_event_match(event: &[u8], target: &WatchTarget) -> (r: bool)
    requires
        comparable(event@, target@),
    ensures
        r == event_matches(event@, target@),
{
    let contains_module = contains(event, target.module());
    let contains_function = contains(event, target.function());
    if !contains_module || !contains_function {
        return false;
    }
    match target.hash() {
        Some(hash) => contains(event, hash),
        None => true,
    }
}

/// Whether an encoded event can be held against a target.
pub fn is_comparable(event: &[u8], target: &WatchTarget) -> (r: bool)
    ensures
        r == comparable(event@, target@),
{
    if target.module().len() == 0 || target.function().len() == 0 {
        return false;
    }
    match target.hash() {
        Some(hash) => hash.len() > 0 || !(contains(event, target.module()) && contains(
            event,
            target.function(),
        )),
        None => true,
    }
}

/// Whether all encoded events can be held against a target.
pub fn are_comparable(events: &Vec<Vec<u8>>, target: &WatchTarget) -> (r: bool)
    ensures
        r == all_comparable(encoded_events(events@), target@),
{
    let mut i: usize = 0;
    while i < events.len()
        invariant
            i <= events@.len(),
            forall|j: int| 0 <= j < i ==> comparable(#[trigger] encoded_events(events@)[j], target@),
        decreases events@.len() - i,
    {
        if !is_comparable(events[i].as_slice(), target) {
            assert(!comparable(encoded_events(events@)[i as int], target@));
            return false;
        }
        i += 1;
    }
    true
}

/// Whether any of the encoded events matches a target.
pub fn any_event_matches(events: &Vec<Vec<u8>>, target: &WatchTarget) -> (r: bool)
    requires
        all_comparable(encoded_events(events@), target@),
    ensures
        r == any_matches(encoded_events(events@), target@),
{
    let mut i: usize = 0;
    while i < events.len()
        invariant
            i <= events@.len(),
            all_comparable(encoded_events(events@), target@),
            forall|j: int|
                0 <= j < i ==> !event_matches(#[trigger] encoded_events(events@)[j], target@),
        decreases events@.len() - i,
    {
        assert(comparable(encoded_events(events@)[i as int], target@));
        if generic_event_match(events[i].as_slice(), target) {
            assert(event_matches(encoded_events(events@)[i as int], target@));
            return true;
        }
        i += 1;
    }
    false
}

/// An event that matches a target with a message hash matches it without the hash as well.
pub proof fn law_message_hash_narrows(event: Seq<u8>, target: TargetView)
    requires
        event_matches(event, target),
    ensures
        event_matches(event, TargetView { message_hash: None, ..target }),
{
}

/// An event still matches when more bytes stand around it.
pub proof fn law_match_survives_context(
    before: Seq<u8>,
    event: Seq<u8>,
    after: Seq<u8>,
    target: TargetView,
)
    requires
        event_matches(event, target),
    ensures
        event_matches(before + event + after, target),
{
    lemma_occurs_within(before, event, after, target.module_name);
    lemma_occurs_within(before, event, after, target.function_name);
    if let Some(hash) = target.message_hash {
        lemma_occurs_within(before, event, after, hash);
    }
}

proof fn lemma_occurs_within(before: Seq<u8>, event: Seq<u8>, after: Seq<u8>, part: Seq<u8>)
    requires
        occurs(event, part),
    ensures
        occurs(before + event + after, part),
{
    let whole = before + event + after;
    let i = choose|i: int| stands_at(event, part, i);
    let j = before.len() + i;
    assert(whole.subrange(j, j + part.len()) =~= event.subrange(i, i + part.len()));
    assert(stands_at(whole, part, j));
}

/// An event matches a target exactly where the module name, the function name and, where the target
/// has one, the message hash, of whatever length, each stand somewhere in its bytes as a whole.
pub proof fn law_matching_events_hold_every_part(event: Seq<u8>, target: TargetView)
    ensures
        event_matches(event, target) <==> {
            &&& exists|i: int, j: int|
                0 <= i <= j <= event.len() && #[trigger] event.subrange(i, j) == target.module_name
            &&& exists|i: int, j: int|
                0 <= i <= j <= event.len() && #[trigger] event.subrange(i, j)
                    == target.function_name
            &&& target.message_hash matches Some(hash) ==> exists|i: int, j: int|
                0 <= i <= j <= event.len() && #[trigger] event.subrange(i, j) == hash
        },
{
    lemma_part_stands_somewhere(event, target.module_name);
    lemma_part_stands_somewhere(event, target.function_name);
    if let Some(hash) = target.message_hash {
        lemma_part_stands_somewhere(event, hash);
    }
}

proof fn lemma_part_stands_somewhere(bytes: Seq<u8>, part: Seq<u8>)
    ensures
        occurs(bytes, part) <==> exists|i: int, j: int|
            0 <= i <= j <= bytes.len() && #[trigger] bytes.subrange(i, j) == part,
{
    if occurs(bytes, part) {
        let i = choose|i: int| stands_at(bytes, part, i);
        assert(bytes.subrange(i, i + part.len()) == part);
    }
    if exists|i: int, j: int| 0 <= i <= j <= bytes.len() && #[trigger] bytes.subrange(i, j) == part {
        let (i, j) = choose|i: int, j: int|
            0 <= i <= j <= bytes.len() && #[trigger] bytes.subrange(i, j) == part;
        assert(part.len() == j - i);
        assert(stands_at(bytes, part, i));
    }
}

/// A part stands in all bytes that are something before it, the part itself, and something after
/// it.
pub proof fn law_parts_stand_between_other_bytes(before: Seq<u8>, part: Seq<u8>, after: Seq<u8>)
    ensures
        occurs(before + part + after, part),
        stands_at(before + part + after, part, before.len() as int),
{
    let whole = before + part + after;
    assert(whole.subrange(before.len() as int, (before.len() + part.len()) as int) =~= part);
    assert(stands_at(whole, part, before.len() as int));
}

/// The events of a block match a target exactly where one of them does, and their bytes are looked
/// at as they are.
pub proof fn law_one_matching_event_is_enough(events: Seq<Vec<u8>>, target: TargetView)
    ensures
        encoded_events(events).len() == events.len(),
        any_matches(encoded_events(events), target) <==> exists|k: int|
            0 <= k < events.len() && event_matches((#[trigger] events[k])@, target),
{
    if any_matches(encoded_events(events), target) {
        let k = choose|k: int|
            0 <= k < encoded_events(events).len() && event_matches(
                #[trigger] encoded_events(events)[k],
                target,
            );
        assert(event_matches(events[k]@, target));
    }
    if exists|k: int| 0 <= k < events.len() && event_matches((#[trigger] events[k])@, target) {
        let k = choose|k: int|
            0 <= k < events.len() && event_matches((#[trigger] events[k])@, target);
        assert(event_matches(encoded_events(events)[k], target));
    }
}

/// Events can be held against a target unless it has no module name, no function name, or an empty
/// message hash that would have to be looked for in one of them.
pub proof fn law_only_empty_parts_cannot_be_looked_for(events: Seq<Seq<u8>>, target: TargetView)
    requires
        target.module_name.len() > 0,
        target.function_name.len() > 0,
    ensures
        target.message_hash is None ==> all_comparable(events, target),
        target.message_hash matches Some(hash) && hash.len() > 0 ==> all_comparable(events, target),
        forall|k: int|
            0 <= k < events.len() && target.message_hash == Some(Seq::<u8>::empty())
                && event_matches(
                #[trigger] events[k],
                TargetView { message_hash: None, ..target },
            ) ==> !all_comparable(events, target),
{
    assert forall|k: int|
        0 <= k < events.len() && target.message_hash == Some(Seq::<u8>::empty()) && event_matches(
            #[trigger] events[k],
            TargetView { message_hash: None, ..target },
        ) implies !all_comparable(events, target) by {
        assert(!comparable(events[k], target));
    }
}

/// An event cannot be held against a target without module name or without function name, and neither
/// can events of which there is one.
pub proof fn law_nameless_targets_cannot_be_looked_for(
    events: Seq<Seq<u8>>,
    target: TargetView,
    k: int,
)
    requires
        target.module_name.len() == 0 || target.function_name.len() == 0,
        0 <= k < events.len(),
    ensures
        !comparable(events[k], target),
        !all_comparable(events, target),
{
    assert(!comparable(events[k], target));
}

} // verus!
