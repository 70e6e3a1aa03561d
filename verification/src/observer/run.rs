//! The handling of a notification as a whole.

use vstd::prelude::*;

use crate::error;
use crate::error::{ProtocolError, ProtocolErrorView};
use crate::finality::error::{FinalityError, FinalityErrorView};
use crate::finality::predicate;
use crate::message::{FrostMessage, MessageType, MessageView};
use crate::observer::error::ErrorKind;
use crate::observer::event;
use crate::observer::handling;
use crate::observer::handling::{Action, Asked, Handling, HandlingView, ProofRequest, Stage};
use crate::observer::target::{TargetView, WatchTarget};
use crate::state::{copied, BlockRef, StateError};
use crate::trusted;

verus! {

/// The answers to all that is asked for one target.
#[derive(Debug)]
pub struct TargetAnswers {
    /// The encoded events of the block, or why there are none.
    pub events: Result<Vec<Vec<u8>>, String>,
    /// The time at which the events came, in seconds since the epoch.
    pub now: u64,
    /// The encoded proof, or why there is none; asked for only where an event matches.
    pub proof: Result<Vec<u8>, StateError>,
    /// Whether the message was routed; asked only where there is a proof and a router.
    pub routed: bool,
}

/// What the answers for one target say.
#[verifier::ext_equal]
pub struct AnswersView {
    pub events: Result<Seq<Seq<u8>>, Seq<char>>,
    pub now: u64,
    pub proof: Option<Seq<u8>>,
    pub routed: bool,
}

impl View for TargetAnswers {
    type V = AnswersView;

    open spec fn view(&self) -> AnswersView {
        AnswersView {
            events: handling::events_answer(self.events),
            now: self.now,
            proof: handling::proof_answer(self.proof),
            routed: self.routed,
        }
    }
}

/// The answers as they read.
pub open spec fn answer_views(answers: Seq<TargetAnswers>) -> Seq<AnswersView> {
    answers.map_values(|a: TargetAnswers| a@)
}

/// The outcome of handling a notification, the proofs that were asked for, each by its target and
/// the time at which the events came, and the messages that were handed to the router.
#[verifier::ext_equal]
pub struct Handled {
    pub outcome: Result<(), ProtocolErrorView>,
    pub requests: Seq<(TargetView, u64)>,
    pub messages: Seq<MessageView>,
}

/// What came of a notification.
#[derive(Debug)]
pub struct HandledNotification {
    /// Whether all went well.
    pub outcome: Result<(), ProtocolError>,
    /// The proofs that were asked for, in this order.
    pub requests: Vec<ProofRequest>,
    /// The messages that were handed to the router, in this order.
    pub messages: Vec<FrostMessage>,
}

impl HandledNotification {
    /// Whether this is what is expected to come of a notification of a block at the given height of
    /// a chain.
    pub open spec fn tells(self, chain: Seq<char>, height: nat, expected: Handled) -> bool {
        &&& error::outcome_view(self.outcome) == expected.outcome
        &&& self.requests@.len() == expected.requests.len()
        &&& forall|i: int|
            0 <= i < expected.requests.len() ==> handling::is_request_at(
                #[trigger] self.requests@[i],
                chain,
                height,
                expected.requests[i].0,
                expected.requests[i].1,
            )
        &&& message_views(self.messages@) == expected.messages
    }

    /// What comes of a notification that is refused at once.
    pub fn refused(e: ProtocolError) -> (r: Self)
        ensures
            forall|chain: Seq<char>, height: nat| #[trigger]
                r.tells(
                    chain,
                    height,
                    (Handled { outcome: Err(e@), requests: Seq::empty(), messages: Seq::empty() }),
                ),
    {
        let r = HandledNotification {
            outcome: Err(e),
            requests: Vec::new(),
            messages: Vec::new(),
        };
        assert(message_views(r.messages@) =~= Seq::empty());
        r
    }
}

/// A failure with the given message.
pub open spec fn failed(message: Seq<char>) -> Result<(), ProtocolErrorView> {
    Err(ProtocolErrorView::Custom(message))
}

/// What comes of the targets from place `i` on.
pub open spec fn handled_from(
    targets: Seq<TargetView>,
    routes: bool,
    answers: Seq<AnswersView>,
    i: nat,
) -> Handled
    decreases targets.len() - i,
{
    if i >= targets.len() {
        Handled { outcome: Ok(()), requests: Seq::empty(), messages: Seq::empty() }
    } else {
        let rest = handled_from(targets, routes, answers, i + 1);
        match answers[i as int].events {
            Err(reason) => Handled {
                outcome: failed("Failed to fetch events: "@ + reason),
                requests: Seq::empty(),
                messages: Seq::empty(),
            },
            Ok(events) => if event::any_matches(events, targets[i as int]) {
                proved_then(
                    targets[i as int],
                    answers[i as int].now,
                    answers[i as int].proof,
                    routes,
                    answers[i as int].routed,
                    rest,
                )
            } else {
                rest
            },
        }
    }
}

/// What comes of a proof that is asked for and, where it is given and its message was routed, of all
/// after it.
pub open spec fn proved_then(
    target: TargetView,
    now: u64,
    answer: Option<Seq<u8>>,
    routes: bool,
    routed: bool,
    rest: Handled,
) -> Handled {
    let after = match answer {
        None => Handled {
            outcome: failed(ErrorKind::ProofGenerationFailed.message()),
            requests: Seq::empty(),
            messages: Seq::empty(),
        },
        Some(payload) => if !routes {
            rest
        } else {
            routed_then(payload, target, routed, rest)
        },
    };
    Handled { requests: seq![(target, now)] + after.requests, ..after }
}

/// What comes of a message with the given payload for a target and, where it was routed, of all
/// after it.
pub open spec fn routed_then(
    payload: Seq<u8>,
    target: TargetView,
    routed: bool,
    rest: Handled,
) -> Handled {
    let message = seq![handling::proof_message(MessageType::StateTransition, payload, target)];
    if routed {
        Handled { messages: message + rest.messages, ..rest }
    } else {
        Handled {
            outcome: failed(ErrorKind::MessageRoutingFailed.message()),
            requests: Seq::empty(),
            messages: message,
        }
    }
}

/// What comes of a notification of a block, by the answer whether it is final and the answers for
/// all targets.
pub open spec fn handled(
    finality: Result<bool, FinalityErrorView>,
    targets: Seq<TargetView>,
    routes: bool,
    answers: Seq<AnswersView>,
) -> Handled {
    match finality {
        Err(e) => Handled {
            outcome: Err(ProtocolErrorView::Finality(e)),
            requests: Seq::empty(),
            messages: Seq::empty(),
        },
        Ok(false) => Handled {
            outcome: Ok(()),
            requests: Seq::empty(),
            messages: Seq::empty(),
        },
        Ok(true) => handled_from(targets, routes, answers, 0),
    }
}

/// Whether an event of the block matches the target `i`.
pub open spec fn is_match(targets: Seq<TargetView>, answers: Seq<AnswersView>, i: int) -> bool {
    answers[i].events matches Ok(events) && event::any_matches(events, targets[i])
}

/// Whether everything that is asked for the target `i` is granted: the events and, where one of
/// them matches, the proof and, where there is a router, the routing.
pub open spec fn granted(
    targets: Seq<TargetView>,
    routes: bool,
    answers: Seq<AnswersView>,
    i: int,
) -> bool {
    &&& answers[i].events is Ok
    &&& is_match(targets, answers, i) ==> answers[i].proof is Some && (routes ==> answers[i].routed)
}

/// Whether there are answers for the targets from place `i` on, and their events can be held
/// against them, up to the target at which handling stops.
pub open spec fn answerable_from(
    targets: Seq<TargetView>,
    routes: bool,
    answers: Seq<AnswersView>,
    i: nat,
) -> bool
    decreases targets.len() - i,
{
    i < targets.len() ==> {
        &&& i < answers.len()
        &&& answers[i as int].events matches Ok(events) ==> event::all_comparable(
            events,
            targets[i as int],
        )
        &&& granted(targets, routes, answers, i as int) ==> answerable_from(
            targets,
            routes,
            answers,
            i + 1,
        )
    }
}

/// What is still to come of a notification in the given state, after the given request.
spec fn to_come(state: HandlingView, asked: Asked, answers: Seq<AnswersView>) -> Handled {
    let rest = handled_from(state.targets, state.routes, answers, state.next + 1);
    match asked {
        Asked::Done(outcome) => Handled {
            outcome,
            requests: Seq::empty(),
            messages: Seq::empty(),
        },
        Asked::Events => handled_from(state.targets, state.routes, answers, state.next),
        Asked::Proof { target, now } => proved_then(
            target,
            now,
            answers[state.next as int].proof,
            state.routes,
            answers[state.next as int].routed,
            rest,
        ),
        Asked::Route(message) => {
            let first = seq![message];
            if answers[state.next as int].routed {
                Handled { messages: first + rest.messages, ..rest }
            } else {
                Handled {
                    outcome: failed(ErrorKind::MessageRoutingFailed.message()),
                    requests: Seq::empty(),
                    messages: first,
                }
            }
        },
        Asked::Finality => arbitrary(),
    }
}

/// Whether the state waits for what was asked.
spec fn waits_for(state: HandlingView, asked: Asked) -> bool {
    &&& match asked {
        Asked::Finality => state.stage == Stage::Finality,
        Asked::Events => state.stage == Stage::Events,
        Asked::Proof { .. } => state.stage == Stage::Proof,
        Asked::Route(_) => state.stage == Stage::Route,
        Asked::Done(_) => state.stage == Stage::Done,
    }
    &&& asked is Events || asked is Proof || asked is Route ==> state.next < state.targets.len()
}

/// Whether the answers lead a state to its end.
spec fn is_provided(state: HandlingView, asked: Asked, answers: Seq<AnswersView>) -> bool {
    let i = state.next as int;
    match asked {
        Asked::Events => answerable_from(state.targets, state.routes, answers, state.next),
        Asked::Proof { .. } | Asked::Route(_) => {
            &&& i < answers.len()
            &&& is_match(state.targets, answers, i)
            &&& asked matches Asked::Proof { target, .. } ==> target == state.targets[i]
            &&& asked is Route ==> state.routes && answers[i].proof is Some
            &&& granted(state.targets, state.routes, answers, i) ==> answerable_from(
                state.targets,
                state.routes,
                answers,
                state.next + 1,
            )
        },
        _ => true,
    }
}

/// The steps that a state has ahead of it, at most.
spec fn steps_left(state: HandlingView) -> int {
    4 * (state.targets.len() - state.next) + match state.stage {
        Stage::Finality => 4int,
        Stage::Events => 3,
        Stage::Proof => 2,
        Stage::Route => 1,
        Stage::Done => 0,
    }
}

/// The messages as they read.
pub open spec fn message_views(messages: Seq<FrostMessage>) -> Seq<MessageView> {
    messages.map_values(|m: FrostMessage| m@)
}

/// Copies the answer to a question for a proof, as far as it matters.
fn copied_answer(answer: &Result<Vec<u8>, StateError>) -> (r: Result<Vec<u8>, StateError>)
    ensures
        handling::proof_answer(r) == handling::proof_answer(*answer),
{
    match answer {
        Ok(payload) => Ok(copied(payload.as_slice())),
        Err(StateError::Internal(reason)) => Err(StateError::Internal(reason.clone())),
    }
}

/// Takes a state to its end with the given answers, from the action that is up.
fn run_targets(
    start: Handling,
    first: Action,
    Ghost(first_asked): Ghost<Asked>,
    answers: &Vec<TargetAnswers>,
) -> (r: HandledNotification)
    requires
        first.asks(start@.block, first_asked),
        waits_for(start@, first_asked),
        !(first_asked is Finality),
        start@.next <= start@.targets.len(),
        is_provided(start@, first_asked, answer_views(answers@)),
    ensures
        r.tells(
            start@.block.chain_id.id@,
            start@.block.number as nat,
            to_come(start@, first_asked, answer_views(answers@)),
        ),
{
    let ghost goal = to_come(start@, first_asked, answer_views(answers@));
    let ghost block = start@.block;
    let ghost mut proved: Seq<(TargetView, u64)> = Seq::empty();
    let ghost mut asked = first_asked;
    let mut state = start;
    let mut action = first;
    let mut requests: Vec<ProofRequest> = Vec::new();
    let mut messages: Vec<FrostMessage> = Vec::new();
    assert(message_views(messages@) =~= Seq::empty());
    assert(Seq::<MessageView>::empty() + goal.messages =~= goal.messages);
    assert(proved + goal.requests =~= goal.requests);
    loop
        invariant
            block == start@.block,
            state@.block == block,
            requests@.len() == proved.len(),
            forall|k: int|
                0 <= k < proved.len() ==> handling::is_request_at(
                    #[trigger] requests@[k],
                    block.chain_id.id@,
                    block.number as nat,
                    proved[k].0,
                    proved[k].1,
                ),
            goal.requests == proved + to_come(state@, asked, answer_views(answers@)).requests,
            goal == to_come(start@, first_asked, answer_views(answers@)),
            action.asks(state@.block, asked),
            waits_for(state@, asked),
            !(asked is Finality),
            state@.next <= state@.targets.len(),
            is_provided(state@, asked, answer_views(answers@)),
            goal.outcome == to_come(state@, asked, answer_views(answers@)).outcome,
            goal.messages == message_views(messages@) + to_come(
                state@,
                asked,
                answer_views(answers@),
            ).messages,
        decreases steps_left(state@),
    {
        let ghost before = state@;
        let ghost sent = message_views(messages@);
        let ghost replies = answer_views(answers@);
        match action {
            Action::Done(outcome) => {
                assert(sent + Seq::empty() =~= sent);
                assert(proved + Seq::empty() =~= proved);
                return HandledNotification { outcome, requests, messages };
            },
            Action::FetchEvents(_) => {
                let i: usize = state.position();
                assert(replies[i as int] == answers@[i as int]@);
                action = state.after_events(&answers[i].events, answers[i].now);
                proof {
                    asked = before.after_events(replies[i as int].events, replies[i as int].now).1;
                }
            },
            Action::GenerateProof(request) => {
                let i: usize = state.position();
                let ghost wanted = (asked->Proof_target, asked->Proof_now);
                let ghost done = proved;
                requests.push(request);
                assert(replies[i as int] == answers@[i as int]@);
                action = state.after_proof(copied_answer(&answers[i].proof));
                proof {
                    asked = before.after_proof(replies[i as int].proof).1;
                    proved = done.push(wanted);
                    let rest = to_come(state@, asked, replies).requests;
                    assert(done.push(wanted) + rest =~= done + (seq![wanted] + rest));
                }
            },
            Action::Route(message) => {
                let i: usize = state.position();
                assert(replies[i as int] == answers@[i as int]@);
                action = state.after_routing(answers[i].routed);
                proof {
                    asked = before.after_routing(replies[i as int].routed).1;
                }
                messages.push(message);
                proof {
                    assert(message_views(messages@) =~= sent.push(message@));
                    let rest = to_come(state@, asked, replies).messages;
                    assert(sent.push(message@) + rest =~= sent + (seq![message@] + rest));
                }
            },
            Action::CheckFinality(_) => {
                return vstd::pervasive::unreached();
            },
        }
    }
}

/// Handles a notification of a block as a whole: by the answer whether the block is final, the
/// targets that are registered by then, and the answers for each of them.
pub fn run(
    block: BlockRef,
    routes: bool,
    finality: Result<bool, FinalityError>,
    targets: &Vec<WatchTarget>,
    answers: &Vec<TargetAnswers>,
) -> (r: HandledNotification)
    requires
        finality matches Ok(true) ==> answerable_from(
            handling::target_views(targets@),
            routes,
            answer_views(answers@),
            0,
        ),
    ensures
        r.tells(
            block.chain_id.id@,
            block.number as nat,
            handled(
                predicate::check_outcome(finality),
                handling::target_views(targets@),
                routes,
                answer_views(answers@),
            ),
        ),
{
    let mut state = Handling::new(block, routes).0;
    let ghost next = state@.after_finality(
        predicate::check_outcome(finality),
        handling::target_views(targets@),
    );
    let action = state.after_finality(finality, targets);
    run_targets(state, action, Ghost(next.1), answers)
}

/// No proof is asked for and nothing is sent for a block that is not final, and that is no failure
/// unless the check itself failed.
pub proof fn law_only_final_blocks_are_handled(
    finality: Result<bool, FinalityErrorView>,
    targets: Seq<TargetView>,
    routes: bool,
    answers: Seq<AnswersView>,
)
    requires
        finality != Ok::<bool, FinalityErrorView>(true),
    ensures
        handled(finality, targets, routes, answers).requests == Seq::<(TargetView, u64)>::empty(),
        handled(finality, targets, routes, answers).messages == Seq::<MessageView>::empty(),
        handled(finality, targets, routes, answers).outcome is Ok <==> finality is Ok,
{
}

/// Nothing is sent without a router.
pub proof fn law_without_router_nothing_is_sent(
    finality: Result<bool, FinalityErrorView>,
    targets: Seq<TargetView>,
    answers: Seq<AnswersView>,
)
    ensures
        handled(finality, targets, false, answers).messages == Seq::<MessageView>::empty(),
{
    lemma_nothing_sent_from(targets, answers, 0);
}

proof fn lemma_nothing_sent_from(targets: Seq<TargetView>, answers: Seq<AnswersView>, i: nat)
    ensures
        handled_from(targets, false, answers, i).messages == Seq::<MessageView>::empty(),
    decreases targets.len() - i,
{
    if i < targets.len() {
        lemma_nothing_sent_from(targets, answers, i + 1);
    }
}

/// The proofs for the matching targets from place `i` on, in the order of the targets.
pub open spec fn proofs_from(
    targets: Seq<TargetView>,
    answers: Seq<AnswersView>,
    i: nat,
) -> Seq<MessageView>
    decreases targets.len() - i,
{
    if i >= targets.len() {
        Seq::empty()
    } else if is_match(targets, answers, i as int) {
        seq![
            handling::proof_message(
                MessageType::StateTransition,
                answers[i as int].proof.unwrap(),
                targets[i as int],
            ),
        ] + proofs_from(targets, answers, i + 1)
    } else {
        proofs_from(targets, answers, i + 1)
    }
}

/// Handling a final block succeeds exactly where everything that is asked is granted, for every
/// target.
pub proof fn law_success_needs_every_answer(
    targets: Seq<TargetView>,
    routes: bool,
    answers: Seq<AnswersView>,
)
    ensures
        handled(Ok(true), targets, routes, answers).outcome is Ok <==> forall|i: int|
            0 <= i < targets.len() ==> #[trigger] granted(targets, routes, answers, i),
{
    lemma_success_from(targets, routes, answers, 0);
}

proof fn lemma_success_from(
    targets: Seq<TargetView>,
    routes: bool,
    answers: Seq<AnswersView>,
    i: nat,
)
    ensures
        handled_from(targets, routes, answers, i).outcome is Ok <==> forall|j: int|
            i <= j < targets.len() ==> #[trigger] granted(targets, routes, answers, j),
    decreases targets.len() - i,
{
    if i < targets.len() {
        lemma_success_from(targets, routes, answers, i + 1);
        if handled_from(targets, routes, answers, i).outcome is Ok {
            assert forall|j: int| i <= j < targets.len() implies #[trigger] granted(
                targets,
                routes,
                answers,
                j,
            ) by {}
        } else if granted(targets, routes, answers, i as int) {
            assert(!(forall|j: int|
                i + 1 <= j < targets.len() ==> #[trigger] granted(targets, routes, answers, j)));
        }
    }
}

/// The proofs that are due for the matching targets from place `i` on, in the order of the targets.
pub open spec fn requests_from(
    targets: Seq<TargetView>,
    answers: Seq<AnswersView>,
    i: nat,
) -> Seq<(TargetView, u64)>
    decreases targets.len() - i,
{
    if i >= targets.len() {
        Seq::empty()
    } else if is_match(targets, answers, i as int) {
        seq![(targets[i as int], answers[i as int].now)] + requests_from(targets, answers, i + 1)
    } else {
        requests_from(targets, answers, i + 1)
    }
}

/// Where handling a final block succeeds, one proof was asked for each matching target, in the order
/// of the targets, with or without a router. Also where it fails, the proofs that were asked for are
/// the first of these.
pub proof fn law_one_proof_for_each_match(
    targets: Seq<TargetView>,
    routes: bool,
    answers: Seq<AnswersView>,
)
    ensures
        handled(Ok(true), targets, routes, answers).requests.is_prefix_of(
            requests_from(targets, answers, 0),
        ),
        handled(Ok(true), targets, routes, answers).outcome is Ok ==> handled(
            Ok(true),
            targets,
            routes,
            answers,
        ).requests == requests_from(targets, answers, 0),
{
    lemma_requests_from(targets, routes, answers, 0);
}

proof fn lemma_requests_from(
    targets: Seq<TargetView>,
    routes: bool,
    answers: Seq<AnswersView>,
    i: nat,
)
    ensures
        handled_from(targets, routes, answers, i).requests.is_prefix_of(
            requests_from(targets, answers, i),
        ),
        handled_from(targets, routes, answers, i).outcome is Ok ==> handled_from(
            targets,
            routes,
            answers,
            i,
        ).requests == requests_from(targets, answers, i),
    decreases targets.len() - i,
{
    if i < targets.len() {
        lemma_requests_from(targets, routes, answers, i + 1);
        let rest = handled_from(targets, routes, answers, i + 1).requests;
        let due = requests_from(targets, answers, i + 1);
        if is_match(targets, answers, i as int) {
            let first = seq![(targets[i as int], answers[i as int].now)];
            assert((first + rest) =~= (first + due).subrange(0, (first + rest).len() as int));
            assert((first + Seq::empty()) =~= (first + due).subrange(0, 1));
        }
    }
}

/// Where handling a final block succeeds, the router got one message for each matching target, in
/// the order of the targets, with the proof for that target and addressed to its chain.
pub proof fn law_one_message_for_each_match(targets: Seq<TargetView>, answers: Seq<AnswersView>)
    requires
        handled(Ok(true), targets, true, answers).outcome is Ok,
    ensures
        handled(Ok(true), targets, true, answers).messages == proofs_from(targets, answers, 0),
{
    lemma_messages_from(targets, answers, 0);
}

proof fn lemma_messages_from(targets: Seq<TargetView>, answers: Seq<AnswersView>, i: nat)
    ensures
        handled_from(targets, true, answers, i).messages.is_prefix_of(
            proofs_from(targets, answers, i),
        ),
        handled_from(targets, true, answers, i).outcome is Ok ==> handled_from(
            targets,
            true,
            answers,
            i,
        ).messages == proofs_from(targets, answers, i),
    decreases targets.len() - i,
{
    if i < targets.len() {
        lemma_messages_from(targets, answers, i + 1);
        let rest = handled_from(targets, true, answers, i + 1).messages;
        let proofs = proofs_from(targets, answers, i + 1);
        if is_match(targets, answers, i as int) {
            let message = seq![
                handling::proof_message(
                    MessageType::StateTransition,
                    answers[i as int].proof.unwrap(),
                    targets[i as int],
                ),
            ];
            assert((message + rest) =~= (message + proofs).subrange(
                0,
                (message + rest).len() as int,
            ));
            assert(message =~= (message + proofs).subrange(0, 1));
        }
    }
}

/// Also where handling fails, what the router got are the first proofs for matching targets, in
/// the order of the targets.
pub proof fn law_failure_cuts_messages_off(
    finality: Result<bool, FinalityErrorView>,
    targets: Seq<TargetView>,
    answers: Seq<AnswersView>,
)
    ensures
        handled(finality, targets, true, answers).messages.is_prefix_of(
            proofs_from(targets, answers, 0),
        ),
{
    lemma_messages_from(targets, answers, 0);
}

/// A block that is not final, or of which that could not be found out, comes to nothing but that
/// outcome; a final one without targets to success.
pub proof fn law_finality_is_asked_before_targets(
    e: FinalityErrorView,
    targets: Seq<TargetView>,
    routes: bool,
    answers: Seq<AnswersView>,
)
    ensures
        handled(Err(e), targets, routes, answers) == (Handled {
            outcome: Err(ProtocolErrorView::Finality(e)),
            requests: Seq::empty(),
            messages: Seq::empty(),
        }),
        handled(Ok(false), targets, routes, answers) == (Handled {
            outcome: Ok(()),
            requests: Seq::empty(),
            messages: Seq::empty(),
        }),
        handled(Ok(true), Seq::empty(), routes, answers) == (Handled {
            outcome: Ok(()),
            requests: Seq::empty(),
            messages: Seq::empty(),
        }),
{
}

/// One more target, after the others, changes nothing where handling failed before it. Else it comes
/// to the failure to fetch its events; to nothing where none of them matches it; and else to one more
/// request for a proof, with the failure to generate it or, where there is a router, one more message
/// with it to the chain of the target, and the failure to route that.
pub proof fn law_one_more_target_is_handled_after_the_others(
    targets: Seq<TargetView>,
    routes: bool,
    answers: Seq<AnswersView>,
    target: TargetView,
    answer: AnswersView,
)
    requires
        targets.len() == answers.len(),
    ensures
        ({
            let before = handled(Ok(true), targets, routes, answers);
            let after = handled(Ok(true), targets.push(target), routes, answers.push(answer));
            &&& before.outcome is Err ==> after == before
            &&& before.outcome is Ok ==> {
                &&& answer.events matches Err(reason) ==> {
                    &&& after.outcome == Err::<(), _>(
                        ProtocolErrorView::Custom("Failed to fetch events: "@ + reason),
                    )
                    &&& after.requests == before.requests
                    &&& after.messages == before.messages
                }
                &&& answer.events matches Ok(events) ==> {
                    let matched = exists|k: int|
                        0 <= k < events.len() && event::event_matches(#[trigger] events[k], target);
                    &&& !matched ==> after == before
                    &&& matched ==> {
                        &&& after.requests == before.requests.push((target, answer.now))
                        &&& answer.proof is None ==> {
                            &&& after.outcome == Err::<(), _>(
                                ProtocolErrorView::Custom("Failed to generate proof"@),
                            )
                            &&& after.messages == before.messages
                        }
                        &&& answer.proof is Some && !routes ==> {
                            &&& after.outcome is Ok
                            &&& after.messages == before.messages
                        }
                        &&& answer.proof is Some && routes ==> {
                            &&& after.messages == before.messages.push(
                                MessageView {
                                    message_type: MessageType::StateTransition,
                                    payload: answer.proof->0,
                                    source_chain: "source"@,
                                    target_chain: Some(
                                        trusted::lossy_text(target.target_chain),
                                    ),
                                },
                            )
                            &&& answer.routed ==> after.outcome is Ok
                            &&& !answer.routed ==> after.outcome == Err::<(), _>(
                                ProtocolErrorView::Custom("Failed to route message"@),
                            )
                        }
                    }
                }
            }
        }),
{
    lemma_one_more_target(targets, routes, answers, target, answer, 0);
    let more = targets.push(target);
    let replies = answers.push(answer);
    let before = handled_from(targets, routes, answers, 0);
    let after = handled_from(more, routes, replies, 0);
    let last = handled_from(more, routes, replies, targets.len());
    let done = handled_from(more, routes, replies, targets.len() + 1);
    assert(more[targets.len() as int] == target);
    assert(replies[targets.len() as int] == answer);
    assert(done.outcome is Ok && done.requests =~= Seq::empty() && done.messages =~= Seq::empty());
    if before.outcome is Ok {
        assert(before.requests + Seq::empty() =~= before.requests);
        assert(before.messages + Seq::empty() =~= before.messages);
        if let Ok(events) = answer.events {
            if event::any_matches(events, target) {
                assert(seq![(target, answer.now)] + Seq::<(TargetView, u64)>::empty() =~= seq![
                    (target, answer.now),
                ]);
                assert(last.requests =~= seq![(target, answer.now)]);
                assert(before.requests + last.requests =~= before.requests.push(
                    (target, answer.now),
                ));
                if answer.proof is Some && routes {
                    let message = handling::proof_message(
                        MessageType::StateTransition,
                        answer.proof->0,
                        target,
                    );
                    assert(seq![message] + Seq::<MessageView>::empty() =~= seq![message]);
                    assert(last.messages =~= seq![message]);
                    assert(before.messages + last.messages =~= before.messages.push(message));
                }
            } else {
                assert(after.requests =~= before.requests);
                assert(after.messages =~= before.messages);
                assert(after.outcome->Ok_0 == before.outcome->Ok_0);
                assert(after.outcome == before.outcome);
            }
        }
    }
}

proof fn lemma_one_more_target(
    targets: Seq<TargetView>,
    routes: bool,
    answers: Seq<AnswersView>,
    target: TargetView,
    answer: AnswersView,
    i: nat,
)
    requires
        targets.len() == answers.len(),
        i <= targets.len(),
    ensures
        ({
            let more = targets.push(target);
            let replies = answers.push(answer);
            let before = handled_from(targets, routes, answers, i);
            let after = handled_from(more, routes, replies, i);
            let last = handled_from(more, routes, replies, targets.len());
            &&& before.outcome is Err ==> after == before
            &&& before.outcome is Ok ==> {
                &&& after.outcome == last.outcome
                &&& after.requests == before.requests + last.requests
                &&& after.messages == before.messages + last.messages
            }
        }),
    decreases targets.len() - i,
{
    let more = targets.push(target);
    let replies = answers.push(answer);
    let last = handled_from(more, routes, replies, targets.len());
    if i == targets.len() {
        assert(Seq::<(TargetView, u64)>::empty() + last.requests =~= last.requests);
        assert(Seq::<MessageView>::empty() + last.messages =~= last.messages);
    } else {
        lemma_one_more_target(targets, routes, answers, target, answer, i + 1);
        assert(more[i as int] == targets[i as int]);
        assert(replies[i as int] == answers[i as int]);
        let rest = handled_from(targets, routes, answers, i + 1);
        let first = seq![(targets[i as int], answers[i as int].now)];
        assert(first + (rest.requests + last.requests) =~= first + rest.requests + last.requests);
        if let Some(payload) = answers[i as int].proof {
            let message = seq![
                handling::proof_message(MessageType::StateTransition, payload, targets[i as int]),
            ];
            assert(message + (rest.messages + last.messages) =~= message + rest.messages
                + last.messages);
        }
    }
}

/// What comes of a notification is told whole: the outcome, each request in order for the transition
/// of its target at the height, and each message in order.
pub proof fn law_results_tell_what_came(
    r: HandledNotification,
    chain: Seq<char>,
    height: nat,
    expected: Handled,
    k: int,
)
    requires
        r.tells(chain, height, expected),
    ensures
        r.outcome is Ok <==> expected.outcome is Ok,
        r.outcome matches Err(e) ==> expected.outcome == Err::<(), _>(e@),
        r.requests@.len() == expected.requests.len(),
        0 <= k < r.requests@.len() ==> {
            let t = r.requests@[k].transition;
            let (target, now) = expected.requests[k];
            &&& t.chain_id.id@ == chain
            &&& t.block_height == height
            &&& t.metadata.timestamp == now
            &&& t.metadata.chain_specific matches Some(call) && {
                &&& call.module_name@ == trusted::lossy_text(target.module_name)
                &&& call.function_name@ == trusted::lossy_text(target.function_name)
                &&& call.target_chain@ == trusted::lossy_text(target.target_chain)
            }
            &&& r.requests@[k].config.max_proof_size == 1_048_576
            &&& r.requests@[k].config.proof_ttl == 86_400
        },
        r.messages@.len() == expected.messages.len(),
        0 <= k < r.messages@.len() ==> r.messages@[k]@ == expected.messages[k],
{
    if 0 <= k < r.requests@.len() {
        assert(handling::is_request_at(
            r.requests@[k],
            chain,
            height,
            expected.requests[k].0,
            expected.requests[k].1,
        ));
    }
    if 0 <= k < r.messages@.len() {
        assert(message_views(r.messages@)[k] == r.messages@[k]@);
    }
}

/// Answers are enough where there is one for each target and all events can be held against it.
pub proof fn law_an_answer_for_each_target_is_enough(
    targets: Seq<TargetView>,
    routes: bool,
    answers: Seq<AnswersView>,
    i: nat,
)
    requires
        targets.len() <= answers.len(),
        forall|k: int|
            0 <= k < targets.len() ==> ((#[trigger] answers[k]).events matches Ok(events)
                ==> event::all_comparable(events, targets[k])),
    ensures
        answerable_from(targets, routes, answers, i),
    decreases targets.len() - i,
{
    if i < targets.len() {
        law_an_answer_for_each_target_is_enough(targets, routes, answers, i + 1);
    }
}

/// An event of the block matches a target exactly where the events came and one of them does, and
/// everything is granted for it exactly where, then, the proof came and, with a router, its message
/// was routed.
pub proof fn law_matches_need_proof_and_routing(
    targets: Seq<TargetView>,
    routes: bool,
    answers: Seq<AnswersView>,
    i: int,
)
    ensures
        answers[i].events is Err ==> !is_match(targets, answers, i) && !granted(
            targets,
            routes,
            answers,
            i,
        ),
        answers[i].events matches Ok(events) ==> {
            let matched = exists|k: int|
                0 <= k < events.len() && event::event_matches(#[trigger] events[k], targets[i]);
            &&& is_match(targets, answers, i) <==> matched
            &&& granted(targets, routes, answers, i) <==> (matched ==> answers[i].proof is Some && (
            !routes || answers[i].routed))
        },
{
}

/// Answers and messages are read as they are, in order.
pub proof fn law_replies_are_read_as_they_are(
    answers: Seq<TargetAnswers>,
    messages: Seq<FrostMessage>,
    k: int,
)
    ensures
        answer_views(answers).len() == answers.len(),
        0 <= k < answers.len() ==> {
            let read = answer_views(answers)[k];
            &&& read.now == answers[k].now
            &&& read.routed == answers[k].routed
            &&& answers[k].proof matches Ok(payload) ==> read.proof == Some(payload@)
            &&& answers[k].proof is Err ==> read.proof is None
            &&& answers[k].events matches Err(reason) ==> read.events == Err::<Seq<Seq<u8>>, _>(
                reason@,
            )
            &&& answers[k].events matches Ok(events) ==> read.events == Ok::<_, Seq<char>>(
                events@.map_values(|event: Vec<u8>| event@),
            )
        },
        message_views(messages).len() == messages.len(),
        0 <= k < messages.len() ==> message_views(messages)[k] == messages[k]@,
{
}

} // verus!
