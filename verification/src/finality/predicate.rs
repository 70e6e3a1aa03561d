//! The finality predicate: when a block is taken as final, and how long that is waited for.

use std::sync::Arc;

use vstd::prelude::*;

use crate::finality::client;
use crate::finality::client::{ChainReadings, HeaderLookup};
use crate::finality::config::{ChainRules, PredicateConfig};
use crate::finality::error::{FinalityError, FinalityErrorView};
use crate::finality::voters::Voters;
use crate::grandpa;
use crate::grandpa::{AuthorityList, VoterWeights};
use crate::number;
use crate::number::GrandpaNumber;
use crate::state::BlockRef;
use crate::text::joined;

verus! {

/// The fork depth that the finality predicate allows.
pub const MAX_FORK_DEPTH: u32 = 50;

/// The number of voting rounds of GRANDPA.
pub const VOTING_ROUNDS: u32 = 2;

/// The participation that the finality predicate asks for, in percent: two thirds.
pub const PARTICIPATION_PERCENT: u64 = 67;

/// The pause between two checks for finality, in nanoseconds.
pub const RETRY_PAUSE: u128 = 2_000_000_000;

/// The confidence in a block: whether it is below the threshold that is asked for, and its value
/// in percent, rounded down.
#[derive(Clone, Copy, Debug, PartialEq, Eq, Structural)]
pub struct ConfidenceReading {
    pub below_threshold: bool,
    pub percent: u64,
}

/// How waiting for finality goes on.
#[derive(Debug)]
pub enum WaitStep {
    /// Waiting is over.
    Done(Result<(), FinalityError>),
    /// Pause, then check again; so many pauses were made by then.
    Retry { retry_count: u32 },
}

/// What a step of waiting says.
pub enum WaitView {
    Done(Result<(), FinalityErrorView>),
    Retry { retry_count: u32 },
}

impl View for WaitStep {
    type V = WaitView;

    open spec fn view(&self) -> WaitView {
        match self {
            WaitStep::Done(Ok(_)) => WaitView::Done(Ok(())),
            WaitStep::Done(Err(e)) => WaitView::Done(Err(e@)),
            WaitStep::Retry { retry_count } => WaitView::Retry { retry_count: *retry_count },
        }
    }
}

/// The outcome of a finality check, as far as it can be compared.
pub open spec fn check_outcome(outcome: Result<bool, FinalityError>) -> Result<
    bool,
    FinalityErrorView,
> {
    match outcome {
        Ok(b) => Ok(b),
        Err(e) => Err(e@),
    }
}

/// The rules of the chain that a block has to meet.
pub open spec fn rules_of(config: PredicateConfig) -> ChainRules {
    ChainRules {
        min_confirmations: config.min_confirmations,
        max_fork_depth: MAX_FORK_DEPTH,
        voting_rounds: VOTING_ROUNDS,
    }
}

/// The answer to a question about a block, as far as it can be compared.
pub open spec fn answered(answer: Result<bool, String>) -> Result<bool, Seq<char>> {
    match answer {
        Ok(b) => Ok(b),
        Err(e) => Err(e@),
    }
}

/// Why a block whose lookup gave the given answer is not checked any further, if it is not.
pub open spec fn refused(known: Result<bool, String>) -> Option<FinalityErrorView> {
    match known {
        Err(e) => Some(FinalityErrorView::ChainError("Block verification failed: "@ + e@)),
        Ok(false) => Some(FinalityErrorView::ChainError("Block not found"@)),
        Ok(true) => None,
    }
}

/// Whether a block is final: it has to be known, the confidence in it must not be below the
/// threshold, and it has to meet the rules of the chain. Later answers matter only where the
/// earlier ones leave the question open.
pub open spec fn decision(
    config: PredicateConfig,
    known: Result<bool, String>,
    confidence: Result<ConfidenceReading, String>,
    rules_met: Result<bool, String>,
) -> Result<bool, FinalityErrorView> {
    match refused(known) {
        Some(e) => Err(e),
        None => match confidence {
            Err(e) => Err(
                FinalityErrorView::ConsensusError {
                    details: "Failed to get finality confidence: "@ + e@,
                    required_power: config.required_percent,
                    actual_power: 0,
                },
            ),
            Ok(reading) => if reading.below_threshold {
                Ok(false)
            } else {
                ruled(reading.percent, rules_met)
            },
        },
    }
}

/// Whether a block is final once only the rules of the chain are left to ask.
pub open spec fn ruled(percent: u64, rules_met: Result<bool, String>) -> Result<
    bool,
    FinalityErrorView,
> {
    match rules_met {
        Ok(met) => Ok(met),
        Err(e) => Err(
            FinalityErrorView::ConsensusError {
                details: "Chain rule verification failed: "@ + e@,
                required_power: PARTICIPATION_PERCENT,
                actual_power: percent,
            },
        ),
    }
}

/// How waiting for finality goes on after a check with the given outcome.
pub open spec fn waited(
    config: PredicateConfig,
    block_ref: BlockRef,
    outcome: Result<bool, FinalityErrorView>,
    elapsed: u128,
    retry_count: u32,
) -> WaitView {
    match outcome {
        Err(e) => WaitView::Done(Err(e)),
        Ok(true) => WaitView::Done(Ok(())),
        Ok(false) => if elapsed > config.evaluation_timeout {
            WaitView::Done(
                Err(
                    FinalityErrorView::Timeout {
                        block_ref,
                        timeout_nanos: config.evaluation_timeout,
                        retry_count,
                    },
                ),
            )
        } else {
            WaitView::Retry { retry_count: (retry_count + 1) as u32 }
        },
    }
}

/// The GRANDPA finality predicate over a chain client `C`.
pub struct GrandpaFinality<C> {
    client: Arc<C>,
    config: PredicateConfig,
    voter_set: Voters,
}

impl<C> GrandpaFinality<C> {
    /// The chain client.
    pub closed spec fn chain_client(&self) -> Arc<C> {
        self.client
    }

    /// What is asked of a block.
    pub closed spec fn predicate_config(&self) -> PredicateConfig {
        self.config
    }

    /// The voters.
    pub closed spec fn voters(&self) -> Voters {
        self.voter_set
    }

    /// A predicate for the given authorities, of which there may be none yet.
    pub fn new(client: Arc<C>, config: PredicateConfig, authorities: &AuthorityList) -> (r: Self)
        requires
            authorities@.len() == 0 || 0 < grandpa::total_weight(authorities@) <= u64::MAX,
        ensures
            r.chain_client() == client,
            r.predicate_config() == config,
            r.voters().describes(authorities@),
    {
        GrandpaFinality { client, config, voter_set: Voters::of(authorities) }
    }

    /// The chain client.
    pub fn client(&self) -> (r: &Arc<C>)
        ensures
            *r == self.chain_client(),
    {
        &self.client
    }

    /// What is asked of a block.
    pub fn config(&self) -> (r: PredicateConfig)
        ensures
            r == self.predicate_config(),
    {
        self.config
    }

    /// The rules of the chain that a block has to meet.
    pub fn chain_rules(&self) -> (r: ChainRules)
        ensures
            r == rules_of(self.predicate_config()),
    {
        ChainRules {
            min_confirmations: self.config.min_confirmations,
            max_fork_depth: MAX_FORK_DEPTH,
            voting_rounds: VOTING_ROUNDS,
        }
    }

    /// First step of a check, after the lookup of the block: goes on only with a known block.
    pub fn after_lookup(&self, known: Result<bool, String>) -> (r: Result<(), FinalityError>)
        ensures
            match refused(known) {
                None => r is Ok,
                Some(e) => r matches Err(err) && err@ == e,
            },
    {
        match known {
            Err(e) => Err(
                FinalityError::ChainError(joined("Block verification failed: ", e.as_str())),
            ),
            Ok(false) => Err(FinalityError::ChainError("Block not found".to_owned())),
            Ok(true) => Ok(()),
        }
    }

    /// Second step of a check, after the confidence in the block was read: the confidence in
    /// percent where the rules of the chain are to be asked next, none where the block is not
    /// final.
    pub fn after_confidence(&self, confidence: Result<ConfidenceReading, String>) -> (r: Result<
        Option<u64>,
        FinalityError,
    >)
        ensures
            match confidence {
                Err(e) => r matches Err(err) && err@ == (FinalityErrorView::ConsensusError {
                    details: "Failed to get finality confidence: "@ + e@,
                    required_power: self.predicate_config().required_percent,
                    actual_power: 0,
                }),
                Ok(reading) => r == Ok::<_, FinalityError>(
                    if reading.below_threshold {
                        None
                    } else {
                        Some(reading.percent)
                    },
                ),
            },
    {
        match confidence {
            Err(e) => Err(
                FinalityError::ConsensusError {
                    details: joined("Failed to get finality confidence: ", e.as_str()),
                    required_power: self.config.required_percent,
                    actual_power: 0,
                },
            ),
            Ok(reading) => if reading.below_threshold {
                Ok(None)
            } else {
                Ok(Some(reading.percent))
            },
        }
    }

    /// Last step of a check, after the rules of the chain were asked.
    pub fn after_rules(&self, percent: u64, rules_met: Result<bool, String>) -> (r: Result<
        bool,
        FinalityError,
    >)
        ensures
            check_outcome(r) == ruled(percent, rules_met),
    {
        match rules_met {
            Ok(met) => Ok(met),
            Err(e) => Err(
                FinalityError::ConsensusError {
                    details: joined("Chain rule verification failed: ", e.as_str()),
                    required_power: PARTICIPATION_PERCENT,
                    actual_power: percent,
                },
            ),
        }
    }

    /// Whether a block is final, by all three answers: whether it is known, the confidence in it,
    /// and whether it meets the rules of the chain.
    pub fn is_final(
        &self,
        known: Result<bool, String>,
        confidence: Result<ConfidenceReading, String>,
        rules_met: Result<bool, String>,
    ) -> (r: Result<bool, FinalityError>)
        ensures
            check_outcome(r) == decision(self.predicate_config(), known, confidence, rules_met),
    {
        match self.after_lookup(known) {
            Err(e) => Err(e),
            Ok(_) => match self.after_confidence(confidence) {
                Err(e) => Err(e),
                Ok(None) => Ok(false),
                Ok(Some(percent)) => self.after_rules(percent, rules_met),
            },
        }
    }

    /// How waiting for finality goes on, after a check with the given outcome, the given time
    /// since waiting began, and the given number of pauses.
    pub fn wait_for_finality(
        &self,
        block_ref: &BlockRef,
        outcome: Result<bool, FinalityError>,
        elapsed: u128,
        retry_count: u32,
    ) -> (r: WaitStep)
        requires
            outcome == Ok::<bool, FinalityError>(false) && elapsed
                <= self.predicate_config().evaluation_timeout ==> retry_count < u32::MAX,
        ensures
            r@ == waited(
                self.predicate_config(),
                *block_ref,
                check_outcome(outcome),
                elapsed,
                retry_count,
            ),
    {
        match outcome {
            Err(e) => WaitStep::Done(Err(e)),
            Ok(true) => WaitStep::Done(Ok(())),
            Ok(false) => if elapsed > self.config.evaluation_timeout {
                WaitStep::Done(
                    Err(
                        FinalityError::Timeout {
                            block_ref: block_ref.clone(),
                            timeout_nanos: self.config.evaluation_timeout,
                            retry_count,
                        },
                    ),
                )
            } else {
                WaitStep::Retry { retry_count: retry_count + 1 }
            },
        }
    }
}

/// A block is final only where it is known, trusted enough and within the rules; an unknown block
/// is an error and never merely "not final".
pub proof fn law_final_needs_every_answer(
    config: PredicateConfig,
    known: Result<bool, String>,
    confidence: Result<ConfidenceReading, String>,
    rules_met: Result<bool, String>,
)
    ensures
        decision(config, known, confidence, rules_met) == Ok::<bool, FinalityErrorView>(true)
            <==> {
            &&& known == Ok::<bool, String>(true)
            &&& confidence matches Ok(reading) && !reading.below_threshold
            &&& rules_met == Ok::<bool, String>(true)
        },
        known != Ok::<bool, String>(true) ==> decision(
            config,
            known,
            confidence,
            rules_met,
        ) is Err,
{
}

/// A block that is found final, by the answers of a verification client, is known under its number.
/// Its height is within the fork depth of the best one. Where confirmations are asked for, the chain
/// has finalized it, and the finalized height is above it by as many blocks as are asked for.
pub proof fn law_final_blocks_are_confirmed<N: GrandpaNumber>(
    config: PredicateConfig,
    weights: VoterWeights,
    total: nat,
    block_ref: BlockRef,
    header: HeaderLookup<N>,
    readings: ChainReadings<N>,
    best_number: nat,
    participation_below: bool,
    known: Result<bool, String>,
    confidence: Result<ConfidenceReading, String>,
    rules_met: Result<bool, String>,
)
    requires
        answered(known) == client::lookup_answer(block_ref, header),
        answered(rules_met) == client::rules_answer(
            client::established(weights, total, block_ref.hash@, readings),
            best_number,
            rules_of(config),
            N::max_nat(),
            participation_below,
        ),
        decision(config, known, confidence, rules_met) == Ok::<bool, FinalityErrorView>(true),
    ensures
        header matches Ok(Some(h)) && h.number.as_nat() == number::nearest(
            block_ref.number as nat,
            N::max_nat(),
        ),
        readings.header matches Ok(Some(h)) && {
            let asked = number::nearest(config.min_confirmations as nat, N::max_nat());
            &&& best_number <= h.number.as_nat() + number::nearest(
                MAX_FORK_DEPTH as nat,
                N::max_nat(),
            )
            &&& asked > 0 ==> {
                &&& client::is_canonical(block_ref.hash@, readings.canonical)
                &&& h.number.as_nat() + asked <= readings.finalized_number.as_nat()
            }
        },
{
}

/// Waiting comes to an end: where every pause takes its time, no more pauses are made than fit
/// the timeout, and one more.
pub proof fn law_waiting_is_bounded(
    config: PredicateConfig,
    block_ref: BlockRef,
    outcome: Result<bool, FinalityErrorView>,
    elapsed: u128,
    retry_count: u32,
)
    requires
        retry_count < u32::MAX,
        elapsed >= retry_count * RETRY_PAUSE,
        waited(config, block_ref, outcome, elapsed, retry_count) is Retry,
    ensures
        waited(config, block_ref, outcome, elapsed, retry_count)->retry_count
            <= config.evaluation_timeout / RETRY_PAUSE + 1,
{
    assert(retry_count <= config.evaluation_timeout / RETRY_PAUSE) by (nonlinear_arith)
        requires
            retry_count * RETRY_PAUSE <= config.evaluation_timeout,
            RETRY_PAUSE == 2_000_000_000,
    ;
}

/// The outcome of a finality check, and the time since waiting began at which it came.
pub struct TimedCheck {
    pub outcome: Result<bool, FinalityErrorView>,
    pub elapsed: u128,
}

/// What waiting for finality comes to over a run of checks, from the check `k` on: the outcome and
/// the number of checks that were made, or nothing where the run ends before waiting does.
pub open spec fn wait_over(
    config: PredicateConfig,
    block_ref: BlockRef,
    checks: Seq<TimedCheck>,
    k: nat,
) -> Option<(Result<(), FinalityErrorView>, nat)>
    decreases checks.len() - k,
{
    if k >= checks.len() {
        None
    } else {
        match waited(
            config,
            block_ref,
            checks[k as int].outcome,
            checks[k as int].elapsed,
            k as u32,
        ) {
            WaitView::Done(outcome) => Some((outcome, k + 1)),
            WaitView::Retry { .. } => wait_over(config, block_ref, checks, k + 1),
        }
    }
}

/// Whether a check leaves waiting open: the block is not final, and time is left.
pub open spec fn leaves_open(config: PredicateConfig, check: TimedCheck) -> bool {
    check.outcome == Ok::<bool, FinalityErrorView>(false) && check.elapsed
        <= config.evaluation_timeout
}

/// Waiting goes on exactly while checks find the block not final and time is left. It succeeds
/// exactly where the last check finds the block final, after checks that all found it not final; an
/// error of a check is returned at once; and a timeout that counts `n` retries comes after `n + 1`
/// checks, none of which found the block final, the last of them too late.
pub proof fn law_waiting_follows_the_checks(
    config: PredicateConfig,
    block_ref: BlockRef,
    checks: Seq<TimedCheck>,
)
    requires
        checks.len() <= u32::MAX,
    ensures
        match wait_over(config, block_ref, checks, 0) {
            None => forall|j: int| 0 <= j < checks.len() ==> leaves_open(config, #[trigger] checks[j]),
            Some((outcome, made)) => {
                let last = checks[made - 1];
                &&& 1 <= made <= checks.len()
                &&& forall|j: int| 0 <= j < made - 1 ==> leaves_open(config, #[trigger] checks[j])
                &&& outcome is Ok <==> last.outcome == Ok::<bool, FinalityErrorView>(true)
                &&& last.outcome matches Err(e) ==> outcome == Err::<(), _>(e)
                &&& last.outcome == Ok::<bool, FinalityErrorView>(false) ==> last.elapsed
                    > config.evaluation_timeout && outcome == Err::<(), _>(
                    FinalityErrorView::Timeout {
                        block_ref,
                        timeout_nanos: config.evaluation_timeout,
                        retry_count: (made - 1) as u32,
                    },
                )
            },
        },
        checks.len() > 0 && checks[0].outcome == Ok::<bool, FinalityErrorView>(true) ==> wait_over(
            config,
            block_ref,
            checks,
            0,
        ) == Some((Ok::<(), FinalityErrorView>(()), 1nat)),
{
    lemma_wait_over(config, block_ref, checks, 0);
}

proof fn lemma_wait_over(
    config: PredicateConfig,
    block_ref: BlockRef,
    checks: Seq<TimedCheck>,
    k: nat,
)
    requires
        checks.len() <= u32::MAX,
    ensures
        match wait_over(config, block_ref, checks, k) {
            None => forall|j: int| k <= j < checks.len() ==> leaves_open(config, #[trigger] checks[j]),
            Some((outcome, made)) => {
                let last = checks[made - 1];
                &&& k + 1 <= made <= checks.len()
                &&& forall|j: int| k <= j < made - 1 ==> leaves_open(config, #[trigger] checks[j])
                &&& outcome is Ok <==> last.outcome == Ok::<bool, FinalityErrorView>(true)
                &&& last.outcome matches Err(e) ==> outcome == Err::<(), _>(e)
                &&& last.outcome == Ok::<bool, FinalityErrorView>(false) ==> last.elapsed
                    > config.evaluation_timeout && outcome == Err::<(), _>(
                    FinalityErrorView::Timeout {
                        block_ref,
                        timeout_nanos: config.evaluation_timeout,
                        retry_count: (made - 1) as u32,
                    },
                )
            },
        },
    decreases checks.len() - k,
{
    if k < checks.len() {
        lemma_wait_over(config, block_ref, checks, k + 1);
    }
}

/// A block that is found final, by the answers of a verification client, has no justification with
/// less participation than is asked for.
pub proof fn law_final_blocks_have_participation<N: GrandpaNumber>(
    config: PredicateConfig,
    weights: VoterWeights,
    total: nat,
    block_ref: BlockRef,
    readings: ChainReadings<N>,
    best_number: nat,
    participation_below: bool,
    known: Result<bool, String>,
    confidence: Result<ConfidenceReading, String>,
    rules_met: Result<bool, String>,
)
    requires
        answered(rules_met) == client::rules_answer(
            client::established(weights, total, block_ref.hash@, readings),
            best_number,
            rules_of(config),
            N::max_nat(),
            participation_below,
        ),
        decision(config, known, confidence, rules_met) == Ok::<bool, FinalityErrorView>(true),
    ensures
        client::established(weights, total, block_ref.hash@, readings) matches Ok(s) && (
        s.has_justification ==> !participation_below),
{
}

/// Each answer decides in its turn: an unknown block and a failed question are errors that say what
/// failed, too little confidence means that the block is not final, and else the rules decide.
pub proof fn law_answers_decide_in_turn(
    config: PredicateConfig,
    known: Result<bool, String>,
    confidence: Result<ConfidenceReading, String>,
    rules_met: Result<bool, String>,
)
    ensures
        ({
            let d = decision(config, known, confidence, rules_met);
            &&& known matches Err(e) ==> d == Err::<bool, _>(
                FinalityErrorView::ChainError("Block verification failed: "@ + e@),
            )
            &&& known == Ok::<bool, String>(false) ==> d == Err::<bool, _>(
                FinalityErrorView::ChainError("Block not found"@),
            )
            &&& known == Ok::<bool, String>(true) ==> {
                &&& confidence matches Err(e) ==> d == Err::<bool, _>(
                    FinalityErrorView::ConsensusError {
                        details: "Failed to get finality confidence: "@ + e@,
                        required_power: config.required_percent,
                        actual_power: 0,
                    },
                )
                &&& confidence matches Ok(reading) ==> {
                    &&& reading.below_threshold ==> d == Ok::<bool, FinalityErrorView>(false)
                    &&& !reading.below_threshold ==> {
                        &&& rules_met matches Ok(met) ==> d == Ok::<bool, FinalityErrorView>(met)
                        &&& rules_met matches Err(e) ==> d == Err::<bool, _>(
                            FinalityErrorView::ConsensusError {
                                details: "Chain rule verification failed: "@ + e@,
                                required_power: 67,
                                actual_power: reading.percent,
                            },
                        )
                    }
                }
            }
        }),
{
}

/// The steps of a check come to the same as the answers together: a refused block ends it, and the
/// rules have the last word.
pub proof fn law_steps_come_to_the_decision(
    config: PredicateConfig,
    known: Result<bool, String>,
    confidence: Result<ConfidenceReading, String>,
    rules_met: Result<bool, String>,
)
    ensures
        refused(known) is None <==> known == Ok::<bool, String>(true),
        refused(known) matches Some(e) ==> decision(config, known, confidence, rules_met) == Err::<
            bool,
            _,
        >(e),
        known == Ok::<bool, String>(true) ==> (confidence matches Ok(reading) ==> (
        !reading.below_threshold ==> decision(config, known, confidence, rules_met) == ruled(
            reading.percent,
            rules_met,
        ))),
{
}

/// A check that failed ends waiting with its error, one that found the block final ends it well, and
/// any other one leads to a timeout once the time is up, and to one more pause before that.
pub proof fn law_each_check_ends_or_prolongs_waiting(
    config: PredicateConfig,
    block_ref: BlockRef,
    e: FinalityErrorView,
    elapsed: u128,
    retry_count: u32,
)
    ensures
        waited(config, block_ref, Err(e), elapsed, retry_count) == WaitView::Done(Err(e)),
        waited(config, block_ref, Ok(true), elapsed, retry_count) == WaitView::Done(Ok(())),
        elapsed > config.evaluation_timeout ==> waited(
            config,
            block_ref,
            Ok(false),
            elapsed,
            retry_count,
        ) == WaitView::Done(
            Err(
                FinalityErrorView::Timeout {
                    block_ref,
                    timeout_nanos: config.evaluation_timeout,
                    retry_count,
                },
            ),
        ),
        elapsed <= config.evaluation_timeout && retry_count < u32::MAX ==> (waited(
            config,
            block_ref,
            Ok(false),
            elapsed,
            retry_count,
        ) matches WaitView::Retry { retry_count: next } && next == retry_count + 1),
{
}

/// The rules of the chain ask for the confirmations of the predicate and a fork depth of fifty, over
/// two voting rounds.
pub proof fn law_rules_come_from_the_predicate(config: PredicateConfig)
    ensures
        rules_of(config).min_confirmations == config.min_confirmations,
        rules_of(config).max_fork_depth == 50,
        rules_of(config).voting_rounds == 2,
{
}

/// Outcomes are compared as they are, and errors by what they say.
pub proof fn law_check_outcomes_are_compared_as_they_are(
    b: bool,
    e: FinalityError,
    text: String,
    retry_count: u32,
)
    ensures
        check_outcome(Ok(b)) == Ok::<bool, FinalityErrorView>(b),
        check_outcome(Err(e)) == Err::<bool, _>(e@),
        answered(Ok(b)) == Ok::<bool, Seq<char>>(b),
        answered(Err(text)) == Err::<bool, _>(text@),
        WaitStep::Done(Ok(()))@ == WaitView::Done(Ok(())),
        WaitStep::Done(Err(e))@ == WaitView::Done(Err(e@)),
        (WaitStep::Retry { retry_count })@ == (WaitView::Retry { retry_count }),
{
}

/// A check leaves waiting open exactly where waiting goes on after it.
pub proof fn law_open_checks_prolong_waiting(
    config: PredicateConfig,
    block_ref: BlockRef,
    check: TimedCheck,
    retry_count: u32,
)
    ensures
        leaves_open(config, check) <==> waited(
            config,
            block_ref,
            check.outcome,
            check.elapsed,
            retry_count,
        ) is Retry,
{
}

} // verus!
