//! Fetching the salts of one match: how a decoded reply is classified, what
//! is handed to the ingestion sink, and when a failed fetch is tried again.

use vstd::prelude::*;
use vstd::arithmetic::power2::{
    lemma2_to64, lemma_pow2_pos, lemma_pow2_strictly_increases, lemma_pow2_unfold, pow2,
};
use crate::session::BotConn;

verus! {

/// Transport-level retries granted to the raw call of one fetch.
pub const TRANSPORT_MAX_RETRIES: i32 = 3;

/// The result codes of a match-metadata reply that the worker tells apart.
#[derive(Debug, Clone, Copy, PartialEq, Eq)]
pub enum ResultCode {
    InternalError,
    Success,
    RateLimited,
    /// Any other code the coordinator is known to send.
    Other,
}

/// A decoded match-metadata reply.
#[derive(Debug, Clone, Copy, PartialEq, Eq)]
pub struct MatchMetaData {
    /// The result field as transmitted, if the reply has one.
    pub result: Option<i32>,
    /// The known code that `result` stands for, if it stands for one.
    pub code: Option<ResultCode>,
    pub metadata_salt: Option<u32>,
    pub replay_salt: Option<u32>,
    pub replay_group_id: Option<u32>,
}

/// The record that goes to the ingestion sink for one fetched match.
#[derive(Debug)]
pub struct SaltRecord {
    pub cluster_id: Option<u32>,
    pub match_id: u64,
    pub metadata_salt: Option<u32>,
    pub replay_salt: Option<u32>,
    pub username: String,
}

/// A sink record as plain values.
pub struct SaltRecordView {
    pub cluster_id: Option<u32>,
    pub match_id: u64,
    pub metadata_salt: Option<u32>,
    pub replay_salt: Option<u32>,
    pub username: Seq<char>,
}

impl View for SaltRecord {
    type V = SaltRecordView;

    open spec fn view(&self) -> SaltRecordView {
        SaltRecordView {
            cluster_id: self.cluster_id,
            match_id: self.match_id,
            metadata_salt: self.metadata_salt,
            replay_salt: self.replay_salt,
            username: self.username@,
        }
    }
}

/// Why one fetch cycle did not deliver a record.
#[derive(Debug, Clone, Copy, PartialEq, Eq)]
pub enum FetchFailure {
    /// The transport gave up after its own retries.
    Transport,
    /// The reply could not be decoded.
    Malformed,
    /// The coordinator answered that the caller is rate limited.
    RateLimited,
    /// The coordinator answered with another non-success code; `result` is
    /// the result field as transmitted.
    Rejected { result: Option<i32> },
    /// The sink did not accept the record.
    Delivery,
}

impl MatchMetaData {
    /// The code the reply is judged by: its known code, and `InternalError`
    /// where the result field is absent or holds no known code.
    pub open spec fn spec_effective_code(self) -> ResultCode {
        match (self.result, self.code) {
            (Some(_), Some(code)) => code,
            _ => ResultCode::InternalError,
        }
    }

    /// The code the reply is judged by: its known code, and `InternalError`
    /// where the result field is absent or holds no known code.
    pub fn effective_code(&self) -> (code: ResultCode)
        ensures
            code == self.spec_effective_code(),
    {
        match self.result {
            Some(_) => match self.code {
                Some(code) => code,
                None => ResultCode::InternalError,
            },
            None => ResultCode::InternalError,
        }
    }
}

/// What a fetch of `match_id` on the session `bot` makes of `reply`.
pub open spec fn spec_fetch_match(match_id: u64, bot: BotConn, reply: MatchMetaData) -> Result<
    SaltRecordView,
    FetchFailure,
> {
    match reply.spec_effective_code() {
        ResultCode::Success => Ok(
            SaltRecordView {
                cluster_id: reply.replay_group_id,
                match_id,
                metadata_salt: reply.metadata_salt,
                replay_salt: reply.replay_salt,
                username: bot@.bot_name,
            },
        ),
        ResultCode::RateLimited => Err(FetchFailure::RateLimited),
        _ => Err(FetchFailure::Rejected { result: reply.result }),
    }
}

/// Classifies the decoded reply to a metadata request for `match_id`.
///
/// A success reply yields the one record for the sink: the coordinator's
/// group id, the match id, both salts, and the session's identity label. A
/// rate-limited reply is a failure worth retrying; every other code, a
/// missing one included, rejects this match for good.
pub fn fetch_match(match_id: u64, bot: &BotConn, reply: &MatchMetaData) -> (res: Result<
    SaltRecord,
    FetchFailure,
>)
    ensures
        match spec_fetch_match(match_id, *bot, *reply) {
            Ok(record) => res matches Ok(r) && r@ == record,
            Err(failure) => res matches Err(f) && f == failure,
        },
{
    match reply.effective_code() {
        ResultCode::Success => Ok(
            SaltRecord {
                cluster_id: reply.replay_group_id,
                match_id,
                metadata_salt: reply.metadata_salt,
                replay_salt: reply.replay_salt,
                username: bot.name().clone(),
            },
        ),
        ResultCode::RateLimited => Err(FetchFailure::RateLimited),
        _ => Err(FetchFailure::Rejected { result: reply.result }),
    }
}

impl FetchFailure {
    /// Failures that a later cycle may not repeat: the transport giving up,
    /// an undecodable reply, and rate limiting. A rejection by the
    /// coordinator and a refusal by the sink are final.
    pub open spec fn spec_is_retryable(self) -> bool {
        self is Transport || self is Malformed || self is RateLimited
    }

    /// Whether another fetch cycle may succeed where this one failed.
    pub fn is_retryable(&self) -> (res: bool)
        ensures
            res == self.spec_is_retryable(),
    {
        match self {
            FetchFailure::Transport => true,
            FetchFailure::Malformed => true,
            FetchFailure::RateLimited => true,
            FetchFailure::Rejected { .. } => false,
            FetchFailure::Delivery => false,
        }
    }
}

/// How often and how patiently a failed fetch cycle is repeated.
#[derive(Debug, Clone, Copy, PartialEq, Eq)]
pub struct RetryPolicy {
    /// Retries granted after the first cycle.
    pub max_retries: u32,
    /// Delay before the first retry, in milliseconds; each later one waits
    /// twice as long as the one before.
    pub base_delay_ms: u64,
}

/// What follows a failed fetch cycle.
#[derive(Debug, Clone, Copy, PartialEq, Eq)]
pub enum RetryDecision {
    /// Sleep `delay_ms`, then run the whole cycle again; `retries` counts
    /// the retries granted so far, this one included.
    Retry { retries: u32, delay_ms: u64 },
    /// Give the match up and report the failure.
    Stop,
}

/// The delay before retry number `retries + 1`: the base delay doubled
/// `retries` times, held at `u64::MAX` once it no longer fits.
pub open spec fn exponential_delay(base_ms: u64, retries: u32) -> u64 {
    if base_ms * pow2(retries as nat) <= u64::MAX {
        (base_ms * pow2(retries as nat)) as u64
    } else {
        u64::MAX
    }
}

/// Computes [`exponential_delay`].
pub fn backoff_delay(base_ms: u64, retries: u32) -> (delay: u64)
    ensures
        delay == exponential_delay(base_ms, retries),
{
    let mut delay: u64 = base_ms;
    let mut doubled: u32 = 0;
    proof {
        lemma_pow2_unfold(1);
        assert(pow2(0) == 1) by {
            lemma2_to64();
        }
    }
    while doubled < retries
        invariant
            doubled <= retries,
            delay == base_ms * pow2(doubled as nat),
        decreases retries - doubled,
    {
        let ghost low = pow2(doubled as nat);
        let ghost high = pow2(retries as nat);
        proof {
            lemma_pow2_unfold((doubled + 1) as nat);
            if doubled + 1 < retries {
                lemma_pow2_strictly_increases((doubled + 1) as nat, retries as nat);
            }
            assert(high >= 2 * low);
        }
        if delay == 0 {
            proof {
                lemma_pow2_pos(doubled as nat);
                assert(base_ms == 0) by (nonlinear_arith)
                    requires
                        base_ms * low == 0,
                        low > 0,
                ;
                assert(base_ms * high == 0) by (nonlinear_arith)
                    requires
                        base_ms == 0,
                ;
            }
            return 0;
        }
        if delay > u64::MAX / 2 {
            proof {
                assert(base_ms * high >= 2 * delay) by (nonlinear_arith)
                    requires
                        delay == base_ms * low,
                        high >= 2 * low,
                        base_ms >= 0,
                ;
            }
            return u64::MAX;
        }
        proof {
            assert(base_ms * (2 * low) == 2 * (base_ms * low)) by (nonlinear_arith);
        }
        delay = delay * 2;
        doubled = doubled + 1;
    }
    delay
}

impl RetryPolicy {
    /// What the policy answers to `failure` after `retries` retries: one
    /// more retry, after the next delay of the doubling series, as long as
    /// the failure may pass and a retry is left; otherwise a stop.
    pub open spec fn spec_decide(self, retries: u32, failure: FetchFailure) -> RetryDecision {
        if failure.spec_is_retryable() && retries < self.max_retries {
            RetryDecision::Retry {
                retries: (retries + 1) as u32,
                delay_ms: exponential_delay(self.base_delay_ms, retries),
            }
        } else {
            RetryDecision::Stop
        }
    }

    /// The policy every fetch is wrapped in: three retries, the first after
    /// a tenth of a second.
    pub fn for_fetch() -> (policy: RetryPolicy)
        ensures
            policy == (RetryPolicy { max_retries: 3, base_delay_ms: 100 }),
    {
        RetryPolicy { max_retries: 3, base_delay_ms: 100 }
    }

    /// Decides what follows a fetch cycle that failed with `failure`, when
    /// `retries` retries of the same match have been made before it.
    pub fn decide(&self, retries: u32, failure: &FetchFailure) -> (decision: RetryDecision)
        ensures
            decision == self.spec_decide(retries, *failure),
    {
        if failure.is_retryable() && retries < self.max_retries {
            RetryDecision::Retry {
                retries: retries + 1,
                delay_ms: backoff_delay(self.base_delay_ms, retries),
            }
        } else {
            RetryDecision::Stop
        }
    }
}

/// A failure that cannot pass is never retried, whatever the policy and
/// however many retries are left.
pub proof fn law_final_failure_is_not_retried(
    policy: RetryPolicy,
    retries: u32,
    failure: FetchFailure,
)
    requires
        failure is Rejected || failure is Delivery,
    ensures
        policy.spec_decide(retries, failure) == RetryDecision::Stop,
{
}

/// A failure that may pass is retried exactly as long as retries are left.
pub proof fn law_passing_failure_is_retried(
    policy: RetryPolicy,
    retries: u32,
    failure: FetchFailure,
)
    requires
        failure.spec_is_retryable(),
    ensures
        policy.spec_decide(retries, failure) is Retry <==> retries < policy.max_retries,
{
}

/// The first delay is the base delay, and every later delay is twice the
/// one before it, as far as that fits.
pub proof fn law_delay_doubles(base_ms: u64, retries: u32)
    requires
        retries < u32::MAX,
    ensures
        exponential_delay(base_ms, 0) == base_ms,
        2 * exponential_delay(base_ms, retries) <= u64::MAX ==> exponential_delay(
            base_ms,
            (retries + 1) as u32,
        ) == 2 * exponential_delay(base_ms, retries),
        2 * exponential_delay(base_ms, retries) > u64::MAX ==> exponential_delay(
            base_ms,
            (retries + 1) as u32,
        ) == u64::MAX,
{
    lemma2_to64();
    lemma_pow2_unfold((retries + 1) as nat);
    let low = pow2(retries as nat);
    assert(base_ms * (2 * low) == 2 * (base_ms * low)) by (nonlinear_arith);
}

/// How many fetch cycles one match takes in all, when `retries` retries
/// lie behind it and the cycle with the number `n`, counted from 1, ends as
/// `outcomes(n)` says: `None` for a delivered record, otherwise the failure.
/// After each failed cycle the policy is asked, and its answer is followed.
pub open spec fn cycles_run(
    policy: RetryPolicy,
    retries: u32,
    outcomes: spec_fn(nat) -> Option<FetchFailure>,
) -> nat
    decreases policy.max_retries - retries,
{
    match outcomes((retries + 1) as nat) {
        None => (retries + 1) as nat,
        Some(failure) => match policy.spec_decide(retries, failure) {
            RetryDecision::Retry { retries: next, .. } => cycles_run(policy, next, outcomes),
            RetryDecision::Stop => (retries + 1) as nat,
        },
    }
}

/// The delays, in milliseconds and in order, that lie between those cycles.
pub open spec fn delays_slept(
    policy: RetryPolicy,
    retries: u32,
    outcomes: spec_fn(nat) -> Option<FetchFailure>,
) -> Seq<u64>
    decreases policy.max_retries - retries,
{
    match outcomes((retries + 1) as nat) {
        None => Seq::empty(),
        Some(failure) => match policy.spec_decide(retries, failure) {
            RetryDecision::Retry { retries: next, delay_ms } => seq![delay_ms] + delays_slept(
                policy,
                next,
                outcomes,
            ),
            RetryDecision::Stop => Seq::empty(),
        },
    }
}

proof fn lemma_cycles_until_success(
    policy: RetryPolicy,
    retries: u32,
    outcomes: spec_fn(nat) -> Option<FetchFailure>,
    failures: nat,
)
    requires
        retries <= failures <= policy.max_retries,
        outcomes(failures + 1) is None,
        forall|n: nat|
            retries < n <= failures ==> (#[trigger] outcomes(n) matches Some(failure)
                && failure.spec_is_retryable()),
    ensures
        cycles_run(policy, retries, outcomes) == failures + 1,
        delays_slept(policy, retries, outcomes).len() == failures - retries,
        forall|i: int|
            0 <= i < failures - retries ==> #[trigger] delays_slept(policy, retries, outcomes)[i]
                == exponential_delay(policy.base_delay_ms, (retries + i) as u32),
    decreases failures - retries,
{
    if retries < failures {
        let next = (retries + 1) as u32;
        assert(outcomes(next as nat) is Some);
        lemma_cycles_until_success(policy, next, outcomes, failures);
        let all = delays_slept(policy, retries, outcomes);
        let tail = delays_slept(policy, next, outcomes);
        assert(all =~= seq![exponential_delay(policy.base_delay_ms, retries)] + tail);
        assert forall|i: int| 0 <= i < failures - retries implies #[trigger] all[i]
            == exponential_delay(policy.base_delay_ms, (retries + i) as u32) by {
            if i > 0 {
                assert(all[i] == tail[i - 1]);
            }
        }
    }
}

/// A match whose first `failures` cycles fail in a way that may pass, and
/// whose next cycle delivers, takes exactly `failures + 1` cycles, as long
/// as the policy grants that many retries. Between the cycles lie the
/// delays of the doubling series, starting with the base delay.
pub proof fn law_passing_failures_are_outlasted(
    policy: RetryPolicy,
    outcomes: spec_fn(nat) -> Option<FetchFailure>,
    failures: nat,
)
    requires
        failures <= policy.max_retries,
        outcomes(failures + 1) is None,
        forall|n: nat|
            1 <= n <= failures ==> (#[trigger] outcomes(n) matches Some(failure)
                && failure.spec_is_retryable()),
    ensures
        cycles_run(policy, 0, outcomes) == failures + 1,
        delays_slept(policy, 0, outcomes).len() == failures,
        forall|i: int|
            0 <= i < failures ==> #[trigger] delays_slept(policy, 0, outcomes)[i]
                == exponential_delay(policy.base_delay_ms, i as u32),
{
    lemma_cycles_until_success(policy, 0, outcomes, failures);
}

/// A match whose first cycle fails for good takes that one cycle and no
/// delay, whatever the policy.
pub proof fn law_final_failure_takes_one_cycle(
    policy: RetryPolicy,
    outcomes: spec_fn(nat) -> Option<FetchFailure>,
)
    requires
        outcomes(1) matches Some(failure) && !failure.spec_is_retryable(),
    ensures
        cycles_run(policy, 0, outcomes) == 1,
        delays_slept(policy, 0, outcomes) == Seq::<u64>::empty(),
{
}

} // verus!
