//! The resilient invocation layer: one remote call, repeated on transport
//! errors with a growing pause, a bounded number of times.
//!
//! The layer looks at nothing but whether the channel delivered a reply. What
//! the reply says is the caller's business.

use vstd::prelude::*;
use crate::session::{BotConn, InvokePayload, JobCall, JobCallView};

verus! {

/// What follows one attempt of a remote call.
#[derive(Debug)]
pub enum InvokeStep<R, E> {
    /// The call is over: the reply, or the error of the last attempt.
    Done(Result<R, E>),
    /// Sleep `sleep_secs` seconds, then issue `job`; `retries` is the retry
    /// count to hand in with the outcome of that attempt.
    Retry { retries: u32, sleep_secs: u64, job: JobCall },
}

/// What the layer decides after an attempt, payloads left aside.
pub enum Verdict {
    /// The attempt succeeded; its reply is the result.
    Succeed,
    /// The attempt failed and no retry is left; its error is the result.
    GiveUp,
    /// The attempt failed; retry number `retries` follows after a pause.
    Backoff { retries: u32, sleep_secs: u64 },
}

/// The pause before retry number `attempt`, in seconds: twice the number.
pub open spec fn linear_backoff_secs(attempt: nat) -> nat {
    2 * attempt
}

/// The decision after an attempt that was preceded by `retries` retries.
/// A failure is retried as long as fewer than `max_retries` retries have
/// been made.
pub open spec fn transport_verdict(max_retries: i32, retries: u32, succeeded: bool) -> Verdict {
    if succeeded {
        Verdict::Succeed
    } else if retries < max_retries {
        Verdict::Backoff {
            retries: (retries + 1) as u32,
            sleep_secs: linear_backoff_secs((retries + 1) as nat) as u64,
        }
    } else {
        Verdict::GiveUp
    }
}

impl<R, E> InvokeStep<R, E> {
    /// The decision this step carries out.
    pub open spec fn verdict(self) -> Verdict {
        match self {
            InvokeStep::Done(Ok(_)) => Verdict::Succeed,
            InvokeStep::Done(Err(_)) => Verdict::GiveUp,
            InvokeStep::Retry { retries, sleep_secs, .. } => Verdict::Backoff { retries, sleep_secs },
        }
    }
}

impl BotConn {
    /// Decides what follows one attempt of the call described by `payload`.
    ///
    /// The caller issues the first attempt with [`BotConn::invoke`] and
    /// `retries == 0`, and hands each attempt's outcome in here. A reply ends
    /// the call. A transport error is answered with a pause of twice the
    /// retry number in seconds and a fresh copy of the same request, until
    /// `max_retries` retries have failed too; then the last error is the
    /// result.
    pub fn invoke_with_retries<R, E>(
        &self,
        payload: &InvokePayload,
        max_retries: i32,
        retries: u32,
        outcome: Result<R, E>,
    ) -> (step: InvokeStep<R, E>)
        ensures
            step.verdict() == transport_verdict(max_retries, retries, outcome is Ok),
            step matches InvokeStep::Done(result) ==> result == outcome,
            step matches InvokeStep::Retry { job, .. } ==> job@ == (JobCallView {
                kind: payload.kind,
                data: payload.data@,
                needs_ack: true,
            }),
    {
        match outcome {
            Ok(reply) => InvokeStep::Done(Ok(reply)),
            Err(error) => {
                if max_retries > 0 && retries < max_retries as u32 {
                    let next: u32 = retries + 1;
                    InvokeStep::Retry {
                        retries: next,
                        sleep_secs: 2 * (next as u64),
                        job: self.invoke(payload.clone()),
                    }
                } else {
                    InvokeStep::Done(Err(error))
                }
            },
        }
    }
}

/// How many job calls an invocation makes in all, when `retries` retries
/// lie behind it and the attempt with the number `n`, counted from 1, gets
/// a reply exactly if `replies(n)`.
pub open spec fn calls_made(max_retries: i32, retries: u32, replies: spec_fn(nat) -> bool) -> nat
    decreases max_retries - retries,
{
    match transport_verdict(max_retries, retries, replies((retries + 1) as nat)) {
        Verdict::Backoff { retries: next, .. } => calls_made(max_retries, next, replies),
        _ => (retries + 1) as nat,
    }
}

/// The pauses, in seconds and in order, that the same invocation still
/// takes between its calls.
pub open spec fn sleeps_taken(max_retries: i32, retries: u32, replies: spec_fn(nat) -> bool) -> Seq<
    nat,
>
    decreases max_retries - retries,
{
    match transport_verdict(max_retries, retries, replies((retries + 1) as nat)) {
        Verdict::Backoff { retries: next, sleep_secs } => seq![sleep_secs as nat] + sleeps_taken(
            max_retries,
            next,
            replies,
        ),
        _ => Seq::empty(),
    }
}

/// The smaller of two numbers.
pub open spec fn smaller(a: int, b: int) -> int {
    if a <= b {
        a
    } else {
        b
    }
}

proof fn lemma_calls_made(
    max_retries: i32,
    retries: u32,
    replies: spec_fn(nat) -> bool,
    first: nat,
)
    requires
        retries <= max_retries,
        retries < first,
        replies(first),
        forall|n: nat| retries < n < first ==> !#[trigger] replies(n),
    ensures
        calls_made(max_retries, retries, replies) == smaller(first as int, max_retries + 1),
    decreases max_retries - retries,
{
    let attempt = (retries + 1) as nat;
    if !replies(attempt) && retries < max_retries {
        lemma_calls_made(max_retries, (retries + 1) as u32, replies, first);
    }
}

/// With a limit of `max_retries >= 0`, an invocation makes exactly as many
/// job calls as it takes to get the first reply, but never more than
/// `max_retries + 1`.
///
/// `attempts_until_success` is the number of the first attempt that gets a
/// reply.
pub proof fn law_call_count(
    max_retries: i32,
    replies: spec_fn(nat) -> bool,
    attempts_until_success: nat,
)
    requires
        max_retries >= 0,
        attempts_until_success >= 1,
        replies(attempts_until_success),
        forall|n: nat| 1 <= n < attempts_until_success ==> !#[trigger] replies(n),
    ensures
        calls_made(max_retries, 0, replies) == smaller(
            attempts_until_success as int,
            max_retries + 1,
        ),
{
    lemma_calls_made(max_retries, 0, replies, attempts_until_success);
}

proof fn lemma_calls_made_without_reply(
    max_retries: i32,
    retries: u32,
    replies: spec_fn(nat) -> bool,
)
    requires
        retries <= max_retries,
        forall|n: nat| n > retries ==> !#[trigger] replies(n),
    ensures
        calls_made(max_retries, retries, replies) == max_retries + 1,
    decreases max_retries - retries,
{
    assert(!replies((retries + 1) as nat));
    if retries < max_retries {
        lemma_calls_made_without_reply(max_retries, (retries + 1) as u32, replies);
    }
}

/// With a limit of `max_retries >= 0`, an invocation that never gets a
/// reply makes exactly `max_retries + 1` job calls.
pub proof fn law_call_count_without_reply(max_retries: i32, replies: spec_fn(nat) -> bool)
    requires
        max_retries >= 0,
        forall|n: nat| n >= 1 ==> !#[trigger] replies(n),
    ensures
        calls_made(max_retries, 0, replies) == max_retries + 1,
{
    lemma_calls_made_without_reply(max_retries, 0, replies);
}

proof fn lemma_sleeps_taken(max_retries: i32, retries: u32, replies: spec_fn(nat) -> bool)
    ensures
        retries + sleeps_taken(max_retries, retries, replies).len() + 1 == calls_made(
            max_retries,
            retries,
            replies,
        ),
        forall|i: int|
            0 <= i < sleeps_taken(max_retries, retries, replies).len() ==> #[trigger] sleeps_taken(
                max_retries,
                retries,
                replies,
            )[i] == 2 * (retries + i + 1),
    decreases max_retries - retries,
{
    if !replies((retries + 1) as nat) && retries < max_retries {
        let next = (retries + 1) as u32;
        lemma_sleeps_taken(max_retries, next, replies);
        let tail = sleeps_taken(max_retries, next, replies);
        let all = sleeps_taken(max_retries, retries, replies);
        assert(all =~= seq![(2 * next) as nat] + tail);
        assert forall|i: int| 0 <= i < all.len() implies #[trigger] all[i] == 2 * (retries + i
            + 1) by {
            if i > 0 {
                assert(all[i] == tail[i - 1]);
            }
        }
    }
}

/// Between two consecutive calls of one invocation lies exactly one pause,
/// and the pause after the `n`-th failed attempt is `2 * n` seconds.
pub proof fn law_linear_backoff(max_retries: i32, replies: spec_fn(nat) -> bool)
    ensures
        sleeps_taken(max_retries, 0, replies).len() + 1 == calls_made(max_retries, 0, replies),
        forall|n: int|
            1 <= n <= sleeps_taken(max_retries, 0, replies).len() ==> #[trigger] sleeps_taken(
                max_retries,
                0,
                replies,
            )[n - 1] == linear_backoff_secs(n as nat),
{
    lemma_sleeps_taken(max_retries, 0, replies);
    let all = sleeps_taken(max_retries, 0, replies);
    assert forall|n: int| 1 <= n <= all.len() implies #[trigger] all[n - 1] == linear_backoff_secs(
        n as nat,
    ) by {
        assert(all[n - 1] == 2 * (0 + (n - 1) + 1));
    }
}

} // verus!
