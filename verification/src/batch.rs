//! The operator's order and the batch of matches it names.

use vstd::prelude::*;
use crate::fetch::FetchFailure;
use crate::session::{BotConfig, BotConfigView};

verus! {

/// What the operator supplies: the account to log in with and the matches
/// to fetch.
#[derive(Debug)]
pub struct Args {
    pub username: String,
    pub password: String,
    pub match_ids: Vec<u64>,
}

/// An order as plain values.
pub struct ArgsView {
    pub username: Seq<char>,
    pub password: Seq<char>,
    pub match_ids: Seq<u64>,
}

impl View for Args {
    type V = ArgsView;

    open spec fn view(&self) -> ArgsView {
        ArgsView {
            username: self.username@,
            password: self.password@,
            match_ids: self.match_ids@,
        }
    }
}

impl Clone for Args {
    fn clone(&self) -> (res: Self)
        ensures
            res@ == self@,
    {
        Args {
            username: self.username.clone(),
            password: self.password.clone(),
            match_ids: self.match_ids.clone(),
        }
    }
}

impl Args {
    /// The credentials named in the order.
    pub fn bot_config(&self) -> (cfg: BotConfig)
        ensures
            cfg@ == (BotConfigView { username: self@.username, password: self@.password }),
    {
        BotConfig { username: self.username.clone(), password: self.password.clone() }
    }

    /// The batch of the matches named in the order, in the order given.
    pub fn batch(&self) -> (batch: Batch)
        ensures
            batch@ == BatchView::fresh(self@.match_ids),
    {
        Batch::new(self.match_ids.clone())
    }
}

/// A batch of matches, fetched one after the other.
///
/// Each match is attempted in its turn however the ones before it ended:
/// a failure is counted and the batch moves on.
#[derive(Debug)]
pub struct Batch {
    match_ids: Vec<u64>,
    position: usize,
    failed: usize,
}

/// A batch as plain values.
pub struct BatchView {
    /// The matches of the batch, in the order they are fetched.
    pub match_ids: Seq<u64>,
    /// How many of them have ended, one way or the other.
    pub position: nat,
    /// How many of those ended in failure.
    pub failed: nat,
}

impl BatchView {
    /// A batch on which nothing has been fetched yet.
    pub open spec fn fresh(match_ids: Seq<u64>) -> BatchView {
        BatchView { match_ids, position: 0, failed: 0 }
    }

    /// The match whose turn it is; `None` once all have had theirs.
    pub open spec fn current(self) -> Option<u64> {
        if self.position < self.match_ids.len() {
            Some(self.match_ids[self.position as int])
        } else {
            None
        }
    }

    /// The batch after the current match ended with `outcome`. Without a
    /// current match nothing changes.
    pub open spec fn record(self, outcome: Result<(), FetchFailure>) -> BatchView {
        if self.position < self.match_ids.len() {
            BatchView {
                match_ids: self.match_ids,
                position: self.position + 1,
                failed: if outcome is Err {
                    self.failed + 1
                } else {
                    self.failed
                },
            }
        } else {
            self
        }
    }

    /// The batch after its next matches ended with `outcomes`, in order.
    pub open spec fn run(self, outcomes: Seq<Result<(), FetchFailure>>) -> BatchView
        decreases outcomes.len(),
    {
        if outcomes.len() == 0 {
            self
        } else {
            self.record(outcomes[0]).run(outcomes.drop_first())
        }
    }
}

impl View for Batch {
    type V = BatchView;

    closed spec fn view(&self) -> BatchView {
        BatchView {
            match_ids: self.match_ids@,
            position: self.position as nat,
            failed: self.failed as nat,
        }
    }
}

impl Batch {
    #[verifier::type_invariant]
    spec fn well_formed(self) -> bool {
        self.failed <= self.position <= self.match_ids.len()
    }

    /// A batch of the given matches, none of them fetched yet.
    pub fn new(match_ids: Vec<u64>) -> (batch: Batch)
        ensures
            batch@ == BatchView::fresh(match_ids@),
    {
        Batch { match_ids, position: 0, failed: 0 }
    }

    /// The match to fetch now; `None` when the batch is through.
    pub fn current(&self) -> (id: Option<u64>)
        ensures
            id == self@.current(),
    {
        proof {
            use_type_invariant(self);
        }
        if self.position < self.match_ids.len() {
            Some(self.match_ids[self.position])
        } else {
            None
        }
    }

    /// Takes note of how the current match ended and moves on to the next.
    pub fn record(&mut self, outcome: Result<(), FetchFailure>)
        ensures
            final(self)@ == old(self)@.record(outcome),
    {
        proof {
            use_type_invariant(&*self);
        }
        if self.position < self.match_ids.len() {
            self.position = self.position + 1;
            if outcome.is_err() {
                self.failed = self.failed + 1;
            }
        }
    }

    /// How many matches have ended so far.
    pub fn attempted(&self) -> (n: usize)
        ensures
            n == self@.position,
    {
        self.position
    }

    /// How many of the matches that ended so far ended in failure.
    pub fn failed(&self) -> (n: usize)
        ensures
            n == self@.failed,
    {
        self.failed
    }
}

/// No failure keeps a later match from its turn: however the first `k`
/// matches of a batch ended, the match whose turn it is next is the one at
/// index `k`, and the batch is through only when every match has had its
/// turn. Outcomes reported beyond the end of the batch change nothing.
pub proof fn law_failures_do_not_stop_the_batch(
    match_ids: Seq<u64>,
    outcomes: Seq<Result<(), FetchFailure>>,
)
    ensures
        BatchView::fresh(match_ids).run(outcomes).match_ids == match_ids,
        BatchView::fresh(match_ids).run(outcomes).position == if outcomes.len()
            < match_ids.len() {
            outcomes.len()
        } else {
            match_ids.len()
        },
        BatchView::fresh(match_ids).run(outcomes).current() == if outcomes.len()
            < match_ids.len() {
            Some(match_ids[outcomes.len() as int])
        } else {
            None
        },
{
    lemma_run_advances(BatchView::fresh(match_ids), outcomes);
}

proof fn lemma_run_advances(batch: BatchView, outcomes: Seq<Result<(), FetchFailure>>)
    requires
        batch.position <= batch.match_ids.len(),
    ensures
        batch.run(outcomes).match_ids == batch.match_ids,
        batch.run(outcomes).position == if batch.position + outcomes.len()
            < batch.match_ids.len() {
            batch.position + outcomes.len()
        } else {
            batch.match_ids.len()
        },
    decreases outcomes.len(),
{
    if outcomes.len() > 0 {
        lemma_run_advances(batch.record(outcomes[0]), outcomes.drop_first());
    }
}

} // verus!
