//! One request with its retry budget.
//!
//! A `Request` decides; the caller performs. After `start` or `next` names
//! `Step::Get`, the caller sends one GET to `url`, reads the body as text,
//! and reports the `Attempt`. The status code of a reply plays no part: a
//! body that could be read is the result.

use vstd::prelude::*;
use crate::endpoint::{resolve, resolved};
use crate::error::Error;

verus! {

/// How one GET ended.
#[derive(Debug, Clone, PartialEq, Eq)]
pub enum Attempt {
    /// The exchange completed and the body was read as this text.
    Body(String),
    /// The connection, the exchange or the reading of the body failed.
    Failed,
}

/// What the caller does next.
#[derive(Debug, PartialEq, Eq)]
pub enum Step {
    /// Send one GET to the request's URL and report how it ended.
    Get,
    /// The request is over, with this result.
    Done(Result<String, Error>),
}

/// A URL to fetch and the number of attempts that may still be made.
#[derive(Debug, Clone, PartialEq, Eq)]
pub struct Request {
    pub url: String,
    pub remaining: u32,
}

impl Request {
    /// A request for `path` that may be attempted `retry_count` times.
    pub fn new(path: &str, retry_count: u32) -> (request: Request)
        ensures
            request.url@ == resolved(path@),
            request.remaining == retry_count,
    {
        Request { url: resolve(path), remaining: retry_count }
    }

    /// The first step: a request without budget is over before any attempt.
    pub open spec fn spec_start(self) -> Step {
        if self.remaining == 0 {
            Step::Done(Err(Error::RetryLimit))
        } else {
            Step::Get
        }
    }

    /// The state and the step after one more attempt ended as `outcome`: the
    /// first body that was read is the result; a failure uses up one attempt,
    /// and the last one ends the request.
    pub open spec fn spec_next(self, outcome: Attempt) -> (Request, Step) {
        match outcome {
            Attempt::Body(body) => (self, Step::Done(Ok(body))),
            Attempt::Failed => {
                let left: u32 = if self.remaining > 0 {
                    (self.remaining - 1) as u32
                } else {
                    0
                };
                (
                    Request { url: self.url, remaining: left },
                    if left == 0 {
                        Step::Done(Err(Error::RetryLimit))
                    } else {
                        Step::Get
                    },
                )
            },
        }
    }

    /// The number of attempts that `outcomes`, reported in turn, lets the
    /// request make, and the step it ends on; `Step::Get` where the outcomes
    /// run out before the request is over.
    pub open spec fn run(self, outcomes: Seq<Attempt>) -> (nat, Step)
        decreases outcomes.len(),
    {
        if self.spec_start() is Done {
            (0, self.spec_start())
        } else if outcomes.len() == 0 {
            (0, Step::Get)
        } else {
            let (after, step) = self.spec_next(outcomes[0]);
            if step is Done {
                (1, step)
            } else {
                let (made, last) = after.run(outcomes.drop_first());
                (made + 1, last)
            }
        }
    }

    /// Says whether a first attempt is to be made.
    pub fn start(&self) -> (step: Step)
        ensures
            step == self.spec_start(),
    {
        if self.remaining == 0 {
            Step::Done(Err(Error::RetryLimit))
        } else {
            Step::Get
        }
    }

    /// Takes the outcome of the attempt just made and says what follows.
    pub fn next(self, outcome: Attempt) -> (after: (Request, Step))
        ensures
            after == self.spec_next(outcome),
    {
        match outcome {
            Attempt::Body(body) => (self, Step::Done(Ok(body))),
            Attempt::Failed => {
                let left: u32 = if self.remaining > 0 {
                    self.remaining - 1
                } else {
                    0
                };
                let step = if left == 0 {
                    Step::Done(Err(Error::RetryLimit))
                } else {
                    Step::Get
                };
                (Request { url: self.url, remaining: left }, step)
            },
        }
    }

    /// No step changes the URL.
    pub proof fn lemma_url_kept(self, outcome: Attempt)
        ensures
            self.spec_next(outcome).0.url == self.url,
    {
    }

    /// Where every attempt fails, the request ends in `RetryLimit` after
    /// exactly as many attempts as its budget allows.
    pub proof fn lemma_retry_exhaustion(self, outcomes: Seq<Attempt>)
        requires
            outcomes.len() >= self.remaining,
            forall|i: int| 0 <= i < self.remaining ==> outcomes[i] is Failed,
        ensures
            self.run(outcomes) == (self.remaining as nat, Step::Done(Err(Error::RetryLimit))),
        decreases outcomes.len(),
    {
        if self.remaining > 0 {
            assert(outcomes[0] is Failed);
            let (after, step) = self.spec_next(outcomes[0]);
            if self.remaining > 1 {
                let rest = outcomes.drop_first();
                assert forall|i: int| 0 <= i < after.remaining implies rest[i] is Failed by {
                    assert(rest[i] == outcomes[i + 1]);
                }
                after.lemma_retry_exhaustion(rest);
            }
        }
    }

    /// The body of the first attempt that succeeds within the budget is the
    /// result, and no attempt is made after it.
    pub proof fn lemma_first_body_wins(self, outcomes: Seq<Attempt>, k: int)
        requires
            0 <= k < outcomes.len(),
            k < self.remaining,
            forall|i: int| 0 <= i < k ==> outcomes[i] is Failed,
            outcomes[k] is Body,
        ensures
            self.run(outcomes) == ((k + 1) as nat, Step::Done(Ok(outcomes[k]->Body_0))),
        decreases k,
    {
        if k > 0 {
            assert(outcomes[0] is Failed);
            let (after, step) = self.spec_next(outcomes[0]);
            let rest = outcomes.drop_first();
            assert forall|i: int| 0 <= i < k - 1 implies rest[i] is Failed by {
                assert(rest[i] == outcomes[i + 1]);
            }
            assert(rest[k - 1] == outcomes[k]);
            after.lemma_first_body_wins(rest, k - 1);
        }
    }

    /// A request never makes more attempts than its budget allows.
    pub proof fn lemma_attempts_bounded(self, outcomes: Seq<Attempt>)
        ensures
            self.run(outcomes).0 <= self.remaining,
        decreases outcomes.len(),
    {
        if !(self.spec_start() is Done) && outcomes.len() > 0 {
            let (after, step) = self.spec_next(outcomes[0]);
            if !(step is Done) {
                after.lemma_attempts_bounded(outcomes.drop_first());
            }
        }
    }
}

} // verus!
