//! The status poller: a bounded-time, interval-based polling state machine.
//!
//! One poll invocation repeatedly queries a remote control-plane for the
//! status of a long-running operation until the desired status is observed,
//! the operation reports failure, a query errors out, or the time budget is
//! exhausted. The decisions live in [`PollState`]; [`run_poll`] drives the
//! whole loop over a given sequence of query outcomes, on an idealized clock
//! where each wait advances time by exactly its duration and queries return
//! instantly.

use vstd::prelude::*;
use crate::classify::generic_retryable;
use crate::classify::is_err_retryable;
use crate::errors::PollError;
use crate::errors::QueryError;
use crate::status::Status;

verus! {

/// Fixed warm-up delay before the very first query, used instead of the
/// configured interval regardless of the interval's value.
pub const WARMUP_DELAY_MS: u64 = 1000;

/// What one query produced: an observed status, or a transport/service error.
#[derive(Clone, Copy, Debug, PartialEq, Eq, Structural)]
pub enum QueryOutcome {
    Observed(Status),
    Errored(QueryError),
}

/// The poller's decision after evaluating one query outcome.
#[derive(Clone, Copy, Debug, PartialEq, Eq)]
pub enum StepVerdict {
    /// Keep polling: wait, then query again.
    Continue,
    /// The poll is over, with this result.
    Done(Result<Status, PollError>),
}

/// Local state of one poll invocation: the caller's parameters and the
/// number of queries evaluated so far without reaching a terminal decision.
#[derive(Clone, Copy, Debug)]
pub struct PollState {
    /// The status the caller wants to observe.
    pub desired: Status,
    /// Total wall-clock budget, in milliseconds.
    pub timeout_ms: u64,
    /// Steady-state spacing between queries, in milliseconds.
    pub interval_ms: u64,
    /// Queries evaluated so far that decided to continue.
    pub attempts: u64,
}

/// The wait before the query of attempt `attempts`: the fixed warm-up delay
/// for the very first attempt, the configured interval afterwards.
pub open spec fn wait_ms_spec(attempts: int, interval_ms: int) -> int {
    if attempts == 0 {
        WARMUP_DELAY_MS as int
    } else {
        interval_ms
    }
}

/// Elapsed time on the idealized clock at the top of iteration `k`, before
/// its timeout check: the sum of all waits of the earlier iterations.
pub open spec fn elapsed_at_check(k: int, interval_ms: int) -> int
    decreases k,
{
    if k <= 0 {
        0
    } else {
        elapsed_at_check(k - 1, interval_ms) + wait_ms_spec(k - 1, interval_ms)
    }
}

/// An outcome that makes the poll continue: an observed status that is
/// neither the desired one nor `Failed`.
pub open spec fn is_nonterminal(o: QueryOutcome, desired: Status) -> bool {
    o matches QueryOutcome::Observed(s) && s != desired && s != Status::Failed
}

/// The result of the whole poll, on the idealized clock, evaluated from the
/// top of iteration `k` on: `None` when the outcome sequence runs out before
/// the poll terminates, otherwise the terminal result.
pub open spec fn result_spec(
    desired: Status,
    timeout_ms: int,
    interval_ms: int,
    outcomes: Seq<QueryOutcome>,
    k: int,
) -> Option<Result<Status, PollError>>
    decreases outcomes.len() - k,
{
    if elapsed_at_check(k, interval_ms) > timeout_ms {
        Some(Result::<Status, PollError>::Err(PollError::PollTimeout))
    } else if k < 0 || k >= outcomes.len() {
        None
    } else {
        match outcomes[k] {
            QueryOutcome::Errored(e) => Some(Result::<Status, PollError>::Err(
                PollError::Transport { retryable: generic_retryable(e) },
            )),
            QueryOutcome::Observed(s) => {
                if desired != Status::Failed && s == Status::Failed {
                    Some(Result::<Status, PollError>::Err(PollError::OperationFailed))
                } else if s == desired {
                    Some(Result::<Status, PollError>::Ok(s))
                } else {
                    result_spec(desired, timeout_ms, interval_ms, outcomes, k + 1)
                }
            },
        }
    }
}

/// How many queries the poll issues from the top of iteration `k` on.
/// A poll that ends on a query outcome counts that query; one that ends at
/// the timeout check (or because the sequence ran out) issues none further.
pub open spec fn queries_spec(
    desired: Status,
    timeout_ms: int,
    interval_ms: int,
    outcomes: Seq<QueryOutcome>,
    k: int,
) -> int
    decreases outcomes.len() - k,
{
    if elapsed_at_check(k, interval_ms) > timeout_ms {
        0
    } else if k < 0 || k >= outcomes.len() {
        0
    } else if is_nonterminal(outcomes[k], desired) {
        1 + queries_spec(desired, timeout_ms, interval_ms, outcomes, k + 1)
    } else {
        1
    }
}

/// How a whole poll run over a given outcome sequence ended.
#[derive(Clone, Copy, Debug, PartialEq, Eq)]
pub enum PollRun {
    /// The poll terminated, after issuing `queries` queries in all.
    Finished { result: Result<Status, PollError>, queries: usize },
    /// The outcome sequence ran out after `queries` queries, with time
    /// budget still left and no terminal decision reached.
    TraceEnded { queries: usize },
}

impl PollState {
    /// Fresh state for one poll invocation.
    pub fn new(desired: Status, timeout_ms: u64, interval_ms: u64) -> (s: Self)
        ensures
            s.desired == desired,
            s.timeout_ms == timeout_ms,
            s.interval_ms == interval_ms,
            s.attempts == 0,
    {
        PollState { desired, timeout_ms, interval_ms, attempts: 0 }
    }

    /// The timeout check at the top of each iteration. Strictly greater:
    /// an attempt whose wait pushes elapsed exactly to the boundary still runs.
    pub fn should_give_up(&self, elapsed_ms: u64) -> (b: bool)
        ensures
            b == (elapsed_ms > self.timeout_ms),
    {
        elapsed_ms > self.timeout_ms
    }

    /// How long to wait before the next query.
    pub fn wait_before_query(&self) -> (w: u64)
        ensures
            w as int == wait_ms_spec(self.attempts as int, self.interval_ms as int),
    {
        if self.attempts == 0 {
            WARMUP_DELAY_MS
        } else {
            self.interval_ms
        }
    }

    /// Evaluates one query outcome.
    ///
    /// A query error ends the poll at once with a transport error classified
    /// by the generic rules; it is never retried here. Observing `Failed`
    /// when `Failed` is not the desired status ends the poll with a
    /// non-retryable operation failure, and this check precedes the equality
    /// check. Observing the desired status ends the poll successfully.
    /// Anything else counts the attempt and continues.
    pub fn on_outcome(&mut self, outcome: &QueryOutcome) -> (v: StepVerdict)
        requires
            old(self).attempts < u64::MAX,
        ensures
            final(self).desired == old(self).desired,
            final(self).timeout_ms == old(self).timeout_ms,
            final(self).interval_ms == old(self).interval_ms,
            (match *outcome {
                QueryOutcome::Errored(e) => {
                    &&& v == StepVerdict::Done(Result::<Status, PollError>::Err(
                        PollError::Transport { retryable: generic_retryable(e) },
                    ))
                    &&& final(self).attempts == old(self).attempts
                },
                QueryOutcome::Observed(s) => {
                    if old(self).desired != Status::Failed && s == Status::Failed {
                        &&& v == StepVerdict::Done(Result::<Status, PollError>::Err(
                            PollError::OperationFailed,
                        ))
                        &&& final(self).attempts == old(self).attempts
                    } else if s == old(self).desired {
                        &&& v == StepVerdict::Done(Result::<Status, PollError>::Ok(s))
                        &&& final(self).attempts == old(self).attempts
                    } else {
                        &&& v == StepVerdict::Continue
                        &&& final(self).attempts == old(self).attempts + 1
                    }
                },
            }),
    {
        match *outcome {
            QueryOutcome::Errored(e) => {
                StepVerdict::Done(Err(PollError::Transport { retryable: is_err_retryable(&e) }))
            },
            QueryOutcome::Observed(s) => {
                if self.desired != Status::Failed && s == Status::Failed {
                    StepVerdict::Done(Err(PollError::OperationFailed))
                } else if s == self.desired {
                    StepVerdict::Done(Ok(s))
                } else {
                    self.attempts = self.attempts + 1;
                    StepVerdict::Continue
                }
            },
        }
    }
}

/// Runs one whole poll invocation over a given sequence of query outcomes,
/// on the idealized clock: iteration `k` checks the budget at
/// `elapsed_at_check(k)`, waits the warm-up delay (first attempt) or the
/// configured interval, and evaluates `outcomes[k]`.
///
/// The result and the number of queries issued are pinned exactly by
/// [`result_spec`] and [`queries_spec`].
#[verifier::loop_isolation(false)]
pub fn run_poll(
    desired: Status,
    timeout_ms: u64,
    interval_ms: u64,
    outcomes: &Vec<QueryOutcome>,
) -> (r: PollRun)
    requires
        timeout_ms + WARMUP_DELAY_MS + interval_ms <= u64::MAX,
    ensures
        (match result_spec(desired, timeout_ms as int, interval_ms as int, outcomes@, 0) {
            Some(res) => r matches PollRun::Finished { result, queries }
                && result == res
                && queries == queries_spec(desired, timeout_ms as int, interval_ms as int, outcomes@, 0),
            None => r matches PollRun::TraceEnded { queries }
                && queries == outcomes@.len(),
        }),
{
    let ghost t = timeout_ms as int;
    let ghost iv = interval_ms as int;
    let mut st = PollState::new(desired, timeout_ms, interval_ms);
    let mut elapsed_ms: u64 = 0;
    let mut k: usize = 0;
    loop
        invariant
            st.desired == desired,
            st.timeout_ms == timeout_ms,
            st.interval_ms == interval_ms,
            st.attempts as int == k as int,
            k <= outcomes@.len(),
            elapsed_ms as int == elapsed_at_check(k as int, iv),
            elapsed_ms <= timeout_ms + WARMUP_DELAY_MS + interval_ms,
            result_spec(desired, t, iv, outcomes@, 0)
                == result_spec(desired, t, iv, outcomes@, k as int),
            queries_spec(desired, t, iv, outcomes@, 0)
                == k + queries_spec(desired, t, iv, outcomes@, k as int),
        decreases outcomes@.len() - k,
    {
        if st.should_give_up(elapsed_ms) {
            return PollRun::Finished { result: Err(PollError::PollTimeout), queries: k };
        }
        if k >= outcomes.len() {
            return PollRun::TraceEnded { queries: k };
        }
        let wait = st.wait_before_query();
        elapsed_ms = elapsed_ms + wait;
        let outcome = outcomes[k];
        match st.on_outcome(&outcome) {
            StepVerdict::Done(result) => {
                return PollRun::Finished { result, queries: k + 1 };
            },
            StepVerdict::Continue => {
                k = k + 1;
            },
        }
    }
}

/// With a positive interval, the idealized clock at the top of iteration `k`
/// has advanced by at least one millisecond per earlier iteration.
proof fn lemma_elapsed_lower_bound(k: int, interval_ms: int)
    requires
        1 <= interval_ms,
    ensures
        elapsed_at_check(k, interval_ms) >= k,
    decreases k,
{
    if k > 0 {
        lemma_elapsed_lower_bound(k - 1, interval_ms);
    }
}

/// While every outcome before iteration `n` continues the poll and the time
/// budget is not yet exceeded at any check up to `n`, the poll's result and
/// remaining query count from iteration `k` are those from iteration `n`,
/// with one query issued per iteration in between.
proof fn lemma_prefix_continues(
    desired: Status,
    timeout_ms: int,
    interval_ms: int,
    outcomes: Seq<QueryOutcome>,
    k: int,
    n: int,
)
    requires
        0 <= k <= n <= outcomes.len(),
        forall|i: int| k <= i < n ==> is_nonterminal(#[trigger] outcomes[i], desired),
        forall|i: int| k <= i < n ==> elapsed_at_check(i, interval_ms) <= timeout_ms,
    ensures
        result_spec(desired, timeout_ms, interval_ms, outcomes, k)
            == result_spec(desired, timeout_ms, interval_ms, outcomes, n),
        queries_spec(desired, timeout_ms, interval_ms, outcomes, k)
            == (n - k) + queries_spec(desired, timeout_ms, interval_ms, outcomes, n),
    decreases n - k,
{
    if k < n {
        lemma_prefix_continues(desired, timeout_ms, interval_ms, outcomes, k + 1, n);
    }
}

/// A remote operation that only ever reports statuses that neither match the
/// desired status nor are `Failed` makes the poll time out: with a positive
/// interval and at least `timeout_ms + 1` outcomes available, the result is
/// `PollTimeout`, reached once the idealized clock exceeds the budget.
pub proof fn lemma_nonterminal_times_out(
    desired: Status,
    timeout_ms: int,
    interval_ms: int,
    outcomes: Seq<QueryOutcome>,
    k: int,
)
    requires
        0 <= k,
        1 <= interval_ms,
        timeout_ms < outcomes.len(),
        forall|i: int| k <= i < outcomes.len() ==> is_nonterminal(#[trigger] outcomes[i], desired),
    ensures
        result_spec(desired, timeout_ms, interval_ms, outcomes, k)
            == Some(Result::<Status, PollError>::Err(PollError::PollTimeout)),
    decreases outcomes.len() - k,
{
    lemma_elapsed_lower_bound(k, interval_ms);
    if elapsed_at_check(k, interval_ms) > timeout_ms {
    } else {
        lemma_nonterminal_times_out(desired, timeout_ms, interval_ms, outcomes, k + 1);
    }
}

/// The wait before the very first query is always the fixed warm-up delay,
/// whatever the configured interval; so on the idealized clock the first
/// query happens exactly one warm-up delay after the start.
pub proof fn lemma_first_query_at_warmup(interval_ms: int)
    ensures
        wait_ms_spec(0, interval_ms) == WARMUP_DELAY_MS,
        elapsed_at_check(1, interval_ms) == WARMUP_DELAY_MS,
{
    assert(elapsed_at_check(0, interval_ms) == 0);
}

/// If the query of iteration `n` observes the desired status, and every
/// earlier outcome continued the poll within the time budget, the poll
/// succeeds with the desired status and issues exactly `n + 1` queries —
/// whatever the outcomes after `n` would have been.
pub proof fn lemma_success_at_n(
    desired: Status,
    timeout_ms: int,
    interval_ms: int,
    outcomes: Seq<QueryOutcome>,
    n: int,
)
    requires
        0 <= n < outcomes.len(),
        forall|i: int| 0 <= i < n ==> is_nonterminal(#[trigger] outcomes[i], desired),
        forall|i: int| 0 <= i <= n ==> elapsed_at_check(i, interval_ms) <= timeout_ms,
        outcomes[n] == QueryOutcome::Observed(desired),
    ensures
        result_spec(desired, timeout_ms, interval_ms, outcomes, 0)
            == Some(Result::<Status, PollError>::Ok(desired)),
        queries_spec(desired, timeout_ms, interval_ms, outcomes, 0) == n + 1,
{
    lemma_prefix_continues(desired, timeout_ms, interval_ms, outcomes, 0, n);
}

/// If the desired status is not `Failed` and the query of iteration `n`
/// observes `Failed`, the poll ends at once with the non-retryable
/// `OperationFailed` and issues exactly `n + 1` queries — even if later
/// outcomes would have reported the desired status.
pub proof fn lemma_failed_short_circuit(
    desired: Status,
    timeout_ms: int,
    interval_ms: int,
    outcomes: Seq<QueryOutcome>,
    n: int,
)
    requires
        desired != Status::Failed,
        0 <= n < outcomes.len(),
        forall|i: int| 0 <= i < n ==> is_nonterminal(#[trigger] outcomes[i], desired),
        forall|i: int| 0 <= i <= n ==> elapsed_at_check(i, interval_ms) <= timeout_ms,
        outcomes[n] == QueryOutcome::Observed(Status::Failed),
    ensures
        result_spec(desired, timeout_ms, interval_ms, outcomes, 0)
            == Some(Result::<Status, PollError>::Err(PollError::OperationFailed)),
        queries_spec(desired, timeout_ms, interval_ms, outcomes, 0) == n + 1,
{
    lemma_prefix_continues(desired, timeout_ms, interval_ms, outcomes, 0, n);
}

/// When `Failed` itself is the desired status, observing `Failed` is
/// success, not an operation failure: the failure short-circuit does not
/// fire when `Failed` is the target.
pub proof fn lemma_failed_desired_succeeds(
    timeout_ms: int,
    interval_ms: int,
    outcomes: Seq<QueryOutcome>,
    n: int,
)
    requires
        0 <= n < outcomes.len(),
        forall|i: int| 0 <= i < n ==> is_nonterminal(#[trigger] outcomes[i], Status::Failed),
        forall|i: int| 0 <= i <= n ==> elapsed_at_check(i, interval_ms) <= timeout_ms,
        outcomes[n] == QueryOutcome::Observed(Status::Failed),
    ensures
        result_spec(Status::Failed, timeout_ms, interval_ms, outcomes, 0)
            == Some(Result::<Status, PollError>::Ok(Status::Failed)),
        queries_spec(Status::Failed, timeout_ms, interval_ms, outcomes, 0) == n + 1,
{
    lemma_success_at_n(Status::Failed, timeout_ms, interval_ms, outcomes, n);
}

} // verus!
