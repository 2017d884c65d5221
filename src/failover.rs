use vstd::prelude::*;
use vstd::string::*;
use crate::types::TranscriptionError;

verus! {

/// Detail of the error returned when the key pool is empty.
pub const ALL_KEYS_FAILED: &'static str = "All API keys failed";

/// What one call with one key gave.
#[derive(Debug)]
pub enum Attempt {
    Success,
    Failed(TranscriptionError),
}

/// What the caller does next.
#[derive(Debug)]
pub enum FailoverAction {
    /// Call the backend with the key at this position of the pool.
    CallKey(usize),
    /// The key at this position answered; its response is the result.
    Succeeded(usize),
    /// No key answered; this is the error to surface.
    Failed(TranscriptionError),
}

pub open spec fn is_rate_limited(a: Attempt) -> bool {
    a matches Attempt::Failed(TranscriptionError::RateLimitReached)
}

/// Every key tried so far reported a rate limit.
pub open spec fn all_rate_limited(h: Seq<Attempt>) -> bool {
    forall|j: int| 0 <= j < h.len() ==> is_rate_limited(#[trigger] h[j])
}

/// The verdict over the outcomes of the keys from position `i` on, keys being
/// tried in order: the first success wins, the first error other than a rate
/// limit stops the run, and when every key was rate limited that is the error.
pub open spec fn verdict_from(o: Seq<Attempt>, i: int) -> FailoverAction
    decreases o.len() - i,
{
    if i < 0 || i >= o.len() {
        FailoverAction::Failed(TranscriptionError::RateLimitReached)
    } else {
        match o[i] {
            Attempt::Success => FailoverAction::Succeeded(i as usize),
            Attempt::Failed(e) => if e is RateLimitReached {
                verdict_from(o, i + 1)
            } else {
                FailoverAction::Failed(e)
            },
        }
    }
}

/// How many keys are called, from position `i` on.
pub open spec fn calls_from(o: Seq<Attempt>, i: int) -> nat
    decreases o.len() - i,
{
    if i < 0 || i >= o.len() {
        0
    } else if is_rate_limited(o[i]) {
        1 + calls_from(o, i + 1)
    } else {
        1
    }
}

/// How many keys of the pool are called when they give the outcomes `o`, in order.
pub open spec fn keys_called(o: Seq<Attempt>) -> nat {
    calls_from(o, 0)
}

/// `a` is the final answer for a pool whose keys give the outcomes `o`.
pub open spec fn is_verdict(a: FailoverAction, o: Seq<Attempt>) -> bool {
    if o.len() == 0 {
        a matches FailoverAction::Failed(TranscriptionError::ApiError(d)) && d@ == ALL_KEYS_FAILED@
    } else {
        a == verdict_from(o, 0)
    }
}

/// The action owed once the first keys of a pool of `n` gave the outcomes `h`:
/// the next key while all of them were rate limited and keys are left,
/// else the verdict over `h`.
pub open spec fn is_action_after(a: FailoverAction, h: Seq<Attempt>, n: nat) -> bool {
    if all_rate_limited(h) && h.len() < n {
        a == FailoverAction::CallKey(h.len() as usize)
    } else {
        is_verdict(a, h)
    }
}

/// One run over an ordered key pool: the caller asks which key to call,
/// performs the call, and reports what it gave.
pub struct FailoverRun {
    n_keys: usize,
    tried: usize,
    stopped: bool,
    history: Ghost<Seq<Attempt>>,
}

/// Past a run of rate-limited keys, the verdict is decided by the first key
/// that was not rate limited.
pub proof fn lemma_verdict_at_first_stop(o: Seq<Attempt>, i: int, k: int)
    requires
        0 <= i <= k < o.len(),
        forall|j: int| i <= j < k ==> is_rate_limited(#[trigger] o[j]),
        !is_rate_limited(o[k]),
    ensures
        o[k] is Success ==> verdict_from(o, i) == FailoverAction::Succeeded(k as usize),
        o[k] matches Attempt::Failed(e) ==> verdict_from(o, i) == FailoverAction::Failed(e),
        calls_from(o, i) == k - i + 1,
    decreases k - i,
{
    if i < k {
        assert(is_rate_limited(o[i]));
        lemma_verdict_at_first_stop(o, i + 1, k);
    }
}

/// When every key from `i` on was rate limited, that is the verdict.
pub proof fn lemma_verdict_all_rate_limited(o: Seq<Attempt>, i: int)
    requires
        0 <= i,
        forall|j: int| i <= j < o.len() ==> is_rate_limited(#[trigger] o[j]),
    ensures
        verdict_from(o, i) == FailoverAction::Failed(TranscriptionError::RateLimitReached),
        calls_from(o, i) == if i < o.len() { o.len() - i } else { 0 },
    decreases o.len() - i,
{
    if i < o.len() {
        assert(is_rate_limited(o[i]));
        lemma_verdict_all_rate_limited(o, i + 1);
    }
}

/// Failover ordering: in a pool of three keys where the first reports a rate
/// limit and the second succeeds, the run asks for the second key after the
/// first, takes the second key's response, and never asks for the third.
pub proof fn lemma_failover_ordering(o: Seq<Attempt>)
    requires
        o.len() == 3,
        is_rate_limited(o[0]),
        o[1] is Success,
    ensures
        is_action_after(FailoverAction::CallKey(1), o.take(1), 3),
        is_action_after(FailoverAction::Succeeded(1), o.take(2), 3),
        is_verdict(FailoverAction::Succeeded(1), o),
        keys_called(o) == 2,
{
    let h1 = o.take(1);
    let h2 = o.take(2);
    assert(h1[0] == o[0]);
    assert(all_rate_limited(h1));
    assert(h2[0] == o[0] && h2[1] == o[1]);
    assert(!all_rate_limited(h2)) by {
        assert(!is_rate_limited(h2[1]));
    };
    assert(!is_rate_limited(o[1]));
    lemma_verdict_at_first_stop(h2, 0, 1);
    lemma_verdict_at_first_stop(o, 0, 1);
}

/// Failover short-circuit: when the first key of a pool of three fails with
/// an error other than a rate limit, the run stops there and surfaces that error.
pub proof fn lemma_failover_stops_on_other_error(o: Seq<Attempt>, e: TranscriptionError)
    requires
        o.len() == 3,
        o[0] == Attempt::Failed(e),
        !(e is RateLimitReached),
    ensures
        is_action_after(FailoverAction::Failed(e), o.take(1), 3),
        is_verdict(FailoverAction::Failed(e), o),
        keys_called(o) == 1,
{
    let h1 = o.take(1);
    assert(h1[0] == o[0]);
    assert(!is_rate_limited(h1[0]));
    assert(!all_rate_limited(h1));
    lemma_verdict_at_first_stop(h1, 0, 0);
    lemma_verdict_at_first_stop(o, 0, 0);
}

/// Rate-limit exhaustion: when every key of a non-empty pool reports a rate
/// limit, all of them are called and the verdict is the rate-limit error,
/// the one failure that defers the request instead of answering it.
pub proof fn lemma_exhausted_pool_reports_rate_limit(o: Seq<Attempt>)
    requires
        o.len() > 0,
        all_rate_limited(o),
    ensures
        is_verdict(FailoverAction::Failed(TranscriptionError::RateLimitReached), o),
        keys_called(o) == o.len(),
{
    lemma_verdict_all_rate_limited(o, 0);
}

impl FailoverRun {
    /// The outcomes reported so far, in the order of the keys.
    pub closed spec fn outcomes(&self) -> Seq<Attempt> {
        self.history@
    }

    pub closed spec fn pool_size(&self) -> nat {
        self.n_keys as nat
    }

    /// The run waits for the outcome of a call.
    pub open spec fn awaiting(&self) -> bool {
        all_rate_limited(self.outcomes()) && self.outcomes().len() < self.pool_size()
    }

    pub closed spec fn wf(&self) -> bool {
        &&& self.tried as nat == self.history@.len()
        &&& self.tried <= self.n_keys
        &&& self.stopped == !(all_rate_limited(self.history@) && self.tried < self.n_keys)
    }

    /// Starts a run over a pool of `n_keys` keys, with the first action.
    pub fn begin(n_keys: usize) -> (r: (FailoverRun, FailoverAction))
        ensures
            r.0.wf(),
            r.0.pool_size() == n_keys,
            r.0.outcomes() == Seq::<Attempt>::empty(),
            is_action_after(r.1, r.0.outcomes(), n_keys as nat),
    {
        let run = FailoverRun { n_keys, tried: 0, stopped: n_keys == 0, history: Ghost(Seq::empty()) };
        if n_keys == 0 {
            let d = String::from_str(ALL_KEYS_FAILED);
            (run, FailoverAction::Failed(TranscriptionError::ApiError(d)))
        } else {
            (run, FailoverAction::CallKey(0))
        }
    }

    /// Records what the key last asked for gave, and returns the next action.
    pub fn record(&mut self, outcome: Attempt) -> (r: FailoverAction)
        requires
            old(self).wf(),
            old(self).awaiting(),
        ensures
            final(self).wf(),
            final(self).pool_size() == old(self).pool_size(),
            final(self).outcomes() == old(self).outcomes().push(outcome),
            is_action_after(r, final(self).outcomes(), final(self).pool_size()),
            outcome is Success ==> r == FailoverAction::Succeeded(old(self).outcomes().len() as usize),
            (outcome is Failed && !is_rate_limited(outcome)) ==> r == FailoverAction::Failed(outcome->Failed_0),
            (is_rate_limited(outcome) && final(self).outcomes().len() < final(self).pool_size())
                ==> r == FailoverAction::CallKey(final(self).outcomes().len() as usize),
            (is_rate_limited(outcome) && final(self).outcomes().len() == final(self).pool_size())
                ==> r == FailoverAction::Failed(TranscriptionError::RateLimitReached),
    {
        let ghost h0 = self.history@;
        let ghost h = h0.push(outcome);
        proof {
            self.history = Ghost(h);
        }
        let index = self.tried;
        self.tried = self.tried + 1;
        match outcome {
            Attempt::Success => {
                self.stopped = true;
                proof {
                    assert(!is_rate_limited(h[index as int]));
                    lemma_verdict_at_first_stop(h, 0, index as int);
                }
                FailoverAction::Succeeded(index)
            },
            Attempt::Failed(e) => {
                if e.is_rate_limit() {
                    assert(all_rate_limited(h));
                    if self.tried < self.n_keys {
                        FailoverAction::CallKey(self.tried)
                    } else {
                        self.stopped = true;
                        proof {
                            lemma_verdict_all_rate_limited(h, 0);
                        }
                        FailoverAction::Failed(TranscriptionError::RateLimitReached)
                    }
                } else {
                    self.stopped = true;
                    proof {
                        assert(!is_rate_limited(h[index as int]));
                        lemma_verdict_at_first_stop(h, 0, index as int);
                    }
                    FailoverAction::Failed(e)
                }
            },
        }
    }
}

} // verus!
