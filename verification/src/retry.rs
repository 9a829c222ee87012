//! Bounded retry: an operation that may fail is attempted again at once, up to
//! a fixed number of attempts, and its last failure is handed on as fatal once
//! that number is used up.

use vstd::prelude::*;

verus! {

/// What follows an attempt.
#[derive(Debug, PartialEq, Eq)]
pub enum Verdict<T, E> {
    /// The attempt succeeded, with this value.
    Done(T),
    /// The attempt failed and another one is due.
    Again,
    /// The attempt failed and was the last one allowed; this is its failure.
    GiveUp(E),
}

/// The failure of a bounded run: which operation it was a run of, how many
/// attempts were made, and what the last of them failed with.
#[derive(Debug, PartialEq, Eq)]
pub struct Fatal<O, E> {
    pub operation: O,
    pub attempts: u64,
    pub cause: E,
}

/// The verdict on attempt number `attempt` (the first is 1) of a run bounded by
/// `retries`, given what the attempt returned.
pub open spec fn verdict<T, E>(attempt: u64, retries: u64, outcome: Result<T, E>) -> Verdict<T, E> {
    match outcome {
        Ok(value) => Verdict::Done(value),
        Err(cause) => if attempt < retries {
            Verdict::Again
        } else {
            Verdict::GiveUp(cause)
        },
    }
}

/// The verdict on an attempt that returned an `Option`: `None` is the failure.
pub open spec fn verdict_optional<T>(attempt: u64, retries: u64, outcome: Option<T>) -> Verdict<T, ()> {
    match outcome {
        Some(value) => Verdict::Done(value),
        None => if attempt < retries {
            Verdict::Again
        } else {
            Verdict::GiveUp(())
        },
    }
}

/// Decides what follows attempt number `attempt` of an operation that returned
/// `outcome`, when at most `retries` attempts are allowed. A success ends the
/// run; a failure calls for another attempt while `attempt < retries`, and
/// ends the run otherwise. The first attempt is always made, so a bound of 0
/// acts as a bound of 1.
pub fn retry<T, E>(attempt: u64, retries: u64, outcome: Result<T, E>) -> (v: Verdict<T, E>)
    ensures
        v == verdict(attempt, retries, outcome),
{
    match outcome {
        Ok(value) => Verdict::Done(value),
        Err(cause) => {
            if attempt < retries {
                Verdict::Again
            } else {
                Verdict::GiveUp(cause)
            }
        },
    }
}

/// As [`retry`], for an operation that returns an `Option`.
pub fn retry_optional<T>(attempt: u64, retries: u64, outcome: Option<T>) -> (v: Verdict<T, ()>)
    ensures
        v == verdict_optional(attempt, retries, outcome),
{
    match outcome {
        Some(value) => Verdict::Done(value),
        None => {
            if attempt < retries {
                Verdict::Again
            } else {
                Verdict::GiveUp(())
            }
        },
    }
}

/// The number of attempts that a bound allows: the first attempt is always
/// made.
pub open spec fn limit(bound: u64) -> u64 {
    if bound == 0 {
        1
    } else {
        bound
    }
}

/// Whether `script`, read as what the attempts of one run returned in order,
/// is a complete run under `bound`: it holds no more attempts than the bound
/// allows, every attempt but the last failed, and the last either succeeded
/// or used the bound up.
pub open spec fn is_run<T, E>(bound: u64, script: Seq<Result<T, E>>) -> bool {
    &&& 1 <= script.len() <= limit(bound)
    &&& forall|i: int| 0 <= i < script.len() - 1 ==> (#[trigger] script[i]) is Err
    &&& (script.last() is Ok || script.len() == limit(bound))
}

/// What a complete run of `operation` returns: the value of its last
/// attempt, or that attempt's failure together with the operation and the
/// number of attempts.
pub open spec fn conclusion<O, T, E>(operation: O, script: Seq<Result<T, E>>) -> Result<T, Fatal<O, E>> {
    match script.last() {
        Ok(value) => Ok(value),
        Err(cause) => Err((Fatal { operation, attempts: script.len() as u64, cause })),
    }
}

/// Whether each entry of `script` is something that `attempt` may return.
pub open spec fn possible<T, E, F: Fn() -> Result<T, E>>(attempt: F, script: Seq<Result<T, E>>) -> bool {
    forall|i: int| 0 <= i < script.len() ==> call_ensures(attempt, (), #[trigger] script[i])
}

/// Calls `attempt` until it succeeds or `bound` calls have failed, with no
/// pause between them. The calls made form a complete run under `bound`, each
/// entry being something that `attempt` may return, and the result is that
/// run's conclusion: a failure names `operation`, which is what the caller
/// calls the work that `attempt` does.
pub fn with_retry<O, T, E, F: Fn() -> Result<T, E>>(operation: O, bound: u64, attempt: F) -> (r: Result<
    T,
    Fatal<O, E>,
>)
    requires
        call_requires(attempt, ()),
    ensures
        exists|script: Seq<Result<T, E>>|
            (is_run(bound, script) && possible(attempt, script) && r == conclusion(operation, script)),
{
    let mut made: u64 = 0;
    let ghost mut script: Seq<Result<T, E>> = Seq::empty();
    loop
        invariant
            call_requires(attempt, ()),
            made == script.len(),
            made < limit(bound),
            forall|i: int| 0 <= i < script.len() ==> (#[trigger] script[i]) is Err,
            forall|i: int| 0 <= i < script.len() ==> call_ensures(attempt, (), #[trigger] script[i]),
        decreases limit(bound) - made,
    {
        made = made + 1;
        let outcome = attempt();
        proof {
            script = script.push(outcome);
        }
        match retry(made, bound, outcome) {
            Verdict::Done(value) => {
                let r = Ok(value);
                assert(is_run(bound, script) && possible(attempt, script) && r == conclusion(operation, script));
                return r;
            },
            Verdict::Again => {},
            Verdict::GiveUp(cause) => {
                let r = Err(Fatal { operation, attempts: made, cause });
                assert(is_run(bound, script) && possible(attempt, script) && r == conclusion(operation, script));
                return r;
            },
        }
    }
}

/// A script whose first `failures` attempts fail and whose next one succeeds
/// is, cut after that success, a complete run whenever the bound allows more
/// than `failures` attempts: the run returns the success value after
/// `failures + 1` attempts, and no other cut of the script is a complete run.
pub proof fn lemma_success_after_failures<O, T, E>(
    operation: O,
    bound: u64,
    script: Seq<Result<T, E>>,
    failures: int,
)
    requires
        0 <= failures < limit(bound),
        failures < script.len(),
        forall|i: int| 0 <= i < failures ==> (#[trigger] script[i]) is Err,
        script[failures] is Ok,
    ensures
        is_run(bound, script.take(failures + 1)),
        conclusion(operation, script.take(failures + 1)) == Ok::<T, Fatal<O, E>>(script[failures]->Ok_0),
        forall|n: int| 0 <= n <= script.len() && is_run(bound, #[trigger] script.take(n)) ==> n == failures + 1,
{
    let run = script.take(failures + 1);
    assert(run.last() == script[failures]);
    assert forall|n: int| 0 <= n <= script.len() && is_run(bound, #[trigger] script.take(n)) implies n
        == failures + 1 by {
        let cut = script.take(n);
        if n > failures + 1 {
            assert(cut[failures] is Err);
        } else if 1 <= n < failures + 1 {
            assert(cut.last() == script[n - 1]);
        }
    }
}

/// A script in which every attempt fails is, cut after as many attempts as
/// the bound allows, a complete run: the run makes exactly `bound` attempts
/// (one where the bound is 0) and is fatal with the failure of the last of
/// them, and no other cut of the script is a complete run.
pub proof fn lemma_fatal_after_bound<O, T, E>(operation: O, bound: u64, script: Seq<Result<T, E>>)
    requires
        limit(bound) <= script.len(),
        forall|i: int| 0 <= i < script.len() ==> (#[trigger] script[i]) is Err,
    ensures
        is_run(bound, script.take(limit(bound) as int)),
        conclusion(operation, script.take(limit(bound) as int)) == Err::<T, Fatal<O, E>>(
            (Fatal { operation, attempts: limit(bound), cause: script[limit(bound) - 1]->Err_0 }),
        ),
        bound >= 1 ==> limit(bound) == bound,
        forall|n: int| 0 <= n <= script.len() && is_run(bound, #[trigger] script.take(n)) ==> n == limit(bound),
{
    let run = script.take(limit(bound) as int);
    assert(run.last() == script[limit(bound) - 1]);
    assert forall|n: int| 0 <= n <= script.len() && is_run(bound, #[trigger] script.take(n)) implies n
        == limit(bound) by {
        let cut = script.take(n);
        if 1 <= n < limit(bound) {
            assert(cut.last() == script[n - 1]);
        }
    }
}

} // verus!
