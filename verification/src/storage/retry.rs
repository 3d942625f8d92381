//! How often storing is tried, and how long to wait in between.

use crate::error::{DomainError, DomainErrorView};
use vstd::prelude::*;

verus! {

/// How often storing is tried before it is given up.
pub const MAX_ATTEMPTS: u32 = 3;

/// What to do after an attempt.
#[derive(Debug)]
pub enum RetryStep {
    /// It went well.
    Done,
    /// Try again after so many milliseconds.
    Again { delay_millis: u64, retry: Retry },
    /// It failed for good, with the error.
    GiveUp(DomainError),
}

/// The attempts that failed so far, and the wait after the next one that does.
#[derive(Debug)]
pub struct Retry {
    failed: u32,
    delay_millis: u64,
}

impl View for Retry {
    type V = int;

    closed spec fn view(&self) -> int {
        self.failed as int
    }
}

/// The wait after the failure with the number, in milliseconds: it doubles from one
/// failure to the next.
pub open spec fn delay_after(failure: int) -> int
    decreases failure,
{
    if failure <= 1 {
        100
    } else {
        2 * delay_after(failure - 1)
    }
}

/// The model of `RetryStep`; the attempts to come are told by those that failed.
pub enum RetryStepView {
    Done,
    Again { delay_millis: int, failed: int },
    GiveUp(DomainErrorView),
}

impl View for RetryStep {
    type V = RetryStepView;

    open spec fn view(&self) -> RetryStepView {
        match *self {
            RetryStep::Done => RetryStepView::Done,
            RetryStep::Again { delay_millis, retry } => RetryStepView::Again {
                delay_millis: delay_millis as int,
                failed: retry@,
            },
            RetryStep::GiveUp(e) => RetryStepView::GiveUp(e@),
        }
    }
}

/// What to do after an attempt that turned out so, when `failed` attempts failed
/// before it.
pub open spec fn retry_step(failed: int, result: Result<(), DomainErrorView>) -> RetryStepView {
    match result {
        Ok(()) => RetryStepView::Done,
        Err(e) => if failed + 1 < MAX_ATTEMPTS {
            RetryStepView::Again { delay_millis: delay_after(failed + 1), failed: failed + 1 }
        } else {
            RetryStepView::GiveUp(e)
        },
    }
}

impl Retry {
    #[verifier::type_invariant]
    closed spec fn inv(self) -> bool {
        &&& self.failed < MAX_ATTEMPTS
        &&& self.delay_millis == delay_after(self.failed + 1)
    }

    /// No attempt has failed yet.
    pub fn new() -> (r: Retry)
        ensures
            r@ == 0,
    {
        Retry { failed: 0, delay_millis: 100 }
    }

    /// What to do after the next attempt.
    pub fn after_attempt(self, result: Result<(), DomainError>) -> (r: RetryStep)
        ensures
            0 <= self@ < MAX_ATTEMPTS,
            r@ == retry_step(
                self@,
                match result {
                    Ok(()) => Ok(()),
                    Err(e) => Err(e@),
                },
            ),
    {
        proof {
            use_type_invariant(&self);
            reveal_with_fuel(delay_after, 3);
        }
        let failed: u32 = self.failed;
        let delay_millis: u64 = self.delay_millis;
        match result {
            Ok(()) => RetryStep::Done,
            Err(e) => {
                if failed + 1 < MAX_ATTEMPTS {
                    let retry = Retry { failed: failed + 1, delay_millis: 2 * delay_millis };
                    RetryStep::Again { delay_millis, retry }
                } else {
                    RetryStep::GiveUp(e)
                }
            },
        }
    }
}

/// How many attempts are made, given how each would turn out and how many failed
/// before.
pub open spec fn attempts_made(results: Seq<Result<(), DomainErrorView>>, failed: int) -> nat
    decreases MAX_ATTEMPTS - failed,
{
    match retry_step(failed, results.first()) {
        RetryStepView::Again { failed: more, .. } => if more > failed {
            1 + attempts_made(results.drop_first(), more)
        } else {
            1
        },
        _ => 1,
    }
}

/// What comes of the attempts, given how each would turn out and how many failed
/// before.
pub open spec fn retry_result(results: Seq<Result<(), DomainErrorView>>, failed: int) -> Result<
    (),
    DomainErrorView,
>
    decreases MAX_ATTEMPTS - failed,
{
    match retry_step(failed, results.first()) {
        RetryStepView::Done => Ok(()),
        RetryStepView::Again { failed: more, .. } => if more > failed {
            retry_result(results.drop_first(), more)
        } else {
            Ok(())
        },
        RetryStepView::GiveUp(e) => Err(e),
    }
}

/// Storing is tried three times at most, succeeds exactly where one of these
/// attempts does, and otherwise fails as the third attempt did.
pub proof fn law_three_attempts_at_most(results: Seq<Result<(), DomainErrorView>>)
    requires
        results.len() >= MAX_ATTEMPTS,
    ensures
        attempts_made(results, 0) <= MAX_ATTEMPTS,
        retry_result(results, 0) is Ok <==> results[0] is Ok || results[1] is Ok || results[2] is Ok,
        retry_result(results, 0) is Err ==> retry_result(results, 0) == results[2],
        results[0] is Ok ==> attempts_made(results, 0) == 1,
{
    reveal_with_fuel(attempts_made, 4);
    reveal_with_fuel(retry_result, 4);
    assert(results.drop_first()[0] == results[1]);
    assert(results.drop_first().drop_first()[0] == results[2]);
}

/// The first wait is of 100 milliseconds, and each wait is twice as long as the one
/// before it.
pub proof fn law_delays_double(failed: int, first: DomainErrorView, second: DomainErrorView)
    requires
        failed >= 0,
    ensures
        retry_step(0, Err(first)) == (RetryStepView::Again { delay_millis: 100, failed: 1 }),
        retry_step(failed, Err(first)) matches RetryStepView::Again { delay_millis: d, failed: f }
            ==> (retry_step(f, Err(second)) matches RetryStepView::Again { delay_millis, .. }
            ==> delay_millis == 2 * d),
{
}

/// An attempt that goes well is the last; one that fails is followed by another, after
/// a wait, as long as fewer than three have failed, and the third failure is passed on
/// as it is.
pub proof fn law_what_comes_of_an_attempt(failed: int, error: DomainErrorView)
    requires
        0 <= failed < 3,
    ensures
        retry_step(failed, Ok::<(), DomainErrorView>(())) is Done,
        failed < 2 ==> (retry_step(failed, Err::<(), DomainErrorView>(error))
            matches RetryStepView::Again { delay_millis, failed: more } && more == failed + 1
            && delay_millis == (if failed == 0 {
            100int
        } else {
            200int
        })),
        failed == 2 ==> (retry_step(failed, Err::<(), DomainErrorView>(error))
            matches RetryStepView::GiveUp(told) && told == error),
{
    reveal_with_fuel(delay_after, 3);
}

/// The model of a step keeps which step it is, the wait, and the error.
pub proof fn law_models_keep_retries(step: RetryStep)
    ensures
        match step {
            RetryStep::Done => step@ is Done,
            RetryStep::Again { delay_millis, retry } => step@
                matches RetryStepView::Again { delay_millis: d, failed } && d == delay_millis
                && failed == retry@,
            RetryStep::GiveUp(e) => step@ matches RetryStepView::GiveUp(told) && told == e@,
        },
{
}

} // verus!
