//! The `Aspect` trait: advice that runs before, after and around a function.

use vstd::prelude::*;

use crate::error::AspectError;
use crate::joinpoint::{JoinPoint, ProceedingJoinPoint};

verus! {

/// The core trait for defining synchronous aspects.
///
/// `A` is the type in which the advised function's arguments are recorded and
/// `R` the type in which its successful result is handed to the advice.
pub trait Aspect<A, R>: Send + Sync {
    /// Advice executed before the target function runs.
    fn before(&self, ctx: &JoinPoint<A>) {
    }

    /// Advice executed after the target function completes successfully.
    fn after(&self, ctx: &JoinPoint<A>, result: &R) {
    }

    /// Advice executed when the target function encounters an error.
    fn after_error(&self, ctx: &JoinPoint<A>, error: &AspectError) {
    }

    /// Advice that wraps the entire target function execution.
    ///
    /// The provided implementation runs `before`, then the target function
    /// once, then `after` on success or `after_error` on failure, and returns
    /// the target function's result unchanged. Its contract states only the
    /// last of these: the advice returns nothing that a contract could speak
    /// of, so the order of the calls is what the code does, not what is proved.
    fn around<F: FnOnce() -> Result<R, AspectError>>(
        &self,
        pjp: ProceedingJoinPoint<F, A>,
    ) -> (r: Result<R, AspectError>)
        requires
            call_requires(pjp.target(), ()),
        default_ensures
            call_ensures(pjp.target(), (), r),
    {
        let (ctx, proceed) = pjp.into_parts();
        self.before(&ctx);
        let result = proceed();
        match &result {
            Ok(value) => self.after(&ctx, value),
            Err(error) => self.after_error(&ctx, error),
        }
        result
    }
}

/// The provided `around` and `proceed` agree: both return a result that the
/// target function can give, so when every call of the target gives the same
/// result, around advice that overrides nothing returns exactly what
/// `proceed` returns.
pub proof fn default_around_agrees_with_proceed<F: FnOnce() -> Result<R, AspectError>, R>(
    target: F,
    from_around: Result<R, AspectError>,
    from_proceed: Result<R, AspectError>,
)
    requires
        call_ensures(target, (), from_around),
        call_ensures(target, (), from_proceed),
        forall|x: Result<R, AspectError>, y: Result<R, AspectError>|
            call_ensures(target, (), x) && call_ensures(target, (), y) ==> x == y,
    ensures
        from_around == from_proceed,
{
}

} // verus!
