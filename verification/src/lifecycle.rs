//! The order in which "around" advice runs its parts, as a state machine.
//!
//! Asynchronous advice cannot run inside the verified library, so its driver
//! asks this machine what to do next, performs that step, and reports back.

use vstd::prelude::*;

verus! {

/// One step of the around-advice lifecycle.
#[derive(Clone, Copy, Debug, PartialEq, Eq, Structural)]
pub enum AroundStep {
    /// Run the `before` advice.
    Before,
    /// Run the advised function.
    Proceed,
    /// Run the `after` advice (the advised function succeeded).
    After,
    /// Run the `after_error` advice (the advised function failed).
    AfterError,
    /// Return the advised function's result.
    Return,
}

/// How far the around advice has come.
#[derive(Clone, Copy, Debug, PartialEq, Eq, Structural)]
pub enum AroundPhase {
    /// Nothing has run yet.
    Start,
    /// `before` has run.
    Advised,
    /// The advised function has run; `ok` says whether it succeeded.
    Ran { ok: bool },
    /// The closing advice has run; only returning is left.
    Finished { ok: bool },
}

/// The step to perform in `phase`.
pub open spec fn spec_step(phase: AroundPhase) -> AroundStep {
    match phase {
        AroundPhase::Start => AroundStep::Before,
        AroundPhase::Advised => AroundStep::Proceed,
        AroundPhase::Ran { ok } => if ok { AroundStep::After } else { AroundStep::AfterError },
        AroundPhase::Finished { .. } => AroundStep::Return,
    }
}

/// The phase after performing the step of `phase`; `ok` is the outcome of the
/// advised function, read only when that step ran it.
pub open spec fn spec_advance(phase: AroundPhase, ok: bool) -> AroundPhase {
    match phase {
        AroundPhase::Start => AroundPhase::Advised,
        AroundPhase::Advised => AroundPhase::Ran { ok },
        AroundPhase::Ran { ok: o } => AroundPhase::Finished { ok: o },
        AroundPhase::Finished { ok: o } => AroundPhase::Finished { ok: o },
    }
}

/// The steps performed in `n` rounds from `phase` when the advised function's
/// outcome is `ok`.
pub open spec fn steps_from(phase: AroundPhase, ok: bool, n: nat) -> Seq<AroundStep>
    decreases n,
{
    if n == 0 {
        seq![]
    } else {
        seq![spec_step(phase)] + steps_from(spec_advance(phase, ok), ok, (n - 1) as nat)
    }
}

impl AroundPhase {
    /// The phase before anything has run.
    pub fn start() -> (p: Self)
        ensures
            p == AroundPhase::Start,
    {
        AroundPhase::Start
    }

    /// The step to perform now.
    pub fn step(&self) -> (s: AroundStep)
        ensures
            s == spec_step(*self),
    {
        match self {
            AroundPhase::Start => AroundStep::Before,
            AroundPhase::Advised => AroundStep::Proceed,
            AroundPhase::Ran { ok } => if *ok {
                AroundStep::After
            } else {
                AroundStep::AfterError
            },
            AroundPhase::Finished { .. } => AroundStep::Return,
        }
    }

    /// The phase after the current step has been performed; `ok` is the outcome
    /// of the advised function when the current step ran it.
    pub fn advance(&self, ok: bool) -> (p: Self)
        ensures
            p == spec_advance(*self, ok),
    {
        match self {
            AroundPhase::Start => AroundPhase::Advised,
            AroundPhase::Advised => AroundPhase::Ran { ok },
            AroundPhase::Ran { ok: o } => AroundPhase::Finished { ok: *o },
            AroundPhase::Finished { ok: o } => AroundPhase::Finished { ok: *o },
        }
    }
}

/// Around advice runs `before`, then the advised function once, then `after`
/// when it succeeded or `after_error` when it failed, and then returns; once
/// it has returned it does nothing more.
pub proof fn around_lifecycle(ok: bool, extra: nat)
    ensures
        steps_from(AroundPhase::Start, ok, 4) == seq![
            AroundStep::Before,
            AroundStep::Proceed,
            if ok { AroundStep::After } else { AroundStep::AfterError },
            AroundStep::Return,
        ],
        spec_step(
            spec_advance(spec_advance(spec_advance(AroundPhase::Start, ok), ok), ok),
        ) == AroundStep::Return,
        steps_from(AroundPhase::Finished { ok }, ok, extra) == Seq::new(extra, |i: int| AroundStep::Return),
    decreases extra,
{
    reveal_with_fuel(steps_from, 5);
    assert(steps_from(AroundPhase::Start, ok, 4) =~= seq![
        AroundStep::Before,
        AroundStep::Proceed,
        if ok { AroundStep::After } else { AroundStep::AfterError },
        AroundStep::Return,
    ]);
    if extra > 0 {
        around_lifecycle(ok, (extra - 1) as nat);
        assert(steps_from(AroundPhase::Finished { ok }, ok, extra) =~= Seq::new(extra, |i: int| AroundStep::Return));
    }
}

} // verus!
