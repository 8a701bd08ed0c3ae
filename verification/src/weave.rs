//! The decisions of the aspect attribute: whether an aspect may be applied to
//! a function, which wrapper is generated for it, and the names the wrapper uses.

use vstd::prelude::*;
use vstd::string::StringExecFns;

use crate::syntax::{
    collect_param_idents, params_idents, returns_impl_into_response, returns_impl_trait,
    returns_result, BoundShape, FnShape, TypeShape,
};
use crate::text::{decimal, decimal_injective, decimal_string};

verus! {

/// Information about the aspect to apply.
pub struct AspectInfo<E> {
    /// The expression that evaluates to the aspect instance
    pub aspect_expr: E,
    /// Whether the aspect type explicitly overrides `Aspect::around`.
    pub has_custom_sync_around: bool,
    /// Whether the aspect type explicitly overrides the asynchronous `around`.
    pub has_custom_async_around: bool,
}

/// Why an aspect cannot be applied to a function.
#[derive(Clone, Copy, Debug, PartialEq, Eq, Structural)]
pub enum UsageError {
    /// An asynchronous aspect applied to a function that is not `async`.
    AsyncAspectOnSyncFn,
    /// A synchronous aspect that overrides `around` applied to an `async` function.
    SyncAroundOnAsyncFn,
    /// An asynchronous aspect that overrides `around` applied to an `async`
    /// function that returns `impl Trait`.
    AsyncAroundOnImplTraitFn,
}

/// The message reported for a usage error.
pub open spec fn usage_message(e: UsageError) -> Seq<char> {
    match e {
        UsageError::AsyncAspectOnSyncFn =>
            "async aspects can only be applied to async fn; sync fn must use a type that implements Aspect"@,
        UsageError::SyncAroundOnAsyncFn =>
            "sync aspects that override around() cannot be applied to async fn; implement AsyncAspect or rely on before/after/after_error only"@,
        UsageError::AsyncAroundOnImplTraitFn =>
            "async aspects that override around() cannot be applied to async fn returning impl Trait; use a concrete return type or rely on before/after/after_error only"@,
    }
}

impl UsageError {
    /// The message reported for this error.
    pub fn message(&self) -> (m: &'static str)
        ensures
            m@ == usage_message(*self),
    {
        match self {
            UsageError::AsyncAspectOnSyncFn =>
                "async aspects can only be applied to async fn; sync fn must use a type that implements Aspect",
            UsageError::SyncAroundOnAsyncFn =>
                "sync aspects that override around() cannot be applied to async fn; implement AsyncAspect or rely on before/after/after_error only",
            UsageError::AsyncAroundOnImplTraitFn =>
                "async aspects that override around() cannot be applied to async fn returning impl Trait; use a concrete return type or rely on before/after/after_error only",
        }
    }
}

impl<E> AspectInfo<E> {
    /// Parse aspect information from the attribute syntax: no overrides of
    /// `around` are known yet.
    pub fn parse(aspect_expr: E) -> (r: Result<Self, UsageError>)
        ensures
            r matches Ok(info) && info.aspect_expr == aspect_expr && !info.has_custom_sync_around
                && !info.has_custom_async_around,
    {
        Ok(AspectInfo { aspect_expr, has_custom_sync_around: false, has_custom_async_around: false })
    }
}

/// The first rule that applying the aspect to the function breaks, if any.
pub open spec fn usage_error<E>(
    func: FnShape,
    is_async_aspect: bool,
    info: AspectInfo<E>,
) -> Option<UsageError> {
    if !func.is_async && is_async_aspect {
        Some(UsageError::AsyncAspectOnSyncFn)
    } else if func.is_async && !is_async_aspect && info.has_custom_sync_around {
        Some(UsageError::SyncAroundOnAsyncFn)
    } else if func.is_async && is_async_aspect && returns_impl_trait(func)
        && info.has_custom_async_around {
        Some(UsageError::AsyncAroundOnImplTraitFn)
    } else {
        None
    }
}

/// A synchronous aspect can be applied to any synchronous function, and an
/// aspect that relies on `before`/`after`/`after_error` only (overriding no
/// `around`) to any `async` function.
pub proof fn permitted_usages<E>(func: FnShape, is_async_aspect: bool, info: AspectInfo<E>)
    ensures
        !func.is_async && !is_async_aspect ==> usage_error(func, is_async_aspect, info) is None,
        func.is_async && !info.has_custom_sync_around && !info.has_custom_async_around
            ==> usage_error(func, is_async_aspect, info) is None,
{
}

/// Checks that the aspect may be applied to the function.
pub fn validate_aspect_usage<E>(
    func: &FnShape,
    is_async_aspect: bool,
    aspect_info: &AspectInfo<E>,
) -> (r: Result<(), UsageError>)
    ensures
        r == (match usage_error(*func, is_async_aspect, *aspect_info) {
            Some(e) => Err(e),
            None => Ok(()),
        }),
{
    if !func.is_async && is_async_aspect {
        return Err(UsageError::AsyncAspectOnSyncFn);
    }
    let returns_impl_trait = func.returns_impl_trait();
    if func.is_async && !is_async_aspect && aspect_info.has_custom_sync_around {
        return Err(UsageError::SyncAroundOnAsyncFn);
    }
    if func.is_async && is_async_aspect && returns_impl_trait && aspect_info.has_custom_async_around {
        return Err(UsageError::AsyncAroundOnImplTraitFn);
    }
    Ok(())
}

/// Which body the generated wrapper gives the woven function.
#[derive(Clone, Copy, Debug, PartialEq, Eq, Structural)]
pub enum CallTemplate {
    /// Synchronous function returning a `Result`: synchronous `around`, errors
    /// passed through as text.
    SyncResult,
    /// Synchronous function returning anything else: synchronous `around`.
    SyncPlain,
    /// `async` function returning a `Result`, synchronous aspect: the advised
    /// future is driven to completion inside synchronous `around`.
    BlockingResult,
    /// `async` function returning `impl IntoResponse`, synchronous aspect: the
    /// response is produced inside synchronous `around`.
    BlockingResponse,
    /// `async` function returning anything else, synchronous aspect.
    BlockingPlain,
    /// `async` function returning a `Result`, asynchronous aspect.
    AsyncResult,
    /// `async` function returning `impl IntoResponse`, asynchronous aspect.
    AsyncResponse,
    /// `async` function returning another `impl Trait`, asynchronous aspect:
    /// only `before` runs, then the function as written.
    AsyncBeforeOnly,
    /// `async` function returning anything else, asynchronous aspect.
    AsyncPlain,
}

/// Which wrapper is generated.
#[derive(Clone, Copy, Debug, PartialEq, Eq, Structural)]
pub enum WrapperKind {
    /// The wrapper driven by synchronous `around` advice.
    Sync,
    /// The wrapper driven by asynchronous advice.
    Async,
}

/// The body of the wrapper for a synchronous aspect.
pub open spec fn sync_template(func: FnShape) -> CallTemplate {
    if func.is_async {
        if returns_result(func) {
            CallTemplate::BlockingResult
        } else if returns_impl_into_response(func) {
            CallTemplate::BlockingResponse
        } else {
            CallTemplate::BlockingPlain
        }
    } else if returns_result(func) {
        CallTemplate::SyncResult
    } else {
        CallTemplate::SyncPlain
    }
}

/// The body of the wrapper for an asynchronous aspect.
pub open spec fn async_template(func: FnShape) -> CallTemplate {
    if returns_result(func) {
        CallTemplate::AsyncResult
    } else if returns_impl_into_response(func) {
        CallTemplate::AsyncResponse
    } else if returns_impl_trait(func) {
        CallTemplate::AsyncBeforeOnly
    } else {
        CallTemplate::AsyncPlain
    }
}

/// The name under which the function as written is kept.
pub open spec fn original_name(kind: WrapperKind, name: Seq<char>) -> Seq<char> {
    match kind {
        WrapperKind::Sync => "__aspect_original_"@ + name,
        WrapperKind::Async => "__async_aspect_original_"@ + name,
    }
}

/// The name of the binding that captures the `i`-th argument identifier.
pub open spec fn capture_name(i: nat) -> Seq<char> {
    "__aspect_arg_"@ + decimal(i)
}

/// The bindings that capture distinct arguments have distinct names.
pub proof fn capture_names_distinct(i: nat, j: nat)
    ensures
        i != j ==> capture_name(i) != capture_name(j),
{
    if capture_name(i) == capture_name(j) {
        let prefix = "__aspect_arg_"@;
        assert(capture_name(i).subrange(prefix.len() as int, capture_name(i).len() as int) =~= decimal(i));
        assert(capture_name(j).subrange(prefix.len() as int, capture_name(j).len() as int) =~= decimal(j));
        decimal_injective(i, j);
    }
}

/// What the generated wrapper is made of.
pub struct WrapperPlan {
    /// Which wrapper is generated.
    pub kind: WrapperKind,
    /// The body the wrapper gives the woven function.
    pub template: CallTemplate,
    /// The name under which the function as written is kept.
    pub original_name: String,
    /// The function's name as recorded in its join point.
    pub function_name: String,
    /// The identifiers bound by the typed parameters, recorded as arguments.
    pub arg_idents: Vec<String>,
    /// The bindings that capture those identifiers, one per identifier.
    pub capture_idents: Vec<String>,
}

/// The plan is the one for `kind` and `func`.
pub open spec fn plans(plan: WrapperPlan, kind: WrapperKind, func: FnShape) -> bool {
    &&& plan.kind == kind
    &&& plan.template == (match kind {
        WrapperKind::Sync => sync_template(func),
        WrapperKind::Async => async_template(func),
    })
    &&& plan.original_name@ == original_name(kind, func.name@)
    &&& plan.function_name@ == func.name@
    &&& plan.arg_idents.deep_view() == params_idents(func.params@)
    &&& plan.capture_idents.len() == plan.arg_idents.len()
    &&& forall|i: int|
        0 <= i < plan.capture_idents.len() ==> #[trigger] plan.capture_idents@[i]@ == capture_name(
            i as nat,
        )
}

/// The names of the bindings that capture `n` argument identifiers.
pub fn capture_names(n: usize) -> (names: Vec<String>)
    ensures
        names.len() == n,
        forall|i: int| 0 <= i < n ==> #[trigger] names@[i]@ == capture_name(i as nat),
{
    let mut names: Vec<String> = Vec::new();
    let mut i: usize = 0;
    while i < n
        invariant
            i <= n,
            names.len() == i,
            forall|j: int| 0 <= j < i ==> #[trigger] names@[j]@ == capture_name(j as nat),
        decreases n - i,
    {
        let mut name = String::from_str("__aspect_arg_");
        let digits = decimal_string(i as u64);
        name.append(digits.as_str());
        names.push(name);
        i = i + 1;
    }
    names
}

fn plan_wrapper(kind: WrapperKind, template: CallTemplate, func: &FnShape) -> (plan: WrapperPlan)
    requires
        template == (match kind {
            WrapperKind::Sync => sync_template(*func),
            WrapperKind::Async => async_template(*func),
        }),
    ensures
        plans(plan, kind, *func),
{
    let mut original_name = match kind {
        WrapperKind::Sync => String::from_str("__aspect_original_"),
        WrapperKind::Async => String::from_str("__async_aspect_original_"),
    };
    original_name.append(func.name.as_str());
    let mut arg_idents: Vec<String> = Vec::new();
    collect_param_idents(&func.params, &mut arg_idents);
    proof {
        assert(arg_idents.deep_view() =~= params_idents(func.params@));
    }
    let capture_idents = capture_names(arg_idents.len());
    WrapperPlan {
        kind,
        template,
        original_name,
        function_name: func.name.clone(),
        arg_idents,
        capture_idents,
    }
}

/// Plans the wrapper that weaves a synchronous aspect into the function.
pub fn plan_aspect_wrapper(func: &FnShape) -> (plan: WrapperPlan)
    ensures
        plans(plan, WrapperKind::Sync, *func),
{
    let template = if func.is_async {
        if func.returns_result() {
            CallTemplate::BlockingResult
        } else if func.returns_impl_into_response() {
            CallTemplate::BlockingResponse
        } else {
            CallTemplate::BlockingPlain
        }
    } else if func.returns_result() {
        CallTemplate::SyncResult
    } else {
        CallTemplate::SyncPlain
    };
    plan_wrapper(WrapperKind::Sync, template, func)
}

/// Plans the wrapper that weaves an asynchronous aspect into the function.
pub fn plan_async_aspect_wrapper(func: &FnShape) -> (plan: WrapperPlan)
    ensures
        plans(plan, WrapperKind::Async, *func),
{
    let template = if func.returns_result() {
        CallTemplate::AsyncResult
    } else if func.returns_impl_into_response() {
        CallTemplate::AsyncResponse
    } else if func.returns_impl_trait() {
        CallTemplate::AsyncBeforeOnly
    } else {
        CallTemplate::AsyncPlain
    };
    plan_wrapper(WrapperKind::Async, template, func)
}

/// The wrapper that applying the aspect generates: the asynchronous one for an
/// `async` function with an asynchronous aspect, the synchronous one otherwise.
pub open spec fn wrapper_kind(func: FnShape, is_async_aspect: bool) -> WrapperKind {
    if func.is_async && is_async_aspect {
        WrapperKind::Async
    } else {
        WrapperKind::Sync
    }
}

/// Decides how the aspect is woven into the function: refuses the usages that
/// the rules forbid, and otherwise plans the wrapper.
pub fn transform<E>(
    func: &FnShape,
    is_async_aspect: bool,
    aspect_info: &AspectInfo<E>,
) -> (r: Result<WrapperPlan, UsageError>)
    ensures
        match usage_error(*func, is_async_aspect, *aspect_info) {
            Some(e) => r == Err::<WrapperPlan, UsageError>(e),
            None => r matches Ok(plan) && plans(plan, wrapper_kind(*func, is_async_aspect), *func),
        },
{
    validate_aspect_usage(func, is_async_aspect, aspect_info)?;
    if func.is_async && is_async_aspect {
        Ok(plan_async_aspect_wrapper(func))
    } else {
        Ok(plan_aspect_wrapper(func))
    }
}

/// The function as written is kept under its own name behind a fixed prefix
/// for each wrapper, so distinct functions keep distinct names.
pub proof fn original_name_rules(kind: WrapperKind, a: Seq<char>, b: Seq<char>)
    ensures
        original_name(WrapperKind::Sync, a) == "__aspect_original_"@ + a,
        original_name(WrapperKind::Async, a) == "__async_aspect_original_"@ + a,
        original_name(kind, a) == original_name(kind, b) ==> a == b,
{
    let prefix = match kind {
        WrapperKind::Sync => "__aspect_original_"@,
        WrapperKind::Async => "__async_aspect_original_"@,
    };
    if original_name(kind, a) == original_name(kind, b) {
        assert(a =~= original_name(kind, a).subrange(prefix.len() as int, original_name(kind, a).len() as int));
        assert(b =~= original_name(kind, b).subrange(prefix.len() as int, original_name(kind, b).len() as int));
    }
}

/// When each usage is refused, read off the signature directly: an
/// asynchronous aspect on a function that is not `async`; a synchronous aspect
/// overriding `around` on an `async` function; an asynchronous aspect
/// overriding `around` on an `async` function whose declared return type is
/// `impl Trait` (and on no other return type); every other usage is accepted.
pub proof fn usage_rules<E>(func: FnShape, is_async_aspect: bool, info: AspectInfo<E>)
    ensures
        usage_error(func, is_async_aspect, info) == Some(UsageError::AsyncAspectOnSyncFn) <==> (
        !func.is_async && is_async_aspect),
        usage_error(func, is_async_aspect, info) == Some(UsageError::SyncAroundOnAsyncFn) <==> (
        func.is_async && !is_async_aspect && info.has_custom_sync_around),
        usage_error(func, is_async_aspect, info) == Some(UsageError::AsyncAroundOnImplTraitFn)
            <==> (func.is_async && is_async_aspect && info.has_custom_async_around && (match func.output {
            Some(TypeShape::ImplTrait(_)) => true,
            _ => false,
        })),
        func.is_async && is_async_aspect && !(match func.output {
            Some(TypeShape::ImplTrait(_)) => true,
            _ => false,
        }) ==> usage_error(func, is_async_aspect, info) is None,
        !is_async_aspect && !info.has_custom_sync_around ==> usage_error(
            func,
            is_async_aspect,
            info,
        ) is None,
{
}

/// Which body the wrapper gets, read off the declared return type directly:
/// a path ending in `Result` gets the result-passing body; `impl` with a bound
/// ending in `IntoResponse` the response body; an asynchronous aspect runs only
/// `before` exactly for another `impl Trait` return type; and every other
/// function, one without a declared return type included, goes through
/// `around`.
pub proof fn template_rules(func: FnShape)
    ensures
        ({
            let result = match func.output {
                Some(TypeShape::Path(segments)) => segments@.len() > 0 && segments@.last()@
                    == "Result"@,
                _ => false,
            };
            let response = match func.output {
                Some(TypeShape::ImplTrait(bounds)) => exists|i: int|
                    0 <= i < bounds@.len() && match #[trigger] bounds@[i] {
                        BoundShape::Trait(segments) => segments@.len() > 0 && segments@.last()@
                            == "IntoResponse"@,
                        BoundShape::Other => false,
                    },
                _ => false,
            };
            let impl_trait = match func.output {
                Some(TypeShape::ImplTrait(_)) => true,
                _ => false,
            };
            &&& (async_template(func) == CallTemplate::AsyncResult <==> result)
            &&& (async_template(func) == CallTemplate::AsyncResponse <==> response)
            &&& (async_template(func) == CallTemplate::AsyncBeforeOnly <==> impl_trait && !response)
            &&& (async_template(func) == CallTemplate::AsyncPlain <==> !result && !impl_trait)
            &&& (func.output is None ==> async_template(func) == CallTemplate::AsyncPlain)
            &&& (!func.is_async ==> (sync_template(func) == CallTemplate::SyncResult <==> result))
            &&& (!func.is_async ==> (sync_template(func) == CallTemplate::SyncPlain <==> !result))
            &&& (func.is_async ==> (sync_template(func) == CallTemplate::BlockingResult <==> result))
            &&& (func.is_async ==> (sync_template(func) == CallTemplate::BlockingResponse <==> response))
            &&& (func.is_async ==> (sync_template(func) == CallTemplate::BlockingPlain <==> !result
                && !response))
        }),
{
    match func.output {
        Some(TypeShape::Path(segments)) => {
            if segments@.len() > 0 {
                assert(segments.deep_view().last() == segments@.last()@);
            }
        },
        Some(TypeShape::ImplTrait(bounds)) => {
            assert forall|i: int| 0 <= i < bounds@.len() implies (match #[trigger] bounds@[i] {
                BoundShape::Trait(segments) => segments@.len() > 0 && segments@.last()@
                    == "IntoResponse"@,
                BoundShape::Other => false,
            }) == crate::syntax::bound_is_into_response(bounds@[i]) by {
                if let BoundShape::Trait(segments) = bounds@[i] {
                    if segments@.len() > 0 {
                        assert(segments.deep_view().last() == segments@.last()@);
                    }
                }
            }
        },
        _ => {},
    }
}

} // verus!
