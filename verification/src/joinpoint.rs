//! Join points: the points of program execution where an aspect applies.

use vstd::prelude::*;
use vstd::string::StringExecFns;

use crate::error::AspectError;
use crate::text::{decimal, decimal_string};

verus! {

/// Source code location information.
#[derive(Clone, Copy, Debug)]
pub struct Location {
    /// The source file path
    pub file: &'static str,
    /// The line number in the source file
    pub line: u32,
}

/// Information about a specific point in program execution.
pub struct JoinPoint<A> {
    /// The name of the function being called
    pub function_name: &'static str,
    /// The module path containing the function
    pub module: &'static str,
    /// Source code location information
    pub location: Location,
    /// Arguments passed to the function
    pub args: Vec<A>,
}

impl<A> JoinPoint<A> {
    /// Creates a new JoinPoint.
    pub fn new(
        function_name: &'static str,
        module: &'static str,
        location: Location,
        args: Vec<A>,
    ) -> (jp: Self)
        ensures
            jp.function_name@ == function_name@,
            jp.module@ == module@,
            jp.location == location,
            jp.args@ == args@,
    {
        JoinPoint { function_name, module, location, args }
    }
}


/// `module::function`, the fully qualified name of a function.
pub open spec fn qualified(module: Seq<char>, function: Seq<char>) -> Seq<char> {
    module + "::"@ + function
}

/// `module::function@file:line`, how a join point is displayed.
pub open spec fn described(
    module: Seq<char>,
    function: Seq<char>,
    file: Seq<char>,
    line: u32,
) -> Seq<char> {
    qualified(module, function) + "@"@ + file + ":"@ + decimal(line as nat)
}

fn qualified_string(module: &str, function: &str) -> (s: String)
    ensures
        s@ == qualified(module@, function@),
{
    let mut s = String::from_str(module);
    s.append("::");
    s.append(function);
    s
}

fn described_string(module: &str, function: &str, location: &Location) -> (s: String)
    ensures
        s@ == described(module@, function@, location.file@, location.line),
{
    let mut s = qualified_string(module, function);
    s.append("@");
    s.append(location.file);
    s.append(":");
    let line = decimal_string(location.line as u64);
    s.append(line.as_str());
    s
}

impl Location {
    /// `file:line`, how a location is displayed.
    pub fn display_string(&self) -> (s: String)
        ensures
            s@ == self.file@ + ":"@ + decimal(self.line as nat),
    {
        let mut s = String::from_str(self.file);
        s.append(":");
        let line = decimal_string(self.line as u64);
        s.append(line.as_str());
        s
    }
}

impl<A> JoinPoint<A> {
    /// Returns the fully qualified name of the function.
    pub fn qualified_name(&self) -> (s: String)
        ensures
            s@ == qualified(self.module@, self.function_name@),
    {
        qualified_string(self.module, self.function_name)
    }

    /// `module::function@file:line`, how the join point is displayed.
    pub fn display_string(&self) -> (s: String)
        ensures
            s@ == described(self.module@, self.function_name@, self.location.file@, self.location.line),
    {
        described_string(self.module, self.function_name, &self.location)
    }
}

/// Async joinpoint context used by asynchronous aspects.
pub struct AsyncJoinPoint<A> {
    /// The name of the function being called.
    pub function_name: &'static str,
    /// The module path containing the function.
    pub module: &'static str,
    /// Source code location information.
    pub location: Location,
    /// Arguments passed to the function.
    pub args: Vec<A>,
}

impl<A> AsyncJoinPoint<A> {
    /// Creates a new async joinpoint.
    pub fn new(
        function_name: &'static str,
        module: &'static str,
        location: Location,
        args: Vec<A>,
    ) -> (jp: Self)
        ensures
            jp.function_name@ == function_name@,
            jp.module@ == module@,
            jp.location == location,
            jp.args@ == args@,
    {
        AsyncJoinPoint { function_name, module, location, args }
    }

    /// Returns the fully qualified name of the function.
    pub fn qualified_name(&self) -> (s: String)
        ensures
            s@ == qualified(self.module@, self.function_name@),
    {
        qualified_string(self.module, self.function_name)
    }

    /// `module::function@file:line`, how the join point is displayed.
    pub fn display_string(&self) -> (s: String)
        ensures
            s@ == described(self.module@, self.function_name@, self.location.file@, self.location.line),
    {
        described_string(self.module, self.function_name, &self.location)
    }
}

/// A proceeding joinpoint, handed to "around" advice: the advised function,
/// not yet run, together with its context.
pub struct ProceedingJoinPoint<F, A> {
    inner: F,
    context: JoinPoint<A>,
}

impl<F, A> ProceedingJoinPoint<F, A> {
    /// The advised function that `proceed` runs.
    pub closed spec fn target(self) -> F {
        self.inner
    }

    /// The context of the join point.
    pub closed spec fn spec_context(self) -> JoinPoint<A> {
        self.context
    }

    /// The proceeding join point made of `f` and `context`.
    pub closed spec fn spec_new(f: F, context: JoinPoint<A>) -> Self {
        ProceedingJoinPoint { inner: f, context }
    }

    /// Splitting a proceeding join point, or asking it for its context, gives
    /// back the function and the context it was made with.
    pub proof fn parts_of_new(f: F, context: JoinPoint<A>)
        ensures
            Self::spec_new(f, context).target() == f,
            Self::spec_new(f, context).spec_context() == context,
    {
    }

    /// Creates a new ProceedingJoinPoint.
    pub fn new(f: F, context: JoinPoint<A>) -> (pjp: Self)
        ensures
            pjp == Self::spec_new(f, context),
            pjp.target() == f,
            pjp.spec_context() == context,
    {
        ProceedingJoinPoint { inner: f, context }
    }

    /// Splits the proceeding joinpoint into its context and the advised function.
    pub fn into_parts(self) -> (parts: (JoinPoint<A>, F))
        ensures
            parts == (self.spec_context(), self.target()),
    {
        (self.context, self.inner)
    }

    /// Returns a reference to the joinpoint context.
    pub fn context(&self) -> (c: &JoinPoint<A>)
        ensures
            *c == self.spec_context(),
    {
        &self.context
    }

    /// Returns the arguments passed to the function.
    pub fn args(&self) -> (a: &[A])
        ensures
            a@ == self.spec_context().args@,
    {
        self.context.args.as_slice()
    }
}

impl<F, A, R> ProceedingJoinPoint<F, A> where F: FnOnce() -> Result<R, AspectError> {
    /// Runs the advised function and returns its result.
    pub fn proceed(self) -> (r: Result<R, AspectError>)
        requires
            call_requires(self.target(), ()),
        ensures
            call_ensures(self.target(), (), r),
    {
        (self.inner)()
    }
}

/// An async proceeding joinpoint, handed to asynchronous "around" advice.
pub struct AsyncProceedingJoinPoint<F, A> {
    inner: F,
    context: AsyncJoinPoint<A>,
}

impl<F, A> AsyncProceedingJoinPoint<F, A> {
    /// The function that starts the advised computation.
    pub closed spec fn target(self) -> F {
        self.inner
    }

    /// The context of the join point.
    pub closed spec fn spec_context(self) -> AsyncJoinPoint<A> {
        self.context
    }

    /// The async proceeding join point made of `f` and `context`.
    pub closed spec fn spec_new(f: F, context: AsyncJoinPoint<A>) -> Self {
        AsyncProceedingJoinPoint { inner: f, context }
    }

    /// Splitting an async proceeding join point, or asking it for its context,
    /// gives back the function and the context it was made with.
    pub proof fn parts_of_new(f: F, context: AsyncJoinPoint<A>)
        ensures
            Self::spec_new(f, context).target() == f,
            Self::spec_new(f, context).spec_context() == context,
    {
    }

    /// Creates a new async proceeding joinpoint.
    pub fn new(f: F, context: AsyncJoinPoint<A>) -> (pjp: Self)
        ensures
            pjp == Self::spec_new(f, context),
            pjp.target() == f,
            pjp.spec_context() == context,
    {
        AsyncProceedingJoinPoint { inner: f, context }
    }

    /// Splits the async proceeding joinpoint into its context and the function
    /// that starts the advised computation.
    pub fn into_parts(self) -> (parts: (AsyncJoinPoint<A>, F))
        ensures
            parts == (self.spec_context(), self.target()),
    {
        (self.context, self.inner)
    }

    /// Returns a reference to the joinpoint context.
    pub fn context(&self) -> (c: &AsyncJoinPoint<A>)
        ensures
            *c == self.spec_context(),
    {
        &self.context
    }

    /// Returns the arguments passed to the function.
    pub fn args(&self) -> (a: &[A])
        ensures
            a@ == self.spec_context().args@,
    {
        self.context.args.as_slice()
    }
}

} // verus!
