//! The parts of Rust syntax that the weaving logic reads, held as plain values:
//! the aspect expression of the attribute, parameter patterns, return types
//! and the signature of the woven function.

use vstd::prelude::*;
use vstd::string::StringExecFns;

verus! {

/// The view of an optional string.
pub open spec fn opt_view(o: Option<String>) -> Option<Seq<char>> {
    match o {
        Some(s) => Some(s@),
        None => None,
    }
}

/// The last segment of a path, if it has one.
pub open spec fn last_segment(segments: Seq<Seq<char>>) -> Option<Seq<char>> {
    if segments.len() > 0 {
        Some(segments.last())
    } else {
        None
    }
}

fn last_segment_of(segments: &Vec<String>) -> (r: Option<String>)
    ensures
        opt_view(r) == last_segment(segments.deep_view()),
{
    if segments.len() > 0 {
        Some(segments[segments.len() - 1].clone())
    } else {
        None
    }
}

pub(crate) fn last_segment_is(segments: &Vec<String>, name: &str) -> (r: bool)
    ensures
        r == (last_segment(segments.deep_view()) == Some(name@)),
{
    if segments.len() > 0 {
        let wanted = String::from_str(name);
        segments[segments.len() - 1] == wanted
    } else {
        false
    }
}

/// The expression given to the aspect attribute, as far as the name of the
/// aspect's type can be read from it.
pub enum AspectExpr {
    /// A path such as `Logger` or `aspects::Logger`, by its segments.
    Path(Vec<String>),
    /// A call such as `Logger::new()`, by its callee.
    Call(Box<AspectExpr>),
    /// A method call such as `Logger::default().verbose()`, by its receiver.
    MethodCall(Box<AspectExpr>),
    /// A parenthesized expression.
    Paren(Box<AspectExpr>),
    /// A reference such as `&LOGGER`.
    Reference(Box<AspectExpr>),
    /// Any other expression.
    Other,
}

/// The name of the aspect's type that an aspect expression names: the last
/// segment of the path reached through callees, receivers, parentheses and
/// references.
pub open spec fn expr_type_name(e: AspectExpr) -> Option<Seq<char>>
    decreases e,
{
    match e {
        AspectExpr::Path(segments) => last_segment(segments.deep_view()),
        AspectExpr::Call(callee) => expr_type_name(*callee),
        AspectExpr::MethodCall(receiver) => expr_type_name(*receiver),
        AspectExpr::Paren(inner) => expr_type_name(*inner),
        AspectExpr::Reference(inner) => expr_type_name(*inner),
        AspectExpr::Other => None,
    }
}

/// Extracts the name of the aspect's type from the attribute's expression.
pub fn extract_aspect_type_name(expr: &AspectExpr) -> (r: Option<String>)
    ensures
        opt_view(r) == expr_type_name(*expr),
    decreases expr,
{
    match expr {
        AspectExpr::Path(segments) => last_segment_of(segments),
        AspectExpr::Call(callee) => extract_aspect_type_name(callee),
        AspectExpr::MethodCall(receiver) => extract_aspect_type_name(receiver),
        AspectExpr::Paren(inner) => extract_aspect_type_name(inner),
        AspectExpr::Reference(inner) => extract_aspect_type_name(inner),
        AspectExpr::Other => None,
    }
}

/// The aspect's type is named by the last segment of a path, reached through
/// callees, method receivers, parentheses and references; an empty path or
/// any other expression names none.
pub proof fn type_name_rules(e: AspectExpr)
    ensures
        e matches AspectExpr::Path(segments) ==> expr_type_name(e) == (if segments@.len() > 0 {
            Some(segments@[segments@.len() - 1]@)
        } else {
            None::<Seq<char>>
        }),
        e matches AspectExpr::Call(inner) ==> expr_type_name(e) == expr_type_name(*inner),
        e matches AspectExpr::MethodCall(inner) ==> expr_type_name(e) == expr_type_name(*inner),
        e matches AspectExpr::Paren(inner) ==> expr_type_name(e) == expr_type_name(*inner),
        e matches AspectExpr::Reference(inner) ==> expr_type_name(e) == expr_type_name(*inner),
        e is Other ==> expr_type_name(e) is None,
{
    if let AspectExpr::Path(segments) = e {
        if segments@.len() > 0 {
            assert(segments.deep_view().last() == segments@[segments@.len() - 1]@);
        }
    }
}

/// A parameter pattern, as far as the identifiers it binds can be read from it.
pub enum PatShape {
    /// A binding such as `a` or `mut a`.
    Ident(String),
    /// A reference pattern such as `&a`.
    Reference(Box<PatShape>),
    /// A pattern with a type ascription.
    Typed(Box<PatShape>),
    /// A tuple pattern such as `(a, b)`.
    Tuple(Vec<PatShape>),
    /// A tuple-struct pattern such as `Query(params)`.
    TupleStruct(Vec<PatShape>),
    /// A struct pattern such as `Point { x, y }`, by the patterns of its fields.
    Struct(Vec<PatShape>),
    /// A slice pattern such as `[a, b]`.
    Slice(Vec<PatShape>),
    /// A parenthesized pattern.
    Paren(Box<PatShape>),
    /// An or-pattern such as `A(x) | B(x)`, by its cases.
    Or(Vec<PatShape>),
    /// Any other pattern (wildcards, literals, ranges, ...).
    Other,
}

/// The identifiers a pattern binds, left to right; of an or-pattern only its
/// first case is read.
pub open spec fn pat_idents(p: PatShape) -> Seq<Seq<char>>
    decreases p, 1nat,
{
    match p {
        PatShape::Ident(name) => seq![name@],
        PatShape::Reference(inner) => pat_idents(*inner),
        PatShape::Typed(inner) => pat_idents(*inner),
        PatShape::Tuple(elems) => pats_idents(elems@),
        PatShape::TupleStruct(elems) => pats_idents(elems@),
        PatShape::Struct(fields) => pats_idents(fields@),
        PatShape::Slice(elems) => pats_idents(elems@),
        PatShape::Paren(inner) => pat_idents(*inner),
        PatShape::Or(cases) => if cases@.len() > 0 {
            pat_idents(cases@[0])
        } else {
            seq![]
        },
        PatShape::Other => seq![],
    }
}

/// The identifiers a sequence of patterns binds, left to right.
pub open spec fn pats_idents(ps: Seq<PatShape>) -> Seq<Seq<char>>
    decreases ps, 0nat,
{
    if ps.len() == 0 {
        seq![]
    } else {
        pats_idents(ps.subrange(0, ps.len() - 1)) + pat_idents(ps[ps.len() - 1])
    }
}

proof fn lemma_pats_idents_flatten(ps: Seq<PatShape>)
    ensures
        pats_idents(ps) == ps.map_values(|p: PatShape| pat_idents(p)).flatten(),
    decreases ps.len(),
{
    let parts = ps.map_values(|p: PatShape| pat_idents(p));
    parts.lemma_flatten_and_flatten_alt_are_equivalent();
    if ps.len() > 0 {
        lemma_pats_idents_flatten(ps.drop_last());
        assert(ps.subrange(0, ps.len() - 1) == ps.drop_last());
        assert(parts.drop_last() =~= ps.drop_last().map_values(|p: PatShape| pat_idents(p)));
        parts.drop_last().lemma_flatten_and_flatten_alt_are_equivalent();
    }
}

/// A pattern binds: a binding its one identifier; a reference, typed or
/// parenthesized pattern what its inner pattern binds; a tuple, tuple-struct,
/// struct or slice pattern everything each of its parts binds, part after
/// part; an or-pattern what its first case binds; any other pattern nothing.
pub proof fn pattern_bindings(p: PatShape)
    ensures
        p matches PatShape::Ident(name) ==> pat_idents(p) == seq![name@],
        p matches PatShape::Reference(inner) ==> pat_idents(p) == pat_idents(*inner),
        p matches PatShape::Typed(inner) ==> pat_idents(p) == pat_idents(*inner),
        p matches PatShape::Paren(inner) ==> pat_idents(p) == pat_idents(*inner),
        p matches PatShape::Tuple(parts) ==> pat_idents(p) == parts@.map_values(
            |q: PatShape| pat_idents(q),
        ).flatten(),
        p matches PatShape::TupleStruct(parts) ==> pat_idents(p) == parts@.map_values(
            |q: PatShape| pat_idents(q),
        ).flatten(),
        p matches PatShape::Struct(parts) ==> pat_idents(p) == parts@.map_values(
            |q: PatShape| pat_idents(q),
        ).flatten(),
        p matches PatShape::Slice(parts) ==> pat_idents(p) == parts@.map_values(
            |q: PatShape| pat_idents(q),
        ).flatten(),
        p matches PatShape::Or(cases) ==> pat_idents(p) == (if cases@.len() > 0 {
            pat_idents(cases@[0])
        } else {
            Seq::<Seq<char>>::empty()
        }),
        p is Other ==> pat_idents(p).len() == 0,
{
    match p {
        PatShape::Tuple(parts) => lemma_pats_idents_flatten(parts@),
        PatShape::TupleStruct(parts) => lemma_pats_idents_flatten(parts@),
        PatShape::Struct(parts) => lemma_pats_idents_flatten(parts@),
        PatShape::Slice(parts) => lemma_pats_idents_flatten(parts@),
        _ => {},
    }
}

/// Appends to `out` the identifiers that `pat` binds, left to right; of an
/// or-pattern only its first case is read.
pub fn collect_pat_idents(pat: &PatShape, out: &mut Vec<String>)
    ensures
        final(out).deep_view() == old(out).deep_view() + pat_idents(*pat),
    decreases pat, 1nat,
{
    match pat {
        PatShape::Ident(name) => {
            out.push(name.clone());
        },
        PatShape::Reference(inner) => collect_pat_idents(inner, out),
        PatShape::Typed(inner) => collect_pat_idents(inner, out),
        PatShape::Tuple(elems) => collect_all_pat_idents(elems, out),
        PatShape::TupleStruct(elems) => collect_all_pat_idents(elems, out),
        PatShape::Struct(fields) => collect_all_pat_idents(fields, out),
        PatShape::Slice(elems) => collect_all_pat_idents(elems, out),
        PatShape::Paren(inner) => collect_pat_idents(inner, out),
        PatShape::Or(cases) => {
            if cases.len() > 0 {
                collect_pat_idents(&cases[0], out);
            } else {
                assert(old(out).deep_view() + pat_idents(*pat) =~= old(out).deep_view());
            }
        },
        PatShape::Other => {
            assert(old(out).deep_view() + pat_idents(*pat) =~= old(out).deep_view());
        },
    }
}

/// Appends to `out` the identifiers that `pats` bind, left to right.
pub fn collect_all_pat_idents(pats: &Vec<PatShape>, out: &mut Vec<String>)
    ensures
        final(out).deep_view() == old(out).deep_view() + pats_idents(pats@),
    decreases pats, 0nat,
{
    let ghost start = out.deep_view();
    let mut i: usize = 0;
    assert(pats@.subrange(0, 0) =~= Seq::<PatShape>::empty());
    assert(start + pats_idents(pats@.subrange(0, 0)) =~= start);
    while i < pats.len()
        invariant
            i <= pats.len(),
            out.deep_view() == start + pats_idents(pats@.subrange(0, i as int)),
        decreases pats.len() - i,
    {
        proof {
            assert(pats@.subrange(0, i + 1).subrange(0, i as int) =~= pats@.subrange(0, i as int));
        }
        collect_pat_idents(&pats[i], out);
        i = i + 1;
        proof {
            assert(out.deep_view() =~= start + pats_idents(pats@.subrange(0, i as int)));
        }
    }
    assert(pats@.subrange(0, pats.len() as int) =~= pats@);
}

/// A bound of an `impl Trait` type.
pub enum BoundShape {
    /// A trait bound, by the segments of the trait's path.
    Trait(Vec<String>),
    /// Any other bound (lifetimes, `use<..>` captures, ...).
    Other,
}

/// A type, as far as the weaving logic reads it.
pub enum TypeShape {
    /// A path type such as `Result<i32, String>`, by the segments of its path.
    Path(Vec<String>),
    /// An `impl Trait` type, by its bounds.
    ImplTrait(Vec<BoundShape>),
    /// Any other type.
    Other,
}

/// The type is a path whose last segment is `Result`.
pub open spec fn spec_is_result_type(ty: TypeShape) -> bool {
    match ty {
        TypeShape::Path(segments) => last_segment(segments.deep_view()) == Some("Result"@),
        _ => false,
    }
}

/// The bound is a trait whose path ends in `IntoResponse`.
pub open spec fn bound_is_into_response(b: BoundShape) -> bool {
    match b {
        BoundShape::Trait(segments) => last_segment(segments.deep_view()) == Some("IntoResponse"@),
        BoundShape::Other => false,
    }
}

/// The type is `impl ...` with a bound whose path ends in `IntoResponse`.
pub open spec fn spec_is_impl_into_response(ty: TypeShape) -> bool {
    match ty {
        TypeShape::ImplTrait(bounds) => exists|i: int|
            0 <= i < bounds@.len() && #[trigger] bound_is_into_response(bounds@[i]),
        _ => false,
    }
}

/// Checks if a type is a Result type.
pub fn is_result_type(ty: &TypeShape) -> (r: bool)
    ensures
        r == spec_is_result_type(*ty),
{
    match ty {
        TypeShape::Path(segments) => last_segment_is(segments, "Result"),
        _ => false,
    }
}

/// Checks if a type is `impl IntoResponse` (with possibly more bounds).
pub fn is_impl_into_response(ty: &TypeShape) -> (r: bool)
    ensures
        r == spec_is_impl_into_response(*ty),
{
    match ty {
        TypeShape::ImplTrait(bounds) => has_into_response_bound(bounds),
        _ => false,
    }
}

fn has_into_response_bound(bounds: &Vec<BoundShape>) -> (r: bool)
    ensures
        r == exists|i: int| 0 <= i < bounds@.len() && #[trigger] bound_is_into_response(bounds@[i]),
{
    let mut i: usize = 0;
    while i < bounds.len()
        invariant
            i <= bounds.len(),
            forall|j: int| 0 <= j < i ==> !#[trigger] bound_is_into_response(bounds@[j]),
        decreases bounds.len() - i,
    {
        let found = match &bounds[i] {
            BoundShape::Trait(segments) => last_segment_is(segments, "IntoResponse"),
            BoundShape::Other => false,
        };
        if found {
            assert(bound_is_into_response(bounds@[i as int]));
            return true;
        }
        i = i + 1;
    }
    false
}

/// Checks if a type is an `impl Trait` type.
pub fn is_impl_trait(ty: &TypeShape) -> (r: bool)
    ensures
        r == (*ty is ImplTrait),
{
    match ty {
        TypeShape::ImplTrait(_) => true,
        _ => false,
    }
}

/// A parameter of a function.
pub enum ParamShape {
    /// The receiver (`self`, `&self`, `&mut self`, ...).
    Receiver,
    /// A typed parameter, by its pattern.
    Typed(PatShape),
}

/// The identifiers that the typed parameters bind, left to right; receivers
/// bind none that are recorded.
pub open spec fn params_idents(ps: Seq<ParamShape>) -> Seq<Seq<char>>
    decreases ps.len(),
{
    if ps.len() == 0 {
        seq![]
    } else {
        params_idents(ps.drop_last()) + match ps.last() {
            ParamShape::Receiver => Seq::<Seq<char>>::empty(),
            ParamShape::Typed(p) => pat_idents(p),
        }
    }
}

/// The identifiers recorded for parameters are everything each typed
/// parameter's pattern binds, parameter after parameter; a receiver adds none.
pub proof fn parameter_bindings(ps: Seq<ParamShape>)
    ensures
        params_idents(ps) == ps.map_values(
            |q: ParamShape|
                match q {
                    ParamShape::Receiver => Seq::<Seq<char>>::empty(),
                    ParamShape::Typed(p) => pat_idents(p),
                },
        ).flatten(),
    decreases ps.len(),
{
    let parts = ps.map_values(
        |q: ParamShape|
            match q {
                ParamShape::Receiver => Seq::<Seq<char>>::empty(),
                ParamShape::Typed(p) => pat_idents(p),
            },
    );
    parts.lemma_flatten_and_flatten_alt_are_equivalent();
    if ps.len() > 0 {
        parameter_bindings(ps.drop_last());
        assert(parts.drop_last() =~= ps.drop_last().map_values(
            |q: ParamShape|
                match q {
                    ParamShape::Receiver => Seq::<Seq<char>>::empty(),
                    ParamShape::Typed(p) => pat_idents(p),
                },
        ));
        parts.drop_last().lemma_flatten_and_flatten_alt_are_equivalent();
    }
}

/// Appends to `out` the identifiers that the typed parameters bind, left to right.
pub fn collect_param_idents(params: &Vec<ParamShape>, out: &mut Vec<String>)
    ensures
        final(out).deep_view() == old(out).deep_view() + params_idents(params@),
{
    let ghost start = out.deep_view();
    let mut i: usize = 0;
    assert(start + params_idents(params@.take(0)) =~= start);
    while i < params.len()
        invariant
            i <= params.len(),
            out.deep_view() == start + params_idents(params@.take(i as int)),
        decreases params.len() - i,
    {
        proof {
            assert(params@.take(i + 1).drop_last() =~= params@.take(i as int));
        }
        match &params[i] {
            ParamShape::Receiver => {},
            ParamShape::Typed(p) => collect_pat_idents(p, out),
        }
        i = i + 1;
        proof {
            assert(out.deep_view() =~= start + params_idents(params@.take(i as int)));
        }
    }
    assert(params@.take(params.len() as int) =~= params@);
}

/// The signature of the function an aspect is applied to.
pub struct FnShape {
    /// The function's name.
    pub name: String,
    /// Whether the function is `async`.
    pub is_async: bool,
    /// The declared return type; `None` when there is none (`()`).
    pub output: Option<TypeShape>,
    /// The parameters, in order.
    pub params: Vec<ParamShape>,
}

/// The function returns `impl Trait`.
pub open spec fn returns_impl_trait(f: FnShape) -> bool {
    f.output matches Some(ty) && ty is ImplTrait
}

/// The function returns a type whose path ends in `Result`.
pub open spec fn returns_result(f: FnShape) -> bool {
    f.output matches Some(ty) && spec_is_result_type(ty)
}

/// The function returns `impl IntoResponse`.
pub open spec fn returns_impl_into_response(f: FnShape) -> bool {
    f.output matches Some(ty) && spec_is_impl_into_response(ty)
}

impl FnShape {
    /// Whether the function returns `impl Trait`.
    pub fn returns_impl_trait(&self) -> (r: bool)
        ensures
            r == returns_impl_trait(*self),
    {
        match &self.output {
            Some(ty) => is_impl_trait(ty),
            None => false,
        }
    }

    /// Whether the function returns a `Result`.
    pub fn returns_result(&self) -> (r: bool)
        ensures
            r == returns_result(*self),
    {
        match &self.output {
            Some(ty) => is_result_type(ty),
            None => false,
        }
    }

    /// Whether the function returns `impl IntoResponse`.
    pub fn returns_impl_into_response(&self) -> (r: bool)
        ensures
            r == returns_impl_into_response(*self),
    {
        match &self.output {
            Some(ty) => is_impl_into_response(ty),
            None => false,
        }
    }
}

} // verus!
