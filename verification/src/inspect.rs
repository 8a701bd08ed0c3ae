//! Reading Rust source text for the trait impls that decide how an aspect is
//! woven: whether a type implements the asynchronous aspect trait, and whether
//! it overrides `around`.

use vstd::prelude::*;
use vstd::string::StringExecFns;

use proc_macro2::fallback::{force, unforce};
use syn::Item::Impl;
use syn::Type::Path as TypePath;
use syn::{parse_file, ImplItem, Path};

use crate::syntax::{last_segment, last_segment_is, opt_view};

verus! {

/// What a trait impl of a source file says, as far as weaving reads it.
pub struct ImplSummary {
    /// The segments of the implemented trait's path; `None` for an inherent impl.
    pub trait_path: Option<Vec<String>>,
    /// The segments of the implementing type's path; `None` when that type is
    /// not a path.
    pub self_ty_path: Option<Vec<String>>,
    /// For each member of the impl, its name when it is a method.
    pub members: Vec<Option<String>>,
}

/// The view of an [`ImplSummary`].
pub struct ImplSummaryView {
    /// The segments of the implemented trait's path.
    pub trait_path: Option<Seq<Seq<char>>>,
    /// The segments of the implementing type's path.
    pub self_ty_path: Option<Seq<Seq<char>>>,
    /// For each member of the impl, its name when it is a method.
    pub members: Seq<Option<Seq<char>>>,
}

/// The view of an optional path.
pub open spec fn opt_path_view(p: Option<Vec<String>>) -> Option<Seq<Seq<char>>> {
    match p {
        Some(v) => Some(v.deep_view()),
        None => None,
    }
}

impl View for ImplSummary {
    type V = ImplSummaryView;

    open spec fn view(&self) -> ImplSummaryView {
        ImplSummaryView {
            trait_path: opt_path_view(self.trait_path),
            self_ty_path: opt_path_view(self.self_ty_path),
            members: self.members@.map_values(|m: Option<String>| opt_view(m)),
        }
    }
}

/// The view of the items of a parsed source file: `None` when it does not
/// parse, else one entry per item, the impl's summary for an impl and `None`
/// for any other item.
pub open spec fn items_view(items: Option<Vec<Option<ImplSummary>>>) -> Option<
    Seq<Option<ImplSummaryView>>,
> {
    match items {
        Some(v) => Some(v@.map_values(|i: Option<ImplSummary>| item_view(i))),
        None => None,
    }
}

/// The view of one item's summary.
pub open spec fn item_view(i: Option<ImplSummary>) -> Option<ImplSummaryView> {
    match i {
        Some(s) => Some(s@),
        None => None,
    }
}

/// The items of `contents` as Rust's file grammar, with proc-macro2's own
/// lexer, parses them: `None` when `contents` is not a Rust source file, else
/// one entry per item, an impl's summary for an impl and `None` for any other
/// item.
pub uninterp spec fn parsed_source_items(contents: Seq<char>) -> Option<Seq<Option<ImplSummaryView>>>;

/// Parses `contents` as a Rust source file with `syn::parse_file`, lexing with
/// proc-macro2's own lexer (`proc_macro2::fallback::force`, undone after the
/// call by `proc_macro2::fallback::unforce`) whether or not a compiler is at
/// hand, and summarizes each item: for an impl, the segments of its trait's
/// and its type's paths and the names of its methods.
///
/// The contract claims that the call returns, and that the result is the one
/// the grammar gives `contents`, by the name `parsed_source_items`; which
/// texts parse, and to what, is not stated.
///
/// Panics: proc-macro2 documents that some lexing errors may panic rather than
/// be reported. That is why its own lexer is forced here: in its source
/// (`parse.rs`, `token_stream` and the readers it calls) every failure is
/// reported as a `LexError`, delimiters are matched with an explicit stack,
/// and text is sliced only at positions just checked; syn then takes any
/// literal it does not recognise as a verbatim literal instead of panicking.
/// Left unsaid: syn's parser recurses on nested syntax, so deeply enough
/// nested text exhausts the stack. Like the depth of every recursion in this
/// library, the stack is a limit of the machine that no contract here covers.
///
/// Forcing proc-macro2's lexer differs from the compiler's lexer in one
/// respect: the compiler normalizes identifiers to NFC form and this lexer
/// does not. `unforce` re-detects which lexer to use, so a `force` made
/// earlier by other code is undone.
#[verifier::external_body]
fn parse_source_items(contents: &str) -> (items: Option<Vec<Option<ImplSummary>>>)
    ensures
        items_view(items) == parsed_source_items(contents@),
{
    force();
    let file = parse_file(contents).ok();
    unforce();
    let path = |p: &Path| p.segments.iter().map(|s| s.ident.to_string()).collect();
    Some(file?.items.iter().map(|item| match item {
        Impl(i) => Some(ImplSummary {
            trait_path: i.trait_.as_ref().map(|t| path(&t.1)),
            self_ty_path: match &*i.self_ty { TypePath(p) => Some(path(&p.path)), _ => None },
            members: i.items.iter().map(|m| match m { ImplItem::Fn(f) => Some(f.sig.ident.to_string()), _ => None }).collect(),
        }),
        _ => None,
    }).collect())
}

/// The impl implements the trait whose path ends in `trait_name` for the type
/// whose path ends in `ty_name`.
pub open spec fn impl_targets(imp: ImplSummaryView, trait_name: Seq<char>, ty_name: Seq<char>) -> bool {
    &&& imp.trait_path matches Some(t) && last_segment(t) == Some(trait_name)
    &&& imp.self_ty_path matches Some(p) && last_segment(p) == Some(ty_name)
}

/// The impl defines a method named `name`.
pub open spec fn defines_method(imp: ImplSummaryView, name: Seq<char>) -> bool {
    exists|j: int| 0 <= j < imp.members.len() && #[trigger] imp.members[j] == Some(name)
}

/// The source file parses and holds an impl of `trait_name` for `ty_name`.
pub open spec fn source_has_impl(contents: Seq<char>, trait_name: Seq<char>, ty_name: Seq<char>) -> bool {
    match parsed_source_items(contents) {
        Some(items) => exists|i: int|
            0 <= i < items.len() && (#[trigger] items[i] matches Some(imp) && impl_targets(
                imp,
                trait_name,
                ty_name,
            )),
        None => false,
    }
}

/// The source file parses and holds an impl of `trait_name` for `ty_name`
/// that defines a method named `method`.
pub open spec fn source_has_override(
    contents: Seq<char>,
    trait_name: Seq<char>,
    ty_name: Seq<char>,
    method: Seq<char>,
) -> bool {
    match parsed_source_items(contents) {
        Some(items) => exists|i: int|
            0 <= i < items.len() && (#[trigger] items[i] matches Some(imp) && impl_targets(
                imp,
                trait_name,
                ty_name,
            ) && defines_method(imp, method)),
        None => false,
    }
}

fn opt_string_is(s: &Option<String>, name: &str) -> (r: bool)
    ensures
        r == (opt_view(*s) == Some(name@)),
{
    match s {
        Some(v) => {
            let wanted = String::from_str(name);
            *v == wanted
        },
        None => false,
    }
}

fn opt_path_ends_in(p: &Option<Vec<String>>, name: &str) -> (r: bool)
    ensures
        r == (match opt_path_view(*p) {
            Some(segments) => last_segment(segments) == Some(name@),
            None => false,
        }),
{
    match p {
        Some(segments) => last_segment_is(segments, name),
        None => false,
    }
}

/// Whether the impl implements the trait whose path ends in `trait_name` for
/// the type whose path ends in `ty_name` (names compared exactly).
pub fn impl_targets_trait(item_impl: &ImplSummary, trait_name: &str, ty_name: &str) -> (r: bool)
    ensures
        r == impl_targets(item_impl@, trait_name@, ty_name@),
{
    if !opt_path_ends_in(&item_impl.trait_path, trait_name) {
        return false;
    }
    opt_path_ends_in(&item_impl.self_ty_path, ty_name)
}

fn defines_method_named(item_impl: &ImplSummary, name: &str) -> (r: bool)
    ensures
        r == defines_method(item_impl@, name@),
{
    let mut j: usize = 0;
    while j < item_impl.members.len()
        invariant
            j <= item_impl.members.len(),
            forall|k: int| 0 <= k < j ==> #[trigger] item_impl@.members[k] != Some(name@),
        decreases item_impl.members.len() - j,
    {
        if opt_string_is(&item_impl.members[j], name) {
            assert(item_impl@.members[j as int] == Some(name@));
            return true;
        }
        j = j + 1;
    }
    false
}

/// Whether `items` (the summaries of a source file's items) holds an impl of
/// the trait whose path ends in `trait_name` for the type whose path ends in
/// `ty_name`, which, when `method` is given, defines a method of that name.
pub fn items_contain(
    items: &Vec<Option<ImplSummary>>,
    trait_name: &str,
    ty_name: &str,
    method: Option<&str>,
) -> (r: bool)
    ensures
        r == exists|i: int|
            0 <= i < items@.len() && (#[trigger] items@[i] matches Some(imp) && impl_targets(
                imp@,
                trait_name@,
                ty_name@,
            ) && (method matches Some(m) ==> defines_method(imp@, m@))),
{
    let mut i: usize = 0;
    while i < items.len()
        invariant
            i <= items.len(),
            forall|k: int|
                0 <= k < i ==> !(#[trigger] items@[k] matches Some(imp) && impl_targets(
                    imp@,
                    trait_name@,
                    ty_name@,
                ) && (method matches Some(m) ==> defines_method(imp@, m@))),
        decreases items.len() - i,
    {
        if let Some(imp) = &items[i] {
            if impl_targets_trait(imp, trait_name, ty_name) {
                let found = match method {
                    Some(m) => defines_method_named(imp, m),
                    None => true,
                };
                if found {
                    return true;
                }
            }
        }
        i = i + 1;
    }
    false
}

/// Whether the source file parses and holds an impl of the asynchronous aspect
/// trait (`AsyncAspect`) for the type named `ty_name`.
/// It rests on `parse_source_items`; see there for the stack used on deeply
/// nested text.
pub fn file_contains_async_impl(contents: &str, ty_name: &str) -> (r: bool)
    ensures
        r == source_has_impl(contents@, "AsyncAspect"@, ty_name@),
{
    match parse_source_items(contents) {
        Some(items) => {
            let r = items_contain(&items, "AsyncAspect", ty_name, None);
            proof {
                let parsed = parsed_source_items(contents@).unwrap();
                if r {
                    let i = choose|i: int|
                        0 <= i < items@.len() && (#[trigger] items@[i] matches Some(imp)
                            && impl_targets(imp@, "AsyncAspect"@, ty_name@));
                    assert(parsed[i] == Some(items@[i].unwrap()@));
                } else {
                    assert forall|i: int| 0 <= i < parsed.len() implies !(#[trigger] parsed[i] matches Some(imp)
                        && impl_targets(imp, "AsyncAspect"@, ty_name@)) by {
                        assert(items@[i] matches Some(x) ==> parsed[i] == Some(x@));
                    }
                }
            }
            r
        },
        None => false,
    }
}

/// Whether the source file parses and holds an impl of `trait_name` for the
/// type named `ty_name` that overrides `around`.
/// It rests on `parse_source_items`; see there for the stack used on deeply
/// nested text.
pub fn file_contains_custom_around(contents: &str, trait_name: &str, ty_name: &str) -> (r: bool)
    ensures
        r == source_has_override(contents@, trait_name@, ty_name@, "around"@),
{
    match parse_source_items(contents) {
        Some(items) => {
            let r = items_contain(&items, trait_name, ty_name, Some("around"));
            proof {
                let parsed = parsed_source_items(contents@).unwrap();
                if r {
                    let i = choose|i: int|
                        0 <= i < items@.len() && (#[trigger] items@[i] matches Some(imp)
                            && impl_targets(imp@, trait_name@, ty_name@) && defines_method(imp@, "around"@));
                    assert(parsed[i] == Some(items@[i].unwrap()@));
                } else {
                    assert forall|i: int| 0 <= i < parsed.len() implies !(#[trigger] parsed[i] matches Some(imp)
                        && impl_targets(imp, trait_name@, ty_name@) && defines_method(imp, "around"@)) by {
                        assert(items@[i] matches Some(x) ==> parsed[i] == Some(x@));
                    }
                }
            }
            r
        },
        None => false,
    }
}

/// Whether the source file overrides `around` in an impl of the synchronous
/// aspect trait (`Aspect`) for the type named `ty_name`.
pub fn file_contains_custom_sync_around(contents: &str, ty_name: &str) -> (r: bool)
    ensures
        r == source_has_override(contents@, "Aspect"@, ty_name@, "around"@),
{
    file_contains_custom_around(contents, "Aspect", ty_name)
}

/// Whether the source file overrides `around` in an impl of the asynchronous
/// aspect trait (`AsyncAspect`) for the type named `ty_name`.
pub fn file_contains_custom_async_around(contents: &str, ty_name: &str) -> (r: bool)
    ensures
        r == source_has_override(contents@, "AsyncAspect"@, ty_name@, "around"@),
{
    file_contains_custom_around(contents, "AsyncAspect", ty_name)
}

/// An impl defines a method when any of its members, wherever it stands, is a
/// method of that name; and it implements a trait for a type when the last
/// segments of the trait's and the type's paths are those names.
pub proof fn impl_reading_rules(imp: ImplSummaryView, name: Seq<char>, trait_name: Seq<char>, ty_name: Seq<char>)
    ensures
        defines_method(imp, name) <==> imp.members.contains(Some(name)),
        forall|j: int| 0 <= j < imp.members.len() && imp.members[j] == Some(name)
            ==> defines_method(imp, name),
        impl_targets(imp, trait_name, ty_name) <==> (match imp.trait_path {
            Some(t) => t.len() > 0 && t[t.len() - 1] == trait_name,
            None => false,
        } && match imp.self_ty_path {
            Some(p) => p.len() > 0 && p[p.len() - 1] == ty_name,
            None => false,
        }),
{
    if defines_method(imp, name) {
        let j = choose|j: int| 0 <= j < imp.members.len() && #[trigger] imp.members[j] == Some(name);
        assert(imp.members.contains(Some(name)));
    }
    assert forall|j: int| 0 <= j < imp.members.len() && imp.members[j] == Some(name)
        implies defines_method(imp, name) by {
        assert(imp.members[j] == Some(name));
    }
}

/// A source file overrides a method of a trait for a type exactly when it
/// parses and one of its items is an impl of that trait for that type with a
/// member, anywhere among its members, that is a method of that name.
pub proof fn override_reading_rule(
    contents: Seq<char>,
    trait_name: Seq<char>,
    ty_name: Seq<char>,
    method: Seq<char>,
)
    ensures
        source_has_override(contents, trait_name, ty_name, method) <==> (match parsed_source_items(
            contents,
        ) {
            Some(items) => exists|i: int, j: int|
                0 <= i < items.len() && items[i] is Some && impl_targets(
                    items[i].unwrap(),
                    trait_name,
                    ty_name,
                ) && 0 <= j < items[i].unwrap().members.len() && #[trigger] items[i].unwrap().members[j]
                    == Some(method),
            None => false,
        }),
{
    if let Some(items) = parsed_source_items(contents) {
        if source_has_override(contents, trait_name, ty_name, method) {
            let i = choose|i: int|
                0 <= i < items.len() && (#[trigger] items[i] matches Some(imp) && impl_targets(
                    imp,
                    trait_name,
                    ty_name,
                ) && defines_method(imp, method));
            let imp = items[i].unwrap();
            let j = choose|j: int| 0 <= j < imp.members.len() && #[trigger] imp.members[j] == Some(method);
            assert(items[i].unwrap().members[j] == Some(method));
        }
        if exists|i: int, j: int|
            0 <= i < items.len() && items[i] is Some && impl_targets(
                items[i].unwrap(),
                trait_name,
                ty_name,
            ) && 0 <= j < items[i].unwrap().members.len() && #[trigger] items[i].unwrap().members[j]
                == Some(method) {
            let (i, j) = choose|i: int, j: int|
                0 <= i < items.len() && items[i] is Some && impl_targets(
                    items[i].unwrap(),
                    trait_name,
                    ty_name,
                ) && 0 <= j < items[i].unwrap().members.len() && #[trigger] items[i].unwrap().members[j]
                    == Some(method);
            let imp = items[i].unwrap();
            assert(imp.members[j] == Some(method));
            assert(defines_method(imp, method));
        }
    }
}

/// A source file that overrides a method in an impl of a trait for a type
/// holds an impl of that trait for that type; in particular a file that
/// overrides asynchronous `around` for a type makes it an asynchronous aspect.
pub proof fn override_implies_impl(
    contents: Seq<char>,
    trait_name: Seq<char>,
    ty_name: Seq<char>,
    method: Seq<char>,
)
    ensures
        source_has_override(contents, trait_name, ty_name, method) ==> source_has_impl(
            contents,
            trait_name,
            ty_name,
        ),
{
    if source_has_override(contents, trait_name, ty_name, method) {
        let items = parsed_source_items(contents).unwrap();
        let i = choose|i: int|
            0 <= i < items.len() && (#[trigger] items[i] matches Some(imp) && impl_targets(
                imp,
                trait_name,
                ty_name,
            ) && defines_method(imp, method));
        assert(items[i] matches Some(imp) && impl_targets(imp, trait_name, ty_name));
    }
}

} // verus!
