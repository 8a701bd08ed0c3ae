use aspect_core::inspect::{
    file_contains_async_impl, file_contains_custom_around, file_contains_custom_async_around,
    file_contains_custom_sync_around, impl_targets_trait, items_contain, ImplSummary,
};
use aspect_core::scan::{is_rust_source, source_matches, ScanAction, ScanEvent, SourceQuery, SourceScan};
use aspect_core::syntax::{
    collect_pat_idents, extract_aspect_type_name, is_impl_into_response, is_result_type,
    AspectExpr, BoundShape, FnShape, ParamShape, PatShape, TypeShape,
};
use aspect_core::weave::{
    capture_names, plan_aspect_wrapper, plan_async_aspect_wrapper, transform,
    validate_aspect_usage, AspectInfo, CallTemplate, UsageError, WrapperKind,
};

fn path(segments: &[&str]) -> Vec<String> {
    segments.iter().map(|s| s.to_string()).collect()
}

fn aspect_path(name: &str) -> AspectExpr {
    AspectExpr::Path(path(&[name]))
}

fn demo(is_async: bool, output: Option<TypeShape>) -> FnShape {
    FnShape {
        name: "demo".to_string(),
        is_async,
        output,
        params: vec![ParamShape::Typed(PatShape::Typed(Box::new(PatShape::Ident("a".to_string()))))],
    }
}

#[test]
fn detects_custom_sync_around_even_with_other_methods() {
    let source = r#"
        impl Aspect for Logger {
            fn before(&self, ctx: &JoinPoint) {
                if ctx.args.is_empty() {
                    println!("empty");
                }
            }

            fn around(&self, pjp: ProceedingJoinPoint) -> Result<Box<dyn Any>, AspectError> {
                pjp.proceed()
            }
        }
    "#;

    assert!(file_contains_custom_sync_around(source, "Logger"));
}

#[test]
fn detects_async_impl_from_ast() {
    let source = r#"
        impl AsyncAspect for Logger1 {
            async fn before(&self, _ctx: &AsyncJoinPoint) {}
        }
    "#;

    assert!(file_contains_async_impl(source, "Logger1"));
}

#[test]
fn detects_custom_async_around() {
    let source = r#"
        impl AsyncAspect for Logger1 {
            async fn around(&self, pjp: AsyncProceedingJoinPoint<'_>) -> Result<Box<dyn Any + Send + Sync>, AspectError> {
                pjp.proceed().await
            }
        }
    "#;

    assert!(file_contains_custom_async_around(source, "Logger1"));
}

#[test]
fn rejects_async_aspect_on_sync_function() {
    let func = FnShape { name: "demo".to_string(), is_async: false, output: None, params: vec![] };

    let err = validate_aspect_usage(
        &func,
        true,
        &AspectInfo::parse(aspect_path("Logger1")).unwrap(),
    )
    .unwrap_err();
    assert!(err
        .message()
        .contains("async aspects can only be applied to async fn"));
}

#[test]
fn rejects_custom_sync_around_on_async_function() {
    let func = FnShape { name: "demo".to_string(), is_async: true, output: None, params: vec![] };
    let mut aspect_info = AspectInfo::parse(aspect_path("Logger")).unwrap();
    aspect_info.has_custom_sync_around = true;

    let err = validate_aspect_usage(&func, false, &aspect_info).unwrap_err();

    assert!(err
        .message()
        .contains("sync aspects that override around() cannot be applied to async fn"));
}

#[test]
fn rejects_custom_async_around_on_impl_trait_async_function() {
    let func = FnShape {
        name: "demo".to_string(),
        is_async: true,
        output: Some(TypeShape::ImplTrait(vec![BoundShape::Trait(path(&["IntoResponse"]))])),
        params: vec![],
    };
    let mut aspect_info = AspectInfo::parse(aspect_path("Logger1")).unwrap();
    aspect_info.has_custom_async_around = true;

    let err = validate_aspect_usage(&func, true, &aspect_info).unwrap_err();

    assert!(err.message().contains(
        "async aspects that override around() cannot be applied to async fn returning impl Trait"
    ));
}

#[test]
fn test_is_result_type() {
    let result_type = TypeShape::Path(path(&["Result"]));
    assert!(is_result_type(&result_type));

    let non_result_type = TypeShape::Path(path(&["i32"]));
    assert!(!is_result_type(&non_result_type));
}

#[test]
fn test_is_impl_into_response() {
    let impl_into_response = TypeShape::ImplTrait(vec![BoundShape::Trait(path(&["IntoResponse"]))]);
    assert!(is_impl_into_response(&impl_into_response));

    let impl_debug = TypeShape::ImplTrait(vec![BoundShape::Trait(path(&["core", "fmt", "Debug"]))]);
    assert!(!is_impl_into_response(&impl_debug));
}

#[test]
fn test_collect_pat_idents_tuple_struct() {
    let pat = PatShape::TupleStruct(vec![PatShape::Ident("params".to_string())]);
    let mut out = Vec::new();
    collect_pat_idents(&pat, &mut out);
    assert_eq!(out.len(), 1);
    assert_eq!(out[0], "params");
}

#[test]
fn collect_pat_idents_nested_and_or() {
    let pat = PatShape::Tuple(vec![
        PatShape::Reference(Box::new(PatShape::Ident("a".to_string()))),
        PatShape::Struct(vec![
            PatShape::Ident("x".to_string()),
            PatShape::Paren(Box::new(PatShape::Ident("y".to_string()))),
        ]),
        PatShape::Or(vec![PatShape::Ident("first".to_string()), PatShape::Ident("second".to_string())]),
        PatShape::Slice(vec![PatShape::Other, PatShape::Ident("z".to_string())]),
        PatShape::Or(vec![]),
    ]);
    let mut out = vec!["kept".to_string()];
    collect_pat_idents(&pat, &mut out);
    assert_eq!(out, vec!["kept", "a", "x", "y", "first", "z"]);
}

#[test]
fn extracts_aspect_type_names() {
    assert_eq!(extract_aspect_type_name(&aspect_path("Logger")), Some("Logger".to_string()));
    let call = AspectExpr::MethodCall(Box::new(AspectExpr::Call(Box::new(AspectExpr::Path(path(&[
        "aspects", "Timer", "new",
    ]))))));
    assert_eq!(extract_aspect_type_name(&call), Some("new".to_string()));
    let reference = AspectExpr::Reference(Box::new(AspectExpr::Paren(Box::new(aspect_path("Cache")))));
    assert_eq!(extract_aspect_type_name(&reference), Some("Cache".to_string()));
    assert_eq!(extract_aspect_type_name(&AspectExpr::Other), None);
    assert_eq!(extract_aspect_type_name(&AspectExpr::Path(vec![])), None);
}

#[test]
fn usage_error_messages_are_complete() {
    assert_eq!(
        UsageError::AsyncAspectOnSyncFn.message(),
        "async aspects can only be applied to async fn; sync fn must use a type that implements Aspect"
    );
    assert_eq!(
        UsageError::SyncAroundOnAsyncFn.message(),
        "sync aspects that override around() cannot be applied to async fn; implement AsyncAspect or rely on before/after/after_error only"
    );
    assert_eq!(
        UsageError::AsyncAroundOnImplTraitFn.message(),
        "async aspects that override around() cannot be applied to async fn returning impl Trait; use a concrete return type or rely on before/after/after_error only"
    );
}

#[test]
fn accepts_permitted_usages() {
    let info = AspectInfo::parse(aspect_path("Logger")).unwrap();
    assert_eq!(validate_aspect_usage(&demo(false, None), false, &info), Ok(()));
    assert_eq!(validate_aspect_usage(&demo(true, None), false, &info), Ok(()));
    assert_eq!(validate_aspect_usage(&demo(true, None), true, &info), Ok(()));
    let mut overriding = AspectInfo::parse(aspect_path("Logger")).unwrap();
    overriding.has_custom_async_around = true;
    let impl_debug = Some(TypeShape::ImplTrait(vec![BoundShape::Trait(path(&["Debug"]))]));
    assert_eq!(validate_aspect_usage(&demo(true, impl_debug.clone_shape()), false, &overriding), Ok(()));
    assert_eq!(
        validate_aspect_usage(&demo(true, impl_debug), true, &overriding),
        Err(UsageError::AsyncAroundOnImplTraitFn)
    );
}

trait CloneShape {
    fn clone_shape(&self) -> Self;
}

impl CloneShape for Option<TypeShape> {
    fn clone_shape(&self) -> Self {
        match self {
            None => None,
            Some(TypeShape::Path(p)) => Some(TypeShape::Path(p.clone())),
            Some(TypeShape::Other) => Some(TypeShape::Other),
            Some(TypeShape::ImplTrait(bounds)) => Some(TypeShape::ImplTrait(
                bounds
                    .iter()
                    .map(|b| match b {
                        BoundShape::Trait(p) => BoundShape::Trait(p.clone()),
                        BoundShape::Other => BoundShape::Other,
                    })
                    .collect(),
            )),
        }
    }
}

#[test]
fn plans_sync_wrappers() {
    let plan = plan_aspect_wrapper(&demo(false, Some(TypeShape::Path(path(&["i32"])))));
    assert_eq!(plan.kind, WrapperKind::Sync);
    assert_eq!(plan.template, CallTemplate::SyncPlain);
    assert_eq!(plan.original_name, "__aspect_original_demo");
    assert_eq!(plan.function_name, "demo");
    assert_eq!(plan.arg_idents, vec!["a"]);
    assert_eq!(plan.capture_idents, vec!["__aspect_arg_0"]);
    let plan = plan_aspect_wrapper(&demo(false, Some(TypeShape::Path(path(&["std", "result", "Result"])))));
    assert_eq!(plan.template, CallTemplate::SyncResult);
}

#[test]
fn receivers_record_no_argument() {
    let method = FnShape {
        name: "handle".to_string(),
        is_async: false,
        output: None,
        params: vec![
            ParamShape::Receiver,
            ParamShape::Typed(PatShape::Ident("x".to_string())),
            ParamShape::Typed(PatShape::Tuple(vec![PatShape::Ident("y".to_string()), PatShape::Other])),
        ],
    };
    let plan = plan_aspect_wrapper(&method);
    assert_eq!(plan.arg_idents, vec!["x", "y"]);
    assert_eq!(plan.capture_idents, vec!["__aspect_arg_0", "__aspect_arg_1"]);
}

#[test]
fn plans_blocking_wrappers_for_async_functions_with_sync_aspects() {
    let plan = plan_aspect_wrapper(&demo(true, Some(TypeShape::Path(path(&["i32"])))));
    assert_eq!(plan.template, CallTemplate::BlockingPlain);
    let into_response = Some(TypeShape::ImplTrait(vec![BoundShape::Trait(path(&["IntoResponse"]))]));
    assert_eq!(plan_aspect_wrapper(&demo(true, into_response)).template, CallTemplate::BlockingResponse);
    let result = Some(TypeShape::Path(path(&["Result"])));
    assert_eq!(plan_aspect_wrapper(&demo(true, result)).template, CallTemplate::BlockingResult);
}

#[test]
fn plans_async_wrappers() {
    let plan = plan_async_aspect_wrapper(&demo(true, Some(TypeShape::Path(path(&["i32"])))));
    assert_eq!(plan.kind, WrapperKind::Async);
    assert_eq!(plan.template, CallTemplate::AsyncPlain);
    assert_eq!(plan.original_name, "__async_aspect_original_demo");
    let into_response = Some(TypeShape::ImplTrait(vec![
        BoundShape::Other,
        BoundShape::Trait(path(&["axum", "response", "IntoResponse"])),
    ]));
    assert_eq!(plan_async_aspect_wrapper(&demo(true, into_response)).template, CallTemplate::AsyncResponse);
    let impl_debug = Some(TypeShape::ImplTrait(vec![BoundShape::Trait(path(&["core", "fmt", "Debug"]))]));
    assert_eq!(plan_async_aspect_wrapper(&demo(true, impl_debug)).template, CallTemplate::AsyncBeforeOnly);
    let result = Some(TypeShape::Path(path(&["Result"])));
    assert_eq!(plan_async_aspect_wrapper(&demo(true, result)).template, CallTemplate::AsyncResult);
}

#[test]
fn transform_picks_wrapper_or_refuses() {
    let info = AspectInfo::parse(aspect_path("Logger1")).unwrap();
    let plan = transform(&demo(true, None), true, &info).unwrap();
    assert_eq!(plan.kind, WrapperKind::Async);
    let plan = transform(&demo(true, None), false, &info).unwrap();
    assert_eq!(plan.kind, WrapperKind::Sync);
    assert_eq!(plan.template, CallTemplate::BlockingPlain);
    assert_eq!(transform(&demo(false, None), true, &info).err(), Some(UsageError::AsyncAspectOnSyncFn));
}

#[test]
fn capture_names_are_numbered() {
    let names = capture_names(12);
    assert_eq!(names.len(), 12);
    assert_eq!(names[0], "__aspect_arg_0");
    assert_eq!(names[9], "__aspect_arg_9");
    assert_eq!(names[10], "__aspect_arg_10");
    assert_eq!(names[11], "__aspect_arg_11");
}

#[test]
fn custom_around_needs_the_right_trait_and_type() {
    let source = r#"
        impl AsyncAspect for Other { async fn around(&self) {} }
        impl Aspect for Logger { fn before(&self) {} }
        impl Logger { fn around(&self) {} }
        struct Logger;
    "#;
    assert!(!file_contains_custom_sync_around(source, "Logger"));
    assert!(!file_contains_custom_async_around(source, "Logger"));
    assert!(file_contains_custom_async_around(source, "Other"));
    assert!(file_contains_custom_around(source, "AsyncAspect", "Other"));
    assert!(!file_contains_async_impl(source, "Logger"));
    assert!(file_contains_async_impl(source, "Other"));
}

#[test]
fn unparsable_sources_hold_nothing() {
    let source = "impl AsyncAspect for Logger1 { fn around(";
    assert!(!file_contains_async_impl(source, "Logger1"));
    assert!(!file_contains_custom_async_around(source, "Logger1"));
}

fn summary(trait_path: Option<&[&str]>, self_ty_path: Option<&[&str]>, members: Vec<Option<String>>) -> ImplSummary {
    ImplSummary {
        trait_path: trait_path.map(path),
        self_ty_path: self_ty_path.map(path),
        members,
    }
}

#[test]
fn impl_targets_trait_compares_last_segments() {
    let imp = summary(Some(&["AsyncAspect"]), Some(&["Logger1"]), vec![None, Some("around".to_string())]);
    assert!(impl_targets_trait(&imp, "AsyncAspect", "Logger1"));
    assert!(!impl_targets_trait(&imp, "Aspect", "Logger1"));
    assert!(!impl_targets_trait(&imp, "AsyncAspect", "Logger"));
    let qualified = summary(Some(&["aspect_core", "Aspect"]), Some(&["crate", "Logger"]), vec![]);
    assert!(impl_targets_trait(&qualified, "Aspect", "Logger"));
    assert!(!impl_targets_trait(&qualified, "aspect_core", "crate"));
    let inherent = summary(None, Some(&["Logger1"]), vec![]);
    assert!(!impl_targets_trait(&inherent, "AsyncAspect", "Logger1"));
    let not_a_path = summary(Some(&["Aspect"]), None, vec![]);
    assert!(!impl_targets_trait(&not_a_path, "Aspect", "Logger"));
}

#[test]
fn items_contain_reads_summaries() {
    let items = vec![
        None,
        Some(summary(Some(&["Aspect"]), Some(&["Timer"]), vec![Some("before".to_string())])),
        Some(summary(Some(&["AsyncAspect"]), Some(&["Timer"]), vec![None, Some("around".to_string())])),
    ];
    assert!(items_contain(&items, "Aspect", "Timer", None));
    assert!(!items_contain(&items, "Aspect", "Timer", Some("around")));
    assert!(items_contain(&items, "AsyncAspect", "Timer", Some("around")));
    assert!(!items_contain(&items, "AsyncAspect", "Logger", None));
    assert!(!items_contain(&vec![], "Aspect", "Timer", None));
}

#[test]
fn source_queries_dispatch() {
    let source = "impl aspect_core::Aspect for crate::x::Timer { fn around(&self) {} }";
    assert!(source_matches(SourceQuery::CustomSyncAround, source, "Timer"));
    assert!(!source_matches(SourceQuery::CustomAsyncAround, source, "Timer"));
    assert!(!source_matches(SourceQuery::AsyncImpl, source, "Timer"));
}

#[test]
fn rust_sources_are_selected_by_extension() {
    assert!(is_rust_source("lib.rs"));
    assert!(is_rust_source("a.b.rs"));
    assert!(!is_rust_source(".rs"));
    assert!(!is_rust_source("rs"));
    assert!(!is_rust_source("main.rs.bak"));
    assert!(!is_rust_source("notes.txt"));
    assert!(!is_rust_source(""));
    assert!(!is_rust_source(".."));
}

fn run_scan(
    tree: &[(&'static str, Option<Vec<&'static str>>, Option<&'static str>)],
    query: SourceQuery,
    name: &str,
) -> (bool, Vec<&'static str>) {
    // Each entry: a path, its entries when it is a directory, its contents when it is a readable file.
    let mut scan = SourceScan::new(tree[0].0, query, name.to_string());
    let mut visited = Vec::new();
    let mut event = ScanEvent::Begin;
    loop {
        event = match scan.step(event) {
            ScanAction::Finish(found) => return (found, visited),
            ScanAction::Visit(p) => {
                visited.push(p);
                match tree.iter().find(|(q, _, _)| *q == p) {
                    None => ScanEvent::Missing,
                    Some((_, Some(entries), _)) => ScanEvent::Directory(Some(entries.clone())),
                    Some((_, None, _)) => ScanEvent::File(p, p.rsplit('/').next().unwrap().to_string()),
                }
            }
            ScanAction::Read(p) => {
                let contents = tree.iter().find(|(q, _, _)| *q == p).and_then(|(_, _, c)| *c);
                ScanEvent::Contents(contents.map(|c| c.to_string()))
            }
        };
    }
}

#[test]
fn scan_visits_depth_first_and_stops_at_a_match() {
    let tree = [
        ("root", Some(vec!["root/a.rs", "root/sub", "root/gone"]), None),
        ("root/sub", Some(vec!["root/sub/x.txt", "root/sub/m.rs"]), None),
        ("root/sub/x.txt", None, Some("impl AsyncAspect for Logger1 {}")),
        ("root/sub/m.rs", None, Some("impl AsyncAspect for Logger1 {}")),
        ("root/a.rs", None, Some("fn main() {}")),
    ];
    let (found, visited) = run_scan(&tree, SourceQuery::AsyncImpl, "Logger1");
    assert!(found);
    assert_eq!(visited, vec!["root", "root/gone", "root/sub", "root/sub/m.rs"]);
    let (found, visited) = run_scan(&tree, SourceQuery::CustomAsyncAround, "Logger1");
    assert!(!found);
    assert_eq!(
        visited,
        vec!["root", "root/gone", "root/sub", "root/sub/m.rs", "root/sub/x.txt", "root/a.rs"]
    );
}

#[test]
fn scan_skips_unreadable_directories_and_files() {
    let tree = [
        ("top", Some(vec!["top/locked", "top/lib.rs"]), None),
        ("top/locked", None, None),
        ("top/lib.rs", None, None),
    ];
    let mut scan = SourceScan::new("top", SourceQuery::AsyncImpl, "X".to_string());
    assert!(matches!(scan.step(ScanEvent::Begin), ScanAction::Visit("top")));
    assert!(matches!(scan.step(ScanEvent::Directory(None)), ScanAction::Finish(false)));
    let (found, visited) = run_scan(&tree, SourceQuery::AsyncImpl, "X");
    assert!(!found);
    assert_eq!(visited, vec!["top", "top/lib.rs", "top/locked"]);
}
