use std::any::Any;
use std::sync::{Arc, Mutex};

use aspect_core::aspect::Aspect;
use aspect_core::error::AspectError;
use aspect_core::joinpoint::{
    AsyncJoinPoint, AsyncProceedingJoinPoint, JoinPoint, Location, ProceedingJoinPoint,
};
use aspect_core::lifecycle::{AroundPhase, AroundStep};

#[derive(Clone)]
struct TestAspect {
    called: Arc<Mutex<Vec<String>>>,
}

impl Default for TestAspect {
    fn default() -> Self {
        Self {
            called: Arc::new(Mutex::new(Vec::new())),
        }
    }
}

impl<A> Aspect<A, i32> for TestAspect {
    fn before(&self, ctx: &JoinPoint<A>) {
        self.called
            .lock()
            .unwrap()
            .push(format!("before:{}", ctx.function_name));
    }

    fn after(&self, ctx: &JoinPoint<A>, _result: &i32) {
        self.called
            .lock()
            .unwrap()
            .push(format!("after:{}", ctx.function_name));
    }

    fn after_error(&self, ctx: &JoinPoint<A>, _error: &AspectError) {
        self.called
            .lock()
            .unwrap()
            .push(format!("after_error:{}", ctx.function_name));
    }
}

fn sample_joinpoint(name: &'static str) -> JoinPoint<Box<dyn Any>> {
    JoinPoint {
        function_name: name,
        module: "test::module",
        location: Location {
            file: "test.rs",
            line: 42,
        },
        args: vec![Box::new(1i32) as Box<dyn Any>, Box::new(2i32) as Box<dyn Any>],
    }
}

#[test]
fn aspect_test_aspect_trait() {
    let aspect = TestAspect::default();
    let ctx: JoinPoint<Box<dyn Any>> = JoinPoint {
        function_name: "test_function",
        module: "test::module",
        location: Location {
            file: "test.rs",
            line: 42,
        },
        args: vec![],
    };

    aspect.before(&ctx);
    aspect.after(&ctx, &42);

    let calls = aspect.called.lock().unwrap();
    assert_eq!(calls.len(), 2);
    assert_eq!(calls[0], "before:test_function");
    assert_eq!(calls[1], "after:test_function");
}

#[test]
fn lib_test_aspect_trait() {
    let aspect = TestAspect::default();
    let ctx: JoinPoint<Box<dyn Any>> = JoinPoint {
        function_name: "test_function",
        module: "test::module",
        location: Location {
            file: "test.rs",
            line: 42,
        },
        args: vec![],
    };

    aspect.before(&ctx);
    aspect.after(&ctx, &42);

    let calls = aspect.called.lock().unwrap();
    assert_eq!(calls.len(), 2);
    assert_eq!(calls[0], "before:test_function");
    assert_eq!(calls[1], "after:test_function");
}

#[test]
fn test_joinpoint_creation() {
    let jp: JoinPoint<Box<dyn Any>> = JoinPoint {
        function_name: "my_function",
        module: "my::module",
        location: Location {
            file: "src/lib.rs",
            line: 100,
        },
        args: vec![],
    };

    assert_eq!(jp.function_name, "my_function");
    assert_eq!(jp.module, "my::module");
    assert_eq!(jp.location.file, "src/lib.rs");
    assert_eq!(jp.location.line, 100);
}

#[test]
fn test_joinpoint_qualified_name() {
    let jp: JoinPoint<Box<dyn Any>> = JoinPoint {
        function_name: "my_func",
        module: "crate::module",
        location: Location {
            file: "src/lib.rs",
            line: 10,
        },
        args: vec![],
    };

    assert_eq!(jp.qualified_name(), "crate::module::my_func");
}

#[test]
fn test_async_joinpoint_qualified_name() {
    let jp: AsyncJoinPoint<Box<dyn Any + Send + Sync>> = AsyncJoinPoint {
        function_name: "my_async_func",
        module: "crate::module",
        location: Location {
            file: "src/lib.rs",
            line: 20,
        },
        args: vec![],
    };

    assert_eq!(jp.qualified_name(), "crate::module::my_async_func");
}

#[test]
fn joinpoint_new_keeps_its_parts() {
    let location = Location { file: "src/main.rs", line: 7 };
    let jp = JoinPoint::new("run", "app", location, vec![3u8, 4u8]);
    assert_eq!(jp.function_name, "run");
    assert_eq!(jp.module, "app");
    assert_eq!(jp.location.line, 7);
    assert_eq!(jp.args, vec![3u8, 4u8]);
    let ajp = AsyncJoinPoint::new("serve", "net", location, vec![9u8]);
    assert_eq!(ajp.function_name, "serve");
    assert_eq!(ajp.args, vec![9u8]);
}

#[test]
fn joinpoint_display_strings() {
    let jp = sample_joinpoint("compute");
    assert_eq!(jp.display_string(), "test::module::compute@test.rs:42");
    assert_eq!(jp.location.display_string(), "test.rs:42");
    let ajp: AsyncJoinPoint<u8> = AsyncJoinPoint::new(
        "f",
        "m",
        Location { file: "a.rs", line: 4294967295 },
        vec![],
    );
    assert_eq!(ajp.display_string(), "m::f@a.rs:4294967295");
    let zero = Location { file: "z.rs", line: 0 };
    assert_eq!(zero.display_string(), "z.rs:0");
}

#[test]
fn proceeding_joinpoint_parts() {
    let pjp = ProceedingJoinPoint::new(|| Ok::<i32, AspectError>(7), sample_joinpoint("seven"));
    assert_eq!(pjp.context().function_name, "seven");
    assert_eq!(pjp.args().len(), 2);
    assert_eq!(pjp.args()[1].downcast_ref::<i32>(), Some(&2));
    let (ctx, f) = pjp.into_parts();
    assert_eq!(ctx.function_name, "seven");
    assert!(matches!(f(), Ok(7)));
}

#[test]
fn proceeding_joinpoint_proceed_returns_the_function_result() {
    let pjp = ProceedingJoinPoint::new(|| Ok::<i32, AspectError>(11), sample_joinpoint("eleven"));
    assert!(matches!(pjp.proceed(), Ok(11)));
    let failing = ProceedingJoinPoint::new(
        || Err::<i32, AspectError>(AspectError::execution("boom".to_string())),
        sample_joinpoint("boom"),
    );
    match failing.proceed() {
        Err(AspectError::Execution(m)) => assert_eq!(m, "boom"),
        Ok(_) => panic!("expected an error"),
    }
}

#[test]
fn async_proceeding_joinpoint_parts() {
    let ctx: AsyncJoinPoint<u32> = AsyncJoinPoint::new("a", "b", Location { file: "c", line: 1 }, vec![5, 6]);
    let pjp = AsyncProceedingJoinPoint::new(|| 99u32, ctx);
    assert_eq!(pjp.context().module, "b");
    assert_eq!(pjp.args(), &[5, 6]);
    let (ctx, f) = pjp.into_parts();
    assert_eq!(ctx.args, vec![5, 6]);
    assert_eq!(f(), 99);
}

#[test]
fn default_around_runs_before_then_after_on_success() {
    let aspect = TestAspect::default();
    let pjp = ProceedingJoinPoint::new(|| Ok::<i32, AspectError>(3), sample_joinpoint("ok_fn"));
    let r = aspect.around(pjp);
    assert!(matches!(r, Ok(3)));
    let calls = aspect.called.lock().unwrap();
    assert_eq!(*calls, vec!["before:ok_fn".to_string(), "after:ok_fn".to_string()]);
}

#[test]
fn default_around_runs_after_error_on_failure() {
    let aspect = TestAspect::default();
    let pjp = ProceedingJoinPoint::new(
        || Err::<i32, AspectError>(AspectError::execution("bad".to_string())),
        sample_joinpoint("bad_fn"),
    );
    let r = aspect.around(pjp);
    match r {
        Err(AspectError::Execution(m)) => assert_eq!(m, "bad"),
        Ok(_) => panic!("expected the error to pass through"),
    }
    let calls = aspect.called.lock().unwrap();
    assert_eq!(*calls, vec!["before:bad_fn".to_string(), "after_error:bad_fn".to_string()]);
}

fn lifecycle_steps(ok: bool) -> Vec<AroundStep> {
    let mut phase = AroundPhase::start();
    let mut steps = Vec::new();
    for _ in 0..5 {
        steps.push(phase.step());
        phase = phase.advance(ok);
    }
    steps
}

#[test]
fn around_lifecycle_order() {
    assert_eq!(
        lifecycle_steps(true),
        vec![
            AroundStep::Before,
            AroundStep::Proceed,
            AroundStep::After,
            AroundStep::Return,
            AroundStep::Return
        ]
    );
    assert_eq!(
        lifecycle_steps(false),
        vec![
            AroundStep::Before,
            AroundStep::Proceed,
            AroundStep::AfterError,
            AroundStep::Return,
            AroundStep::Return
        ]
    );
}
