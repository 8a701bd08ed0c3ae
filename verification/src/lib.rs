//! Core abstractions for aspect-oriented programming: join points, aspects,
//! and the decision logic of the aspect-weaving attribute.

pub mod aspect;
pub mod error;
pub mod inspect;
pub mod joinpoint;
pub mod lifecycle;
pub mod prelude;
pub mod report;
pub mod scan;
pub mod syntax;
pub mod text;
pub mod weave;
pub mod web;

pub use aspect::Aspect;
pub use error::AspectError;
pub use joinpoint::{
    AsyncJoinPoint, AsyncProceedingJoinPoint, JoinPoint, Location, ProceedingJoinPoint,
};
