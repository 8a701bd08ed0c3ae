//! The items that woven code brings into scope.

pub use crate::aspect::Aspect;
pub use crate::error::AspectError;
pub use crate::joinpoint::{
    AsyncJoinPoint, AsyncProceedingJoinPoint, JoinPoint, Location, ProceedingJoinPoint,
};
