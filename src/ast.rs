//! The abstract syntax of the core language, gathered in one place.
pub use crate::ctx::Ctx;
pub use crate::exp::Exp;
pub use crate::var::{Idx, Var, VarIdx};
