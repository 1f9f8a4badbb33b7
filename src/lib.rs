//! A dependently typed λ-calculus kernel: expressions with de Bruijn indices, substitution,
//! β-reduction to normal form, and type derivation for a pure type system with the sorts `*`
//! and `□`; with the plain data of an interactive shell around it.
pub mod ast;
pub mod buf;
pub mod ctx;
pub mod edt;
pub mod err;
pub mod exp;
pub mod laws;
pub mod par;
pub mod term;
pub mod var;
