//! The boundary layer of the Corvus expression language: the value
//! abstraction over one dynamic host datum, the call and signature shapes
//! with their argument-resolution rules, and the source-code generator that
//! lowers a typed syntax tree to host source text.
//!
//! The host runtime itself (its object heap, its evaluator, the parser and
//! the type checker) stays outside this crate; everything here works on
//! plain modeled values, so that every rule of the boundary is stated and
//! proved.

pub mod apply;
pub mod classes;
pub mod emitter;
pub mod error;
pub mod helpers;
pub mod syntax;
pub mod value;
