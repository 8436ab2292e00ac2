//! A source-to-source transformer for fallible functions.
//!
//! Given an in-memory description of a function whose declared result is a
//! two-arm success/failure sum type, the transformer produces a rewritten
//! function that returns nothing: it evaluates the original computation once,
//! and on failure constructs a [`runtime::SystemErrorEvent`] and sends it
//! through an injected error-sink parameter instead of returning the error.
//!
//! The crate is split into the syntactic data model ([`ast`]), the parameter
//! placement policy ([`policy`]), the rewriting pipeline ([`transform`]) and a
//! model of the runtime behaviour of the generated code ([`runtime`]).

pub mod ast;
pub mod policy;
pub mod runtime;
pub mod transform;
