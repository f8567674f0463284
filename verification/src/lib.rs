//! A minimal engine for arithmetic expressions stored as flattened,
//! pre-order sequences of tagged nodes.
//!
//! A program is an ordered list of [`program::Node`] values.  The engine
//! validates that such a list decodes to exactly one well-formed expression
//! tree, evaluates it against caller-supplied inputs and constants, and can
//! render it back into a readable parenthesized form for diagnostics.
//!
//! The operator catalogs are closed sets described by the [`binary_op::BinaryOp`]
//! and [`ternary_op::TernaryOp`] traits; the 32-bit integer catalog lives here
//! and is verified, while callers may instantiate the engine with catalogs of
//! their own for other scalar types.

pub mod binary_op;
pub mod program;
pub mod ternary_op;
pub mod text;
