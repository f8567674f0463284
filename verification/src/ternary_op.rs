//! The catalog of ternary operators.

use vstd::prelude::*;

verus! {

/// One pure, total ternary function over the scalar type `T`, together with a
/// stable display token.  Like [`crate::binary_op::BinaryOp`], a catalog is a
/// closed, exhaustively matchable set.
pub trait TernaryOp<T> {
    /// The mathematical meaning of the operator.  A catalog that is itself
    /// verified overrides this with its real semantics; one supplied from
    /// unverified code may leave it at the default, about which nothing is
    /// known.
    open spec fn spec_run(&self, a: T, b: T, c: T) -> T {
        arbitrary()
    }

    /// The display token, as a sequence of characters; see `spec_run` on
    /// overriding.
    open spec fn spec_repr(&self) -> Seq<char> {
        arbitrary()
    }

    /// Apply the operator to three operands.
    fn run(&self, a: T, b: T, c: T) -> (r: T)
        ensures
            r == self.spec_run(a, b, c),
    ;

    /// The human-readable token used by the textual rendering.
    fn repr(&self) -> (r: &'static str)
        ensures
            r@ == self.spec_repr(),
    ;
}

/// The ternary operators over 32-bit integers.
///
/// `Clamp` is defined as `min(max(a, b), c)`.  Note that this differs from the
/// conventional "clamp the value `a` into `[lo, hi]`" reading whenever
/// `b > c`; the ordering is deliberate policy and is pinned by a test.
#[derive(Debug, Clone, Copy)]
pub enum TernaryOpI32 {
    Clamp,
}

impl TernaryOp<i32> for TernaryOpI32 {
    open spec fn spec_run(&self, a: i32, b: i32, c: i32) -> i32 {
        match *self {
            TernaryOpI32::Clamp => vstd::math::min(vstd::math::max(a as int, b as int), c as int) as i32,
        }
    }

    open spec fn spec_repr(&self) -> Seq<char> {
        match *self {
            TernaryOpI32::Clamp => "clamp"@,
        }
    }

    fn run(&self, a: i32, b: i32, c: i32) -> (r: i32)
        ensures
            r == self.spec_run(a, b, c),
    {
        match *self {
            TernaryOpI32::Clamp => {
                let m: i32 = if a >= b { a } else { b };
                if m <= c { m } else { c }
            },
        }
    }

    fn repr(&self) -> (r: &'static str)
        ensures
            r@ == self.spec_repr(),
    {
        match *self {
            TernaryOpI32::Clamp => "clamp",
        }
    }
}

} // verus!
