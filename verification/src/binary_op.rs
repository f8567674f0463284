//! The catalog of binary operators.

use vstd::prelude::*;

verus! {

/// One pure, total binary function over the scalar type `T`, together with a
/// stable display token.  The catalog of operators for a given scalar type is
/// a closed, exhaustively matchable set: no open extensibility is required.
pub trait BinaryOp<T> {
    /// The mathematical meaning of the operator.  A catalog that is itself
    /// verified overrides this with its real semantics; one supplied from
    /// unverified code may leave it at the default, about which nothing is
    /// known.
    open spec fn spec_run(&self, lhs: T, rhs: T) -> T {
        arbitrary()
    }

    /// The display token, as a sequence of characters; see `spec_run` on
    /// overriding.
    open spec fn spec_repr(&self) -> Seq<char> {
        arbitrary()
    }

    /// Apply the operator to two operands.
    fn run(&self, lhs: T, rhs: T) -> (r: T)
        ensures
            r == self.spec_run(lhs, rhs),
    ;

    /// The human-readable token used by the textual rendering.
    fn repr(&self) -> (r: &'static str)
        ensures
            r@ == self.spec_repr(),
    ;
}

/// The binary operators over 32-bit integers.
///
/// All operators are total: addition, subtraction and multiplication wrap on
/// overflow; division yields 0 (by explicit policy, not as an error) when the
/// divisor is 0 or when the quotient overflows; the shifts use only the low
/// five bits of the right operand.
#[derive(Debug, Clone, Copy)]
pub enum BinaryOpI32 {
    Add,
    Sub,
    Mul,
    Div,
    Xor,
    And,
    Or,
    Shl,
    Shr,
}

impl BinaryOp<i32> for BinaryOpI32 {
    open spec fn spec_run(&self, lhs: i32, rhs: i32) -> i32 {
        match *self {
            BinaryOpI32::Add => vstd::wrapping::i32_specs::wrapping_add(lhs, rhs),
            BinaryOpI32::Sub => vstd::wrapping::i32_specs::wrapping_sub(lhs, rhs),
            BinaryOpI32::Mul => vstd::wrapping::i32_specs::wrapping_mul(lhs, rhs),
            BinaryOpI32::Div => match lhs.checked_div(rhs) {
                Some(q) => q,
                None => 0,
            },
            BinaryOpI32::Xor => lhs ^ rhs,
            BinaryOpI32::And => lhs & rhs,
            BinaryOpI32::Or => lhs | rhs,
            BinaryOpI32::Shl => vstd::wrapping::i32_specs::wrapping_shl(lhs, (rhs & 31) as u32),
            BinaryOpI32::Shr => vstd::wrapping::i32_specs::wrapping_shr(lhs, (rhs & 31) as u32),
        }
    }

    open spec fn spec_repr(&self) -> Seq<char> {
        match *self {
            BinaryOpI32::Add => "+"@,
            BinaryOpI32::Sub => "-"@,
            BinaryOpI32::Mul => "*"@,
            BinaryOpI32::Div => "/"@,
            BinaryOpI32::Xor => "^"@,
            BinaryOpI32::And => "&"@,
            BinaryOpI32::Or => "|"@,
            BinaryOpI32::Shl => "<<"@,
            BinaryOpI32::Shr => ">>"@,
        }
    }

    fn run(&self, lhs: i32, rhs: i32) -> (r: i32)
        ensures
            r == self.spec_run(lhs, rhs),
    {
        match *self {
            BinaryOpI32::Add => lhs.wrapping_add(rhs),
            BinaryOpI32::Sub => lhs.wrapping_sub(rhs),
            BinaryOpI32::Mul => lhs.wrapping_mul(rhs),
            BinaryOpI32::Div => match lhs.checked_div(rhs) {
                Some(q) => q,
                None => 0,
            },
            BinaryOpI32::Xor => lhs ^ rhs,
            BinaryOpI32::And => lhs & rhs,
            BinaryOpI32::Or => lhs | rhs,
            BinaryOpI32::Shl => {
                let amount: i32 = rhs & 31;
                assert(0 <= (rhs & 31) < 32) by (bit_vector);
                lhs.wrapping_shl(amount as u32)
            },
            BinaryOpI32::Shr => {
                let amount: i32 = rhs & 31;
                assert(0 <= (rhs & 31) < 32) by (bit_vector);
                lhs.wrapping_shr(amount as u32)
            },
        }
    }

    fn repr(&self) -> (r: &'static str)
        ensures
            r@ == self.spec_repr(),
    {
        match *self {
            BinaryOpI32::Add => "+",
            BinaryOpI32::Sub => "-",
            BinaryOpI32::Mul => "*",
            BinaryOpI32::Div => "/",
            BinaryOpI32::Xor => "^",
            BinaryOpI32::And => "&",
            BinaryOpI32::Or => "|",
            BinaryOpI32::Shl => "<<",
            BinaryOpI32::Shr => ">>",
        }
    }
}

} // verus!
