//! Textual rendering of programs, for diagnostics.
//!
//! The renderer mirrors the arity and traversal rules of evaluation but emits
//! tokens instead of computing values: `a{n}` for an input, `l{n}` for a
//! local, `c{n}` for a constant, `(op child...)` for an operator application,
//! and `(let l{n} bound body)` for a let-binding.  Let-bindings are labelled
//! in traversal order: `l{n}` names the let introduced by the `n`-th
//! `LetIntroduce` node of the sequence.  The output is for logs and tests; no
//! corresponding parser exists.

use vstd::prelude::*;

use crate::binary_op::BinaryOp;
use crate::program::{lets_opened_before, Node, ProgramError};
use crate::program::{lemma_lets_opened_step, spec_validate, spec_validate_from};
use crate::ternary_op::TernaryOp;

verus! {

/// The single decimal digit `d`, as text.
pub open spec fn spec_digit(d: int) -> Seq<char> {
    if d == 0 {
        "0"@
    } else if d == 1 {
        "1"@
    } else if d == 2 {
        "2"@
    } else if d == 3 {
        "3"@
    } else if d == 4 {
        "4"@
    } else if d == 5 {
        "5"@
    } else if d == 6 {
        "6"@
    } else if d == 7 {
        "7"@
    } else if d == 8 {
        "8"@
    } else {
        "9"@
    }
}

/// The decimal rendering of `n`, most significant digit first.
pub open spec fn spec_decimal(n: nat) -> Seq<char>
    decreases n,
{
    if n < 10 {
        spec_digit(n as int)
    } else {
        spec_decimal(n / 10) + spec_digit((n % 10) as int)
    }
}

/// The single decimal digit `d`, as a string slice.
fn digit_str(d: usize) -> (r: &'static str)
    requires
        d < 10,
    ensures
        r@ == spec_digit(d as int),
{
    match d {
        0 => "0",
        1 => "1",
        2 => "2",
        3 => "3",
        4 => "4",
        5 => "5",
        6 => "6",
        7 => "7",
        8 => "8",
        _ => "9",
    }
}

/// Render `n` in decimal.
fn decimal(n: usize) -> (s: String)
    ensures
        s@ == spec_decimal(n as nat),
    decreases n,
{
    if n < 10 {
        String::from_str(digit_str(n))
    } else {
        let mut s = decimal(n / 10);
        s.append(digit_str(n % 10));
        s
    }
}

/// The rendering walk over `nodes`, starting at `pos` with `lets`
/// let-bindings already labelled.
///
/// On success it yields the subtree's text, the cursor position just past the
/// subtree, and the updated label counter.  As in evaluation, a cursor that
/// runs off the end of the sequence fails with `InvalidTree`, a successful
/// sub-walk always advances the cursor, and the guard arms only bound the
/// recursion.
pub open spec fn spec_render_from<T, BOP: BinaryOp<T>, TOP: TernaryOp<T>>(
    nodes: Seq<Node<BOP, TOP>>,
    pos: int,
    lets: nat,
) -> Result<(Seq<char>, int, nat), ProgramError>
    decreases nodes.len() - pos,
{
    if pos < 0 || pos >= nodes.len() {
        Err(ProgramError::InvalidTree)
    } else {
        match nodes[pos] {
            Node::Input(index) => Ok(("a"@ + spec_decimal(index as nat), pos + 1, lets)),
            Node::Local(index) => Ok(("l"@ + spec_decimal(index as nat), pos + 1, lets)),
            Node::Constant(index) => Ok(("c"@ + spec_decimal(index as nat), pos + 1, lets)),
            Node::LetIntroduce => {
                match spec_render_from::<T, BOP, TOP>(nodes, pos + 1, lets + 1) {
                    Ok((bound, p1, lets1)) => if pos < p1 && p1 <= nodes.len() {
                        match spec_render_from::<T, BOP, TOP>(nodes, p1, lets1) {
                            Ok((body, p2, lets2)) => Ok(
                                (
                                    "(let l"@ + spec_decimal(lets) + " "@ + bound + " "@ + body
                                        + ")"@,
                                    p2,
                                    lets2,
                                ),
                            ),
                            Err(e) => Err(e),
                        }
                    } else {
                        Err(ProgramError::InvalidTree)
                    },
                    Err(e) => Err(e),
                }
            },
            Node::BinaryOp(op) => {
                match spec_render_from::<T, BOP, TOP>(nodes, pos + 1, lets) {
                    Ok((lhs, p1, lets1)) => if pos < p1 && p1 <= nodes.len() {
                        match spec_render_from::<T, BOP, TOP>(nodes, p1, lets1) {
                            Ok((rhs, p2, lets2)) => Ok(
                                (
                                    "("@ + op.spec_repr() + " "@ + lhs + " "@ + rhs + ")"@,
                                    p2,
                                    lets2,
                                ),
                            ),
                            Err(e) => Err(e),
                        }
                    } else {
                        Err(ProgramError::InvalidTree)
                    },
                    Err(e) => Err(e),
                }
            },
            Node::TernaryOp(op) => {
                match spec_render_from::<T, BOP, TOP>(nodes, pos + 1, lets) {
                    Ok((a, p1, lets1)) => if pos < p1 && p1 <= nodes.len() {
                        match spec_render_from::<T, BOP, TOP>(nodes, p1, lets1) {
                            Ok((b, p2, lets2)) => if pos < p2 && p2 <= nodes.len() {
                                match spec_render_from::<T, BOP, TOP>(nodes, p2, lets2) {
                                    Ok((c, p3, lets3)) => Ok(
                                        (
                                            "("@ + op.spec_repr() + " "@ + a + " "@ + b + " "@ + c
                                                + ")"@,
                                            p3,
                                            lets3,
                                        ),
                                    ),
                                    Err(e) => Err(e),
                                }
                            } else {
                                Err(ProgramError::InvalidTree)
                            },
                            Err(e) => Err(e),
                        }
                    } else {
                        Err(ProgramError::InvalidTree)
                    },
                    Err(e) => Err(e),
                }
            },
        }
    }
}

/// What rendering a whole program yields: the walk from the sequence start.
/// Nodes past the end of the decoded tree are ignored.
pub open spec fn spec_render<T, BOP: BinaryOp<T>, TOP: TernaryOp<T>>(
    nodes: Seq<Node<BOP, TOP>>,
) -> Result<Seq<char>, ProgramError> {
    match spec_render_from::<T, BOP, TOP>(nodes, 0, 0) {
        Ok((text, _, _)) => Ok(text),
        Err(e) => Err(e),
    }
}

/// Every program that validates renders: the rendering walk mirrors the
/// arity rules the validator checked, never runs the cursor off the end of
/// the sequence, and has no other way to fail.
pub proof fn lemma_validated_render_succeeds<T, BOP: BinaryOp<T>, TOP: TernaryOp<T>>(
    nodes: Seq<Node<BOP, TOP>>,
)
    requires
        spec_validate(nodes) is Ok,
    ensures
        spec_render::<T, BOP, TOP>(nodes) is Ok,
{
    assert(nodes.subrange(0, 0) =~= Seq::<Node<BOP, TOP>>::empty());
    lemma_validated_render_walk::<T, BOP, TOP>(nodes, 0, 1, 0);
}

/// The induction behind [`lemma_validated_render_succeeds`]: if the validator,
/// standing at `pos` with `pending >= 1` subtree slots still owed, accepts the
/// rest of the sequence, then the rendering walk from `pos` consumes one
/// subtree, whatever its label counter, leaving a position the validator
/// accepts with one slot fewer.
proof fn lemma_validated_render_walk<T, BOP: BinaryOp<T>, TOP: TernaryOp<T>>(
    nodes: Seq<Node<BOP, TOP>>,
    pos: int,
    pending: int,
    lets: nat,
)
    requires
        0 <= pos <= nodes.len(),
        pending >= 1,
        spec_validate_from(nodes, pos, pending, lets_opened_before(nodes, pos)) is Ok,
    ensures
        spec_render_from::<T, BOP, TOP>(nodes, pos, lets) matches Ok((text, p1, lets1)) && pos < p1
            <= nodes.len() && spec_validate_from(
            nodes,
            p1,
            pending - 1,
            lets_opened_before(nodes, p1),
        ) is Ok,
    decreases nodes.len() - pos,
{
    // The validator still owes a slot, so it cannot be standing at the end.
    assert(pos < nodes.len());
    lemma_lets_opened_step(nodes, pos);
    match nodes[pos] {
        Node::Input(_) | Node::Constant(_) | Node::Local(_) => {},
        Node::LetIntroduce => {
            lemma_validated_render_walk::<T, BOP, TOP>(nodes, pos + 1, pending + 1, lets + 1);
            let (bound, p1, lets1) = spec_render_from::<T, BOP, TOP>(
                nodes,
                pos + 1,
                lets + 1,
            ).unwrap();
            lemma_validated_render_walk::<T, BOP, TOP>(nodes, p1, pending, lets1);
        },
        Node::BinaryOp(_) => {
            lemma_validated_render_walk::<T, BOP, TOP>(nodes, pos + 1, pending + 1, lets);
            let (lhs, p1, lets1) = spec_render_from::<T, BOP, TOP>(nodes, pos + 1, lets).unwrap();
            lemma_validated_render_walk::<T, BOP, TOP>(nodes, p1, pending, lets1);
        },
        Node::TernaryOp(_) => {
            lemma_validated_render_walk::<T, BOP, TOP>(nodes, pos + 1, pending + 2, lets);
            let (a, p1, lets1) = spec_render_from::<T, BOP, TOP>(nodes, pos + 1, lets).unwrap();
            lemma_validated_render_walk::<T, BOP, TOP>(nodes, p1, pending + 1, lets1);
            let (b, p2, lets2) = spec_render_from::<T, BOP, TOP>(nodes, p1, lets1).unwrap();
            lemma_validated_render_walk::<T, BOP, TOP>(nodes, p2, pending, lets2);
        },
    }
}

/// One step of the executable rendering walk: render the subtree rooted at
/// `pos`, labelling the let-bindings it opens starting from `lets`, and
/// return the text, the cursor position just past the subtree, and the
/// updated label counter.
pub(crate) fn render_walk<T, BOP, TOP>(
    nodes: &Vec<Node<BOP, TOP>>,
    pos: usize,
    lets: usize,
) -> (r: Result<(String, usize, usize), ProgramError>) where
    T: Copy,
    BOP: BinaryOp<T> + Copy,
    TOP: TernaryOp<T> + Copy,

    requires
        pos <= nodes@.len(),
        lets <= pos,
    ensures
        match r {
            Ok((text, p1, lets1)) => {
                &&& spec_render_from::<T, BOP, TOP>(nodes@, pos as int, lets as nat)
                    == Ok::<(Seq<char>, int, nat), ProgramError>((text@, p1 as int, lets1 as nat))
                &&& pos < p1 <= nodes@.len()
                &&& lets <= lets1 <= lets + (p1 - pos)
            },
            Err(e) => spec_render_from::<T, BOP, TOP>(nodes@, pos as int, lets as nat)
                == Err::<(Seq<char>, int, nat), ProgramError>(e),
        },
    decreases nodes@.len() - pos,
{
    if pos >= nodes.len() {
        return Err(ProgramError::InvalidTree);
    }
    let node = nodes[pos];

    match node {
        Node::Input(index) => {
            let mut out = String::from_str("a");
            out.append(decimal(index as usize).as_str());
            Ok((out, pos + 1, lets))
        },
        Node::Local(index) => {
            let mut out = String::from_str("l");
            out.append(decimal(index as usize).as_str());
            Ok((out, pos + 1, lets))
        },
        Node::Constant(index) => {
            let mut out = String::from_str("c");
            out.append(decimal(index as usize).as_str());
            Ok((out, pos + 1, lets))
        },
        Node::LetIntroduce => {
            let (bound, p1, lets1) = render_walk::<T, BOP, TOP>(nodes, pos + 1, lets + 1)?;
            let (body, p2, lets2) = render_walk::<T, BOP, TOP>(nodes, p1, lets1)?;
            let mut out = String::from_str("(let l");
            out.append(decimal(lets).as_str());
            out.append(" ");
            out.append(bound.as_str());
            out.append(" ");
            out.append(body.as_str());
            out.append(")");
            Ok((out, p2, lets2))
        },
        Node::BinaryOp(op) => {
            let (lhs, p1, lets1) = render_walk::<T, BOP, TOP>(nodes, pos + 1, lets)?;
            let (rhs, p2, lets2) = render_walk::<T, BOP, TOP>(nodes, p1, lets1)?;
            let mut out = String::from_str("(");
            out.append(op.repr());
            out.append(" ");
            out.append(lhs.as_str());
            out.append(" ");
            out.append(rhs.as_str());
            out.append(")");
            Ok((out, p2, lets2))
        },
        Node::TernaryOp(op) => {
            let (a, p1, lets1) = render_walk::<T, BOP, TOP>(nodes, pos + 1, lets)?;
            let (b, p2, lets2) = render_walk::<T, BOP, TOP>(nodes, p1, lets1)?;
            let (c, p3, lets3) = render_walk::<T, BOP, TOP>(nodes, p2, lets2)?;
            let mut out = String::from_str("(");
            out.append(op.repr());
            out.append(" ");
            out.append(a.as_str());
            out.append(" ");
            out.append(b.as_str());
            out.append(" ");
            out.append(c.as_str());
            out.append(")");
            Ok((out, p3, lets3))
        },
    }
}

} // verus!
