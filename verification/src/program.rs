//! Flattened expression programs: the node alphabet, validation, variable
//! counting, and evaluation.

use vstd::prelude::*;

use crate::binary_op::BinaryOp;
use crate::ternary_op::TernaryOp;

verus! {

/// One element of the flattened pre-order tree encoding.
///
/// The leaves (`Input`, `Local`, `Constant`) consume no following nodes.
/// `LetIntroduce` consumes exactly two following subtrees: a bound expression
/// (evaluated first, its value appended to the locals list) and a body, whose
/// value becomes the let's value.  `BinaryOp` and `TernaryOp` consume exactly
/// two and three following subtrees.  Indices are small unsigned integers with
/// no bound checking at construction time.
#[derive(Debug, Clone, Copy)]
pub enum Node<BOP, TOP> {
    Input(u8),
    Local(u8),
    Constant(u8),
    LetIntroduce,
    BinaryOp(BOP),
    TernaryOp(TOP),
}

/// Every failure the engine can report.
///
/// Structural errors (`InvalidLocal`, `TooManyNodes`, `TooFewNodes`) come from
/// validation at construction time.  Shape errors (`TooFewInputs`,
/// `TooFewConstants`) are checked on every relevant call.  The runtime lookup
/// errors (`NonExistentInput`, `NonExistentLocal`, `NonExistentConstant`,
/// `InvalidTree`) are defensive second checks made during the evaluation walk.
#[derive(Debug, Clone, Copy, PartialEq, Eq, Structural)]
pub enum ProgramError {
    InvalidTree,
    NonExistentConstant,
    NonExistentInput,
    NonExistentLocal,
    TooFewInputs,
    TooFewConstants,
    TooFewNodes,
    TooManyNodes,
    InvalidLocal,
}

/// The outcome of walking the validator over `nodes[i..]`, starting with
/// `pending` subtree slots still owed and `lets` let-bindings already opened.
///
/// A leaf fills one owed slot; a `Local(i)` must also satisfy `i < lets`.
/// `LetIntroduce` and `BinaryOp` fill one slot and owe two new ones (net +1);
/// `TernaryOp` fills one and owes three (net +2).  Whenever the owed count
/// drops below zero the sequence overruns one tree; if it is not exactly zero
/// at the end, the sequence underruns one.
pub open spec fn spec_validate_from<BOP, TOP>(
    nodes: Seq<Node<BOP, TOP>>,
    i: int,
    pending: int,
    lets: int,
) -> Result<(), ProgramError>
    decreases nodes.len() - i,
{
    if i < 0 || i >= nodes.len() {
        if pending == 0 {
            Ok(())
        } else {
            Err(ProgramError::TooFewNodes)
        }
    } else {
        let step = match nodes[i] {
            Node::Input(_) => Ok((pending - 1, lets)),
            Node::Constant(_) => Ok((pending - 1, lets)),
            Node::Local(index) => if index as int >= lets {
                Err(ProgramError::InvalidLocal)
            } else {
                Ok((pending - 1, lets))
            },
            Node::LetIntroduce => Ok((pending + 1, lets + 1)),
            Node::BinaryOp(_) => Ok((pending + 1, lets)),
            Node::TernaryOp(_) => Ok((pending + 2, lets)),
        };
        match step {
            Ok((pending2, lets2)) => if pending2 < 0 {
                Err(ProgramError::TooManyNodes)
            } else {
                spec_validate_from(nodes, i + 1, pending2, lets2)
            },
            Err(e) => Err(e),
        }
    }
}

/// Whether the validator accepts `nodes`: the owed-slot count, started at one
/// for the root, never drops below zero and ends at zero, and every local
/// reference looks backwards.  A sequence that decodes to exactly one complete
/// expression tree with well-scoped locals always passes; on failure, the
/// error names the first defect found.  (A sequence whose leading tree
/// completes early is still accepted when its trailing nodes balance the
/// count; evaluation ignores nodes past the first tree.)
pub open spec fn spec_validate<BOP, TOP>(nodes: Seq<Node<BOP, TOP>>) -> Result<(), ProgramError> {
    spec_validate_from(nodes, 0, 1, 0)
}

/// Check that `nodes` decodes to one complete expression tree (see
/// [`spec_validate`] for the exact acceptance condition).
///
/// A single forward pass, with no recursion or backtracking: `pending` counts
/// the subtree slots still owed (starting at 1, the root), and `lets` counts
/// the let-bindings opened so far.  The result is a function of `nodes` alone.
pub fn validate<BOP: Copy, TOP: Copy>(nodes: &[Node<BOP, TOP>]) -> (r: Result<(), ProgramError>)
    ensures
        r == spec_validate(nodes@),
{
    // The owed-slot counter grows by at most 2 per node, so a 128-bit counter
    // cannot overflow however long the sequence is.
    let mut pending: u128 = 1;
    let mut lets: u128 = 0;
    let n = nodes.len();
    let mut i: usize = 0;

    while i < n
        invariant
            i <= n,
            n == nodes@.len(),
            pending <= 1 + 2 * (i as u128),
            lets <= i as u128,
            spec_validate(nodes@) == spec_validate_from(
                nodes@,
                i as int,
                pending as int,
                lets as int,
            ),
        decreases n - i,
    {
        match nodes[i] {
            Node::Input(_) | Node::Constant(_) => {
                if pending == 0 {
                    return Err(ProgramError::TooManyNodes);
                }
                pending = pending - 1;
            },
            Node::Local(index) => {
                if (index as u128) >= lets {
                    return Err(ProgramError::InvalidLocal);
                }
                if pending == 0 {
                    return Err(ProgramError::TooManyNodes);
                }
                pending = pending - 1;
            },
            Node::LetIntroduce => {
                pending = pending + 1;
                lets = lets + 1;
            },
            Node::BinaryOp(_) => {
                pending = pending + 1;
            },
            Node::TernaryOp(_) => {
                pending = pending + 2;
            },
        }
        i = i + 1;
    }

    if pending == 0 {
        Ok(())
    } else {
        Err(ProgramError::TooFewNodes)
    }
}

/// Validation is deterministic and idempotent: it is a pure function of the
/// node sequence alone, so any two passes over equal sequences agree.
pub proof fn lemma_validate_deterministic<BOP, TOP>(
    first: Seq<Node<BOP, TOP>>,
    second: Seq<Node<BOP, TOP>>,
)
    requires
        first == second,
    ensures
        spec_validate(first) == spec_validate(second),
{
}

/// In a sequence that validates, every `Local(i)` stands after more than `i`
/// `LetIntroduce` nodes: local references only ever look backwards.
pub proof fn lemma_validated_locals_in_scope<BOP, TOP>(nodes: Seq<Node<BOP, TOP>>)
    requires
        spec_validate(nodes) is Ok,
    ensures
        forall|p: int|
            0 <= p < nodes.len() ==> (#[trigger] nodes[p] matches Node::Local(index)
                ==> (index as int) < lets_opened_before(nodes, p)),
{
    lemma_validate_from_locals_in_scope(nodes, 0, 1, 0);
}

/// How many `LetIntroduce` nodes stand strictly before position `p`.
pub open spec fn lets_opened_before<BOP, TOP>(nodes: Seq<Node<BOP, TOP>>, p: int) -> int {
    nodes.subrange(0, p).fold_left(
        0,
        |acc: int, node: Node<BOP, TOP>|
            if node is LetIntroduce {
                acc + 1
            } else {
                acc
            },
    )
}

proof fn lemma_validate_from_locals_in_scope<BOP, TOP>(
    nodes: Seq<Node<BOP, TOP>>,
    i: int,
    pending: int,
    lets: int,
)
    requires
        0 <= i <= nodes.len(),
        lets == lets_opened_before(nodes, i),
        spec_validate_from(nodes, i, pending, lets) is Ok,
    ensures
        forall|p: int|
            i <= p < nodes.len() ==> (#[trigger] nodes[p] matches Node::Local(index)
                ==> (index as int) < lets_opened_before(nodes, p)),
    decreases nodes.len() - i,
{
    if i < nodes.len() {
        lemma_lets_opened_step(nodes, i);
        match nodes[i] {
            Node::LetIntroduce => {
                lemma_validate_from_locals_in_scope(nodes, i + 1, pending + 1, lets + 1);
            },
            Node::Local(index) => {
                lemma_validate_from_locals_in_scope(nodes, i + 1, pending - 1, lets);
            },
            Node::Input(_) | Node::Constant(_) => {
                lemma_validate_from_locals_in_scope(nodes, i + 1, pending - 1, lets);
            },
            Node::BinaryOp(_) => {
                lemma_validate_from_locals_in_scope(nodes, i + 1, pending + 1, lets);
            },
            Node::TernaryOp(_) => {
                lemma_validate_from_locals_in_scope(nodes, i + 1, pending + 2, lets);
            },
        }
    }
}

/// The fold behind [`spec_count_vars`]: the running maxima of the observed
/// `Input` and `Local` indices, and the constant count, over `nodes[i..]`.
///
/// Note the asymmetry in the `Constant` arm: the running maximum for the
/// constant count reads the *local* counter's accumulator, not its own.  This
/// is an observable quirk of the engine, kept deliberately (validation never
/// consults these counts, and the evaluation walk re-checks every lookup), and
/// it is pinned by a regression test.
pub open spec fn spec_count_from<BOP, TOP>(
    nodes: Seq<Node<BOP, TOP>>,
    i: int,
    input_count: int,
    local_count: int,
    const_count: int,
) -> (int, int, int)
    decreases nodes.len() - i,
{
    if i < 0 || i >= nodes.len() {
        (input_count, local_count, const_count)
    } else {
        match nodes[i] {
            Node::Input(index) => spec_count_from(
                nodes,
                i + 1,
                vstd::math::max(input_count, index as int),
                local_count,
                const_count,
            ),
            Node::Local(index) => spec_count_from(
                nodes,
                i + 1,
                input_count,
                vstd::math::max(local_count, index as int),
                const_count,
            ),
            Node::Constant(index) => spec_count_from(
                nodes,
                i + 1,
                input_count,
                local_count,
                vstd::math::max(local_count, index as int),
            ),
            Node::LetIntroduce => spec_count_from(nodes, i + 1, input_count, local_count, const_count),
            Node::BinaryOp(_) => spec_count_from(nodes, i + 1, input_count, local_count, const_count),
            Node::TernaryOp(_) => spec_count_from(nodes, i + 1, input_count, local_count, const_count),
        }
    }
}

/// The minimum input, local and constant capacities that `nodes` calls for:
/// the maximum index observed for each kind of leaf (see [`spec_count_from`]
/// for the constant-count quirk).
pub open spec fn spec_count_vars<BOP, TOP>(nodes: Seq<Node<BOP, TOP>>) -> (int, int, int) {
    spec_count_from(nodes, 0, 0, 0, 0)
}

/// Size the required input arity and the local and constant capacity hints in
/// a single forward pass, as the maximum observed index of each kind of leaf.
///
/// These counts only size capacity and the pre-flight length checks in
/// [`Program::eval`] and [`Program::set_constants`]; the evaluation walk
/// re-checks every lookup independently.
pub fn count_vars<BOP: Copy, TOP: Copy>(nodes: &[Node<BOP, TOP>]) -> (r: (usize, usize, usize))
    ensures
        (r.0 as int, r.1 as int, r.2 as int) == spec_count_vars(nodes@),
{
    let mut input_count: usize = 0;
    let mut local_count: usize = 0;
    let mut const_count: usize = 0;
    let n = nodes.len();
    let mut i: usize = 0;

    while i < n
        invariant
            i <= n,
            n == nodes@.len(),
            spec_count_vars(nodes@) == spec_count_from(
                nodes@,
                i as int,
                input_count as int,
                local_count as int,
                const_count as int,
            ),
        decreases n - i,
    {
        match nodes[i] {
            Node::Input(index) => {
                if (index as usize) > input_count {
                    input_count = index as usize;
                }
            },
            Node::Local(index) => {
                if (index as usize) > local_count {
                    local_count = index as usize;
                }
            },
            Node::Constant(index) => {
                const_count = if (index as usize) > local_count {
                    index as usize
                } else {
                    local_count
                };
            },
            Node::LetIntroduce | Node::BinaryOp(_) | Node::TernaryOp(_) => {},
        }
        i = i + 1;
    }

    (input_count, local_count, const_count)
}

pub(crate) proof fn lemma_lets_opened_step<BOP, TOP>(nodes: Seq<Node<BOP, TOP>>, i: int)
    requires
        0 <= i < nodes.len(),
    ensures
        lets_opened_before(nodes, i + 1) == if nodes[i] is LetIntroduce {
            lets_opened_before(nodes, i) + 1
        } else {
            lets_opened_before(nodes, i)
        },
{
    assert(nodes.subrange(0, i + 1).drop_last() =~= nodes.subrange(0, i));
    assert(nodes.subrange(0, i + 1).last() == nodes[i]);
}

/// The recursive-descent evaluation walk over `nodes`, starting at `pos` with
/// the let-bound values accumulated so far in `locals`.
///
/// On success it yields the subtree's value, the cursor position just past the
/// subtree, and the locals list as extended by the subtree's let-bindings.
/// Every lookup is checked at evaluation time, as a defensive second check
/// behind validation.  A cursor that runs off the end of the sequence before a
/// node is expected fails with `InvalidTree`.
///
/// A successful sub-walk always advances the cursor (a fact the executable
/// walk carries in its contract), so the `InvalidTree` arms behind the
/// cursor-progress guards are unreachable; the guards bound the recursion.
pub open spec fn spec_eval_from<T, BOP: BinaryOp<T>, TOP: TernaryOp<T>>(
    nodes: Seq<Node<BOP, TOP>>,
    pos: int,
    inputs: Seq<T>,
    constants: Seq<T>,
    locals: Seq<T>,
) -> Result<(T, int, Seq<T>), ProgramError>
    decreases nodes.len() - pos,
{
    if pos < 0 || pos >= nodes.len() {
        Err(ProgramError::InvalidTree)
    } else {
        match nodes[pos] {
            Node::Input(index) => if (index as int) < inputs.len() {
                Ok((inputs[index as int], pos + 1, locals))
            } else {
                Err(ProgramError::NonExistentInput)
            },
            Node::Local(index) => if (index as int) < locals.len() {
                Ok((locals[index as int], pos + 1, locals))
            } else {
                Err(ProgramError::NonExistentLocal)
            },
            Node::Constant(index) => if (index as int) < constants.len() {
                Ok((constants[index as int], pos + 1, locals))
            } else {
                Err(ProgramError::NonExistentConstant)
            },
            Node::LetIntroduce => match spec_eval_from(nodes, pos + 1, inputs, constants, locals) {
                Ok((bound, p1, locals1)) => if pos < p1 && p1 <= nodes.len() {
                    spec_eval_from(nodes, p1, inputs, constants, locals1.push(bound))
                } else {
                    Err(ProgramError::InvalidTree)
                },
                Err(e) => Err(e),
            },
            Node::BinaryOp(op) => match spec_eval_from(nodes, pos + 1, inputs, constants, locals) {
                Ok((lhs, p1, locals1)) => if pos < p1 && p1 <= nodes.len() {
                    match spec_eval_from(nodes, p1, inputs, constants, locals1) {
                        Ok((rhs, p2, locals2)) => Ok((op.spec_run(lhs, rhs), p2, locals2)),
                        Err(e) => Err(e),
                    }
                } else {
                    Err(ProgramError::InvalidTree)
                },
                Err(e) => Err(e),
            },
            Node::TernaryOp(op) => match spec_eval_from(nodes, pos + 1, inputs, constants, locals) {
                Ok((a, p1, locals1)) => if pos < p1 && p1 <= nodes.len() {
                    match spec_eval_from(nodes, p1, inputs, constants, locals1) {
                        Ok((b, p2, locals2)) => if pos < p2 && p2 <= nodes.len() {
                            match spec_eval_from(nodes, p2, inputs, constants, locals2) {
                                Ok((c, p3, locals3)) => Ok((op.spec_run(a, b, c), p3, locals3)),
                                Err(e) => Err(e),
                            }
                        } else {
                            Err(ProgramError::InvalidTree)
                        },
                        Err(e) => Err(e),
                    }
                } else {
                    Err(ProgramError::InvalidTree)
                },
                Err(e) => Err(e),
            },
        }
    }
}

/// What one evaluation call returns, given the program's node sequence and
/// counts, its constants table, and the call's inputs: first the two
/// pre-flight length checks, then a fresh walk from the sequence start with an
/// empty locals list.  Nodes past the end of the decoded tree are ignored.
pub open spec fn spec_eval<T, BOP: BinaryOp<T>, TOP: TernaryOp<T>>(
    nodes: Seq<Node<BOP, TOP>>,
    input_count: int,
    const_count: int,
    constants: Seq<T>,
    inputs: Seq<T>,
) -> Result<T, ProgramError> {
    if inputs.len() < input_count {
        Err(ProgramError::TooFewInputs)
    } else if constants.len() < const_count {
        Err(ProgramError::TooFewConstants)
    } else {
        match spec_eval_from(nodes, 0, inputs, constants, Seq::<T>::empty()) {
            Ok((value, _, _)) => Ok(value),
            Err(e) => Err(e),
        }
    }
}

/// Evaluation is deterministic: identical (program, constants, inputs) always
/// yields an identical result, since the outcome is a pure function of them.
pub proof fn lemma_eval_deterministic<T, BOP: BinaryOp<T>, TOP: TernaryOp<T>>(
    nodes: Seq<Node<BOP, TOP>>,
    input_count: int,
    const_count: int,
    constants: Seq<T>,
    first: Seq<T>,
    second: Seq<T>,
)
    requires
        first == second,
    ensures
        spec_eval(nodes, input_count, const_count, constants, first) == spec_eval(
            nodes,
            input_count,
            const_count,
            constants,
            second,
        ),
{
}

/// In a sequence that validates, the evaluation walk never runs the cursor
/// off the end of the sequence: `InvalidTree` is unreachable behind
/// validation, and every failure evaluation can still report is one of the
/// defensive lookup errors or a pre-flight shape error.
pub proof fn lemma_validated_eval_never_invalid_tree<T, BOP: BinaryOp<T>, TOP: TernaryOp<T>>(
    nodes: Seq<Node<BOP, TOP>>,
    input_count: int,
    const_count: int,
    constants: Seq<T>,
    inputs: Seq<T>,
)
    requires
        spec_validate(nodes) is Ok,
    ensures
        spec_eval(nodes, input_count, const_count, constants, inputs) != Err::<T, ProgramError>(
            ProgramError::InvalidTree,
        ),
{
    assert(nodes.subrange(0, 0) =~= Seq::<Node<BOP, TOP>>::empty());
    lemma_validated_walk_stays_on_tree(nodes, 0, 1, inputs, constants, Seq::<T>::empty());
}

/// The induction behind [`lemma_validated_eval_never_invalid_tree`]: if the
/// validator, standing at `pos` with `pending >= 1` subtree slots still owed,
/// accepts the rest of the sequence, then the evaluation walk from `pos`
/// either fails with a lookup error or consumes one subtree, leaving a
/// position the validator accepts with one slot fewer.
proof fn lemma_validated_walk_stays_on_tree<T, BOP: BinaryOp<T>, TOP: TernaryOp<T>>(
    nodes: Seq<Node<BOP, TOP>>,
    pos: int,
    pending: int,
    inputs: Seq<T>,
    constants: Seq<T>,
    locals: Seq<T>,
)
    requires
        0 <= pos <= nodes.len(),
        pending >= 1,
        spec_validate_from(nodes, pos, pending, lets_opened_before(nodes, pos)) is Ok,
    ensures
        match spec_eval_from(nodes, pos, inputs, constants, locals) {
            Ok((value, p1, locals1)) => {
                &&& pos < p1 <= nodes.len()
                &&& spec_validate_from(nodes, p1, pending - 1, lets_opened_before(nodes, p1)) is Ok
            },
            Err(e) => e != ProgramError::InvalidTree,
        },
    decreases nodes.len() - pos,
{
    // The validator still owes a slot, so it cannot be standing at the end.
    assert(pos < nodes.len());
    lemma_lets_opened_step(nodes, pos);
    match nodes[pos] {
        Node::Input(_) | Node::Constant(_) | Node::Local(_) => {},
        Node::LetIntroduce => {
            lemma_validated_walk_stays_on_tree(nodes, pos + 1, pending + 1, inputs, constants, locals);
            match spec_eval_from(nodes, pos + 1, inputs, constants, locals) {
                Ok((bound, p1, locals1)) => {
                    lemma_validated_walk_stays_on_tree(
                        nodes,
                        p1,
                        pending,
                        inputs,
                        constants,
                        locals1.push(bound),
                    );
                },
                Err(_) => {},
            }
        },
        Node::BinaryOp(_) => {
            lemma_validated_walk_stays_on_tree(nodes, pos + 1, pending + 1, inputs, constants, locals);
            match spec_eval_from(nodes, pos + 1, inputs, constants, locals) {
                Ok((lhs, p1, locals1)) => {
                    lemma_validated_walk_stays_on_tree(nodes, p1, pending, inputs, constants, locals1);
                },
                Err(_) => {},
            }
        },
        Node::TernaryOp(_) => {
            lemma_validated_walk_stays_on_tree(nodes, pos + 1, pending + 2, inputs, constants, locals);
            match spec_eval_from(nodes, pos + 1, inputs, constants, locals) {
                Ok((a, p1, locals1)) => {
                    lemma_validated_walk_stays_on_tree(
                        nodes,
                        p1,
                        pending + 1,
                        inputs,
                        constants,
                        locals1,
                    );
                    match spec_eval_from(nodes, p1, inputs, constants, locals1) {
                        Ok((b, p2, locals2)) => {
                            lemma_validated_walk_stays_on_tree(
                                nodes,
                                p2,
                                pending,
                                inputs,
                                constants,
                                locals2,
                            );
                        },
                        Err(_) => {},
                    }
                },
                Err(_) => {},
            }
        },
    }
}

/// A validated program, together with its constants table, its locals scratch
/// list, and its precomputed minimum input, local and constant counts.
///
/// The node sequence is validated once, at construction; constants may be set
/// or replaced any number of times; evaluation may be called repeatedly with
/// fresh input slices.  The locals scratch storage is cleared, not
/// reallocated, between evaluation calls.
pub struct Program<T, BOP, TOP> where BOP: BinaryOp<T> + Copy, TOP: TernaryOp<T> + Copy {
    pub nodes: Vec<Node<BOP, TOP>>,
    locals: Vec<T>,
    constants: Vec<T>,
    const_count: usize,
    local_count: usize,
    input_count: usize,
}

impl<T, BOP, TOP> Program<T, BOP, TOP> where
    T: Copy,
    BOP: BinaryOp<T> + Copy,
    TOP: TernaryOp<T> + Copy,
 {
    /// The node sequence, as a mathematical sequence.
    pub closed spec fn spec_nodes(&self) -> Seq<Node<BOP, TOP>> {
        self.nodes@
    }

    /// The constants table currently stored.
    pub closed spec fn spec_constants(&self) -> Seq<T> {
        self.constants@
    }

    /// The precomputed counts, exactly as the variable counter yields them.
    pub closed spec fn spec_counts(&self) -> (int, int, int) {
        (self.input_count as int, self.local_count as int, self.const_count as int)
    }

    /// Construct a program from a node sequence, validating it and sizing its
    /// required input, local and constant counts; the constants table starts
    /// empty.  Fails with the validator's error on a malformed sequence.
    pub fn new(nodes: Vec<Node<BOP, TOP>>) -> (r: Result<Self, ProgramError>)
        ensures
            match r {
                Ok(p) => {
                    &&& spec_validate(nodes@) is Ok
                    &&& p.spec_nodes() == nodes@
                    &&& p.spec_constants() == Seq::<T>::empty()
                    &&& p.spec_counts() == spec_count_vars(nodes@)
                },
                Err(e) => spec_validate(nodes@) == Err::<(), ProgramError>(e),
            },
    {
        if let Err(e) = validate(nodes.as_slice()) {
            return Err(e);
        }
        let (input_count, local_count, const_count) = count_vars(nodes.as_slice());

        Ok(Program {
            nodes,
            locals: Vec::new(),
            constants: Vec::new(),
            const_count,
            local_count,
            input_count,
        })
    }

    /// Replace the stored constants table wholesale.  Fails with
    /// `TooFewConstants`, leaving the table as it was, exactly when the new
    /// table is shorter than the required constant count.
    pub fn set_constants(&mut self, constants: &[T]) -> (r: Result<(), ProgramError>)
        ensures
            final(self).spec_nodes() == old(self).spec_nodes(),
            final(self).spec_counts() == old(self).spec_counts(),
            match r {
                Ok(()) => {
                    &&& constants@.len() >= old(self).spec_counts().2
                    &&& final(self).spec_constants() == constants@
                },
                Err(e) => {
                    &&& e == ProgramError::TooFewConstants
                    &&& constants@.len() < old(self).spec_counts().2
                    &&& final(self).spec_constants() == old(self).spec_constants()
                },
            },
    {
        if constants.len() < self.const_count {
            return Err(ProgramError::TooFewConstants);
        }
        self.constants = vstd::slice::slice_to_vec(constants);
        Ok(())
    }

    /// Evaluate the program against `inputs` and the stored constants.
    ///
    /// Fails with `TooFewInputs` exactly when `inputs` is shorter than the
    /// required input count, and then with `TooFewConstants` exactly when the
    /// stored constants table is shorter than the required constant count;
    /// otherwise the locals scratch list is cleared (reusing its backing
    /// capacity) and a fresh recursive-descent walk starts from the sequence
    /// start.  The result is a pure function of the node sequence, the
    /// constants and the inputs, and behind a sequence that validated,
    /// `InvalidTree` is unreachable (see
    /// [`lemma_validated_eval_never_invalid_tree`]).
    pub fn eval(&mut self, inputs: &[T]) -> (r: Result<T, ProgramError>)
        ensures
            final(self).spec_nodes() == old(self).spec_nodes(),
            final(self).spec_constants() == old(self).spec_constants(),
            final(self).spec_counts() == old(self).spec_counts(),
            r == spec_eval(
                old(self).spec_nodes(),
                old(self).spec_counts().0,
                old(self).spec_counts().2,
                old(self).spec_constants(),
                inputs@,
            ),
    {
        if inputs.len() < self.input_count {
            return Err(ProgramError::TooFewInputs);
        }
        if self.constants.len() < self.const_count {
            return Err(ProgramError::TooFewConstants);
        }

        self.locals.clear();
        self.locals.reserve(self.local_count);
        match eval_walk(&self.nodes, inputs, &self.constants, 0, &mut self.locals) {
            Ok((value, _)) => Ok(value),
            Err(e) => Err(e),
        }
    }

    /// Render the program as readable parenthesized text, for diagnostics
    /// (see [`crate::text`] for the token grammar).  Behind a sequence that
    /// validated this cannot fail (see
    /// [`crate::text::lemma_validated_render_succeeds`]).
    pub fn to_text(&self) -> (r: Result<String, ProgramError>)
        ensures
            match r {
                Ok(s) => crate::text::spec_render::<T, BOP, TOP>(self.spec_nodes())
                    == Ok::<Seq<char>, ProgramError>(s@),
                Err(e) => crate::text::spec_render::<T, BOP, TOP>(self.spec_nodes())
                    == Err::<Seq<char>, ProgramError>(e),
            },
    {
        match crate::text::render_walk::<T, BOP, TOP>(&self.nodes, 0, 0) {
            Ok((text, _, _)) => Ok(text),
            Err(e) => Err(e),
        }
    }
}

/// One step of the executable recursive-descent walk: evaluate the subtree
/// rooted at `pos`, extending `locals` with the values of the let-bindings it
/// opens, and return the subtree's value and the cursor position just past it.
fn eval_walk<T, BOP, TOP>(
    nodes: &Vec<Node<BOP, TOP>>,
    inputs: &[T],
    constants: &Vec<T>,
    pos: usize,
    locals: &mut Vec<T>,
) -> (r: Result<(T, usize), ProgramError>) where
    T: Copy,
    BOP: BinaryOp<T> + Copy,
    TOP: TernaryOp<T> + Copy,

    requires
        pos <= nodes@.len(),
    ensures
        match r {
            Ok((value, p1)) => {
                &&& spec_eval_from(nodes@, pos as int, inputs@, constants@, old(locals)@)
                    == Ok::<(T, int, Seq<T>), ProgramError>((value, p1 as int, final(locals)@))
                &&& pos < p1 <= nodes@.len()
            },
            Err(e) => spec_eval_from(nodes@, pos as int, inputs@, constants@, old(locals)@)
                == Err::<(T, int, Seq<T>), ProgramError>(e),
        },
    decreases nodes@.len() - pos,
{
    if pos >= nodes.len() {
        return Err(ProgramError::InvalidTree);
    }
    let node = nodes[pos];

    match node {
        Node::Input(index) => {
            if (index as usize) < inputs.len() {
                Ok((inputs[index as usize], pos + 1))
            } else {
                Err(ProgramError::NonExistentInput)
            }
        },
        Node::Local(index) => {
            if (index as usize) < locals.len() {
                Ok((locals[index as usize], pos + 1))
            } else {
                Err(ProgramError::NonExistentLocal)
            }
        },
        Node::Constant(index) => {
            if (index as usize) < constants.len() {
                Ok((constants[index as usize], pos + 1))
            } else {
                Err(ProgramError::NonExistentConstant)
            }
        },
        Node::LetIntroduce => {
            let (bound, p1) = eval_walk(nodes, inputs, constants, pos + 1, locals)?;
            locals.push(bound);
            let (body, p2) = eval_walk(nodes, inputs, constants, p1, locals)?;
            Ok((body, p2))
        },
        Node::BinaryOp(op) => {
            let (lhs, p1) = eval_walk(nodes, inputs, constants, pos + 1, locals)?;
            let (rhs, p2) = eval_walk(nodes, inputs, constants, p1, locals)?;
            Ok((op.run(lhs, rhs), p2))
        },
        Node::TernaryOp(op) => {
            let (a, p1) = eval_walk(nodes, inputs, constants, pos + 1, locals)?;
            let (b, p2) = eval_walk(nodes, inputs, constants, p1, locals)?;
            let (c, p3) = eval_walk(nodes, inputs, constants, p2, locals)?;
            Ok((op.run(a, b, c), p3))
        },
    }
}

} // verus!
