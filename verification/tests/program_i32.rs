//! Tests of the engine instantiated for 32-bit integers, whose operator
//! catalog the library itself supplies.

use flatexpr::binary_op::{BinaryOp, BinaryOpI32};
use flatexpr::program::{count_vars, validate, Node, Program, ProgramError};
use flatexpr::ternary_op::{TernaryOp, TernaryOpI32};

type NodeI32 = Node<BinaryOpI32, TernaryOpI32>;
type ProgramI32 = Program<i32, BinaryOpI32, TernaryOpI32>;

#[test]
fn tree_format_i32() {
    let program = ProgramI32::new(vec![
        Node::LetIntroduce,
        Node::BinaryOp(BinaryOpI32::Add),
        Node::Input(1),
        Node::BinaryOp(BinaryOpI32::Sub),
        Node::Input(0),
        Node::Input(2),
        Node::LetIntroduce,
        Node::Input(0),
        Node::BinaryOp(BinaryOpI32::Mul),
        Node::Local(1),
        Node::BinaryOp(BinaryOpI32::Div),
        Node::Input(2),
        Node::BinaryOp(BinaryOpI32::Xor),
        Node::Input(2),
        Node::BinaryOp(BinaryOpI32::And),
        Node::Input(2),
        Node::BinaryOp(BinaryOpI32::Or),
        Node::Input(2),
        Node::Constant(0),
    ])
    .unwrap();

    assert_eq!(
        program.to_text().unwrap(),
        "(let l0 (+ a1 (- a0 a2)) (let l1 a0 (* l1 (/ a2 (^ a2 (& a2 (| a2 c0)))))))"
    );
}

#[test]
fn validation_is_idempotent() {
    let nodes: Vec<NodeI32> = vec![
        Node::BinaryOp(BinaryOpI32::Add),
        Node::Input(0),
        Node::Local(0),
    ];
    let first = validate(&nodes);
    let second = validate(&nodes);
    assert_eq!(first, second);
    assert_eq!(first, Err(ProgramError::InvalidLocal));

    let good: Vec<NodeI32> = vec![
        Node::BinaryOp(BinaryOpI32::Add),
        Node::Input(0),
        Node::Input(1),
    ];
    assert_eq!(validate(&good), Ok(()));
    assert_eq!(validate(&good), Ok(()));
}

#[test]
fn local_before_binding_fails_invalid_local() {
    assert_eq!(
        ProgramI32::new(vec![Node::Local(0)]).err(),
        Some(ProgramError::InvalidLocal)
    );

    // One let is open, but `Local(1)` asks for a second one.
    assert_eq!(
        ProgramI32::new(vec![
            Node::LetIntroduce,
            Node::BinaryOp(BinaryOpI32::Add),
            Node::Input(0),
            Node::Local(1),
            Node::Input(0),
        ])
        .err(),
        Some(ProgramError::InvalidLocal)
    );
}

#[test]
fn overrun_fails_too_many_nodes() {
    assert_eq!(
        ProgramI32::new(vec![Node::Input(0), Node::Input(1)]).err(),
        Some(ProgramError::TooManyNodes)
    );
}

#[test]
fn eval_too_few_inputs() {
    let mut program = ProgramI32::new(vec![Node::Input(2)]).unwrap();
    assert_eq!(program.eval(&[1]).err(), Some(ProgramError::TooFewInputs));
    // The required arity is the maximum observed index, so two inputs pass the
    // pre-flight check and the walk itself reports the missing slot.
    assert_eq!(
        program.eval(&[1, 2]).err(),
        Some(ProgramError::NonExistentInput)
    );
    assert_eq!(program.eval(&[1, 2, 3]).ok(), Some(3));
}

#[test]
fn eval_too_few_constants() {
    let mut program = ProgramI32::new(vec![
        Node::BinaryOp(BinaryOpI32::Add),
        Node::Input(0),
        Node::Constant(2),
    ])
    .unwrap();

    // Constants unset: the stored table is still shorter than required.
    assert_eq!(program.eval(&[5]).err(), Some(ProgramError::TooFewConstants));
    // A too-short replacement is refused outright, and leaves the table alone.
    assert_eq!(
        program.set_constants(&[7]).err(),
        Some(ProgramError::TooFewConstants)
    );
    assert_eq!(program.eval(&[5]).err(), Some(ProgramError::TooFewConstants));
    // A long enough table makes evaluation succeed.
    assert_eq!(program.set_constants(&[7, 9, 11]), Ok(()));
    assert_eq!(program.eval(&[5]).ok(), Some(16));
}

#[test]
fn set_constants_replaces_wholesale() {
    let mut program = ProgramI32::new(vec![Node::Constant(0)]).unwrap();
    program.set_constants(&[3]).unwrap();
    assert_eq!(program.eval(&[]).ok(), Some(3));
    program.set_constants(&[8]).unwrap();
    assert_eq!(program.eval(&[]).ok(), Some(8));
}

#[test]
fn count_vars_constant_count_reads_local_accumulator() {
    // The running maximum for the constant count is folded from the local
    // counter's accumulator: a large local index seen first inflates it ...
    let nodes: Vec<NodeI32> = vec![Node::Local(7), Node::Constant(2)];
    assert_eq!(count_vars(&nodes), (0, 7, 7));

    // ... while in the other order the constant count sees only the small
    // constant index (and stays behind the local count).
    let swapped: Vec<NodeI32> = vec![Node::Constant(2), Node::Local(7)];
    assert_eq!(count_vars(&swapped), (0, 7, 2));

    let inputs_only: Vec<NodeI32> = vec![Node::Input(4), Node::Input(1)];
    assert_eq!(count_vars(&inputs_only), (4, 0, 0));
}

#[test]
fn eval_reports_nonexistent_input() {
    // The required input arity is the maximum observed index, so a one-element
    // slice passes the pre-flight check and the walk itself finds the hole.
    let mut program = ProgramI32::new(vec![Node::Input(1)]).unwrap();
    assert_eq!(
        program.eval(&[9]).err(),
        Some(ProgramError::NonExistentInput)
    );
}

#[test]
fn eval_reports_nonexistent_constant() {
    // `Constant(0)` leaves the required constant count at zero, so an empty
    // table passes the pre-flight check and the lookup fails in the walk.
    let mut program = ProgramI32::new(vec![Node::Constant(0)]).unwrap();
    assert_eq!(
        program.eval(&[]).err(),
        Some(ProgramError::NonExistentConstant)
    );
}

#[test]
fn eval_reports_nonexistent_local() {
    // Validation counts lets in traversal order, but values are appended in
    // bind order: the inner let's body asks for `l1` before the outer let has
    // pushed its value.
    let mut program = ProgramI32::new(vec![
        Node::LetIntroduce,
        Node::LetIntroduce,
        Node::Input(0),
        Node::Local(1),
        Node::Input(0),
    ])
    .unwrap();
    assert_eq!(
        program.eval(&[4]).err(),
        Some(ProgramError::NonExistentLocal)
    );
}

#[test]
fn eval_reports_invalid_tree_after_mutation() {
    let mut program = ProgramI32::new(vec![Node::Input(0)]).unwrap();
    program.nodes.clear();
    assert_eq!(program.eval(&[1]).err(), Some(ProgramError::InvalidTree));
    assert_eq!(program.to_text().err(), Some(ProgramError::InvalidTree));
}

#[test]
fn format_labels_follow_traversal_order() {
    // The renderer labels lets by traversal order, while evaluation appends
    // values in bind order; with a let nested inside a bound expression the
    // two orders differ, and each side keeps its own.
    let mut program = ProgramI32::new(vec![
        Node::LetIntroduce,
        Node::LetIntroduce,
        Node::Input(0),
        Node::Local(0),
        Node::Local(1),
    ])
    .unwrap();
    assert_eq!(program.to_text().unwrap(), "(let l0 (let l1 a0 l0) l1)");
    assert_eq!(program.eval(&[42]).ok(), Some(42));
}

#[test]
fn clamp_ordering_policy() {
    // clamp(a, b, c) == min(max(a, b), c), not the conventional value/lo/hi
    // reading: with b > c the bound wins.
    assert_eq!(TernaryOpI32::Clamp.run(5, 10, 2), 2);
    assert_eq!(TernaryOpI32::Clamp.repr(), "clamp");

    let mut program = ProgramI32::new(vec![
        Node::TernaryOp(TernaryOpI32::Clamp),
        Node::Input(0),
        Node::Input(1),
        Node::Input(2),
    ])
    .unwrap();
    assert_eq!(program.eval(&[5, 10, 2]).ok(), Some(2));
    assert_eq!(program.eval(&[5, 1, 8]).ok(), Some(5));
}

#[test]
fn division_by_zero_yields_zero() {
    let mut program = ProgramI32::new(vec![
        Node::BinaryOp(BinaryOpI32::Div),
        Node::Input(0),
        Node::Input(1),
    ])
    .unwrap();
    assert_eq!(program.eval(&[7, 0]).ok(), Some(0));
    assert_eq!(program.eval(&[7, 2]).ok(), Some(3));
    // The overflowing quotient resolves to 0 by the same policy.
    assert_eq!(program.eval(&[i32::MIN, -1]).ok(), Some(0));
}

#[test]
fn arithmetic_wraps_on_overflow() {
    let mut add = ProgramI32::new(vec![
        Node::BinaryOp(BinaryOpI32::Add),
        Node::Input(0),
        Node::Input(1),
    ])
    .unwrap();
    assert_eq!(add.eval(&[i32::MAX, 1]).ok(), Some(i32::MIN));

    let mut mul = ProgramI32::new(vec![
        Node::BinaryOp(BinaryOpI32::Mul),
        Node::Input(0),
        Node::Input(1),
    ])
    .unwrap();
    assert_eq!(mul.eval(&[i32::MAX, 2]).ok(), Some(-2));
}

#[test]
fn shifts_use_low_five_bits() {
    let mut shl = ProgramI32::new(vec![
        Node::BinaryOp(BinaryOpI32::Shl),
        Node::Input(0),
        Node::Input(1),
    ])
    .unwrap();
    assert_eq!(shl.eval(&[1, 3]).ok(), Some(8));
    assert_eq!(shl.eval(&[1, 33]).ok(), Some(2));

    let mut shr = ProgramI32::new(vec![
        Node::BinaryOp(BinaryOpI32::Shr),
        Node::Input(0),
        Node::Input(1),
    ])
    .unwrap();
    assert_eq!(shr.eval(&[-8, 1]).ok(), Some(-4));
    assert_eq!(shr.eval(&[16, 36]).ok(), Some(1));
}

#[test]
fn bitwise_operators() {
    let mut program = ProgramI32::new(vec![
        Node::BinaryOp(BinaryOpI32::Xor),
        Node::Input(0),
        Node::BinaryOp(BinaryOpI32::And),
        Node::Input(1),
        Node::BinaryOp(BinaryOpI32::Or),
        Node::Input(2),
        Node::Input(3),
    ])
    .unwrap();
    assert_eq!(program.eval(&[0b1100, 0b1010, 0b0110, 0b0001]).ok(), Some(0b1100 ^ (0b1010 & (0b0110 | 0b0001))));
}

#[test]
fn repr_tokens_are_stable() {
    assert_eq!(BinaryOpI32::Add.repr(), "+");
    assert_eq!(BinaryOpI32::Sub.repr(), "-");
    assert_eq!(BinaryOpI32::Mul.repr(), "*");
    assert_eq!(BinaryOpI32::Div.repr(), "/");
    assert_eq!(BinaryOpI32::Xor.repr(), "^");
    assert_eq!(BinaryOpI32::And.repr(), "&");
    assert_eq!(BinaryOpI32::Or.repr(), "|");
    assert_eq!(BinaryOpI32::Shl.repr(), "<<");
    assert_eq!(BinaryOpI32::Shr.repr(), ">>");
}

#[test]
fn format_large_indices_in_decimal() {
    let program = ProgramI32::new(vec![
        Node::BinaryOp(BinaryOpI32::Add),
        Node::Input(205),
        Node::Input(17),
    ])
    .unwrap();
    assert_eq!(program.to_text().unwrap(), "(+ a205 a17)");
}
