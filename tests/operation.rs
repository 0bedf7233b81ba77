use xcc_math::operation::apply;
use xcc_math::{LastOperation, Operation};

#[test]
fn add_sub_mul_div_give_exact_results() {
    assert_eq!(apply(Operation::ADD, 2, 3), 5);
    assert_eq!(apply(Operation::SUB, 5, 2), 3);
    assert_eq!(apply(Operation::MUL, 4, 6), 24);
    assert_eq!(apply(Operation::DIV, 9, 3), 3);
}

#[test]
fn division_rounds_toward_zero() {
    assert_eq!(apply(Operation::DIV, -7, 2), -3);
    assert_eq!(apply(Operation::DIV, 7, -2), -3);
    assert_eq!(apply(Operation::DIV, -7, -2), 3);
}

#[test]
fn division_by_zero_clamps_to_zero() {
    assert_eq!(apply(Operation::DIV, 7, 0), 0);
}

#[test]
fn overflow_clamps_to_zero() {
    assert_eq!(apply(Operation::ADD, i32::MAX, 1), 0);
    assert_eq!(apply(Operation::SUB, i32::MIN, 1), 0);
    assert_eq!(apply(Operation::MUL, i32::MAX, 2), 0);
    assert_eq!(apply(Operation::DIV, i32::MIN, -1), 0);
}

#[test]
fn largest_values_that_fit_are_kept() {
    assert_eq!(apply(Operation::ADD, i32::MAX - 1, 1), i32::MAX);
    assert_eq!(apply(Operation::SUB, i32::MIN + 1, 1), i32::MIN);
    assert_eq!(apply(Operation::DIV, i32::MIN, 1), i32::MIN);
}

#[test]
fn none_is_always_zero() {
    assert_eq!(apply(Operation::NONE, 2, 3), 0);
    assert_eq!(apply(Operation::NONE, i32::MAX, i32::MIN), 0);
    assert_eq!(apply(Operation::NONE, 0, 0), 0);
}

#[test]
fn record_holds_operands_and_result() {
    let r = LastOperation::of(Operation::MUL, 4, 6);
    assert_eq!(r, LastOperation { operator: Operation::MUL, op_1: 4, op_2: 6, result: 24 });
    let n = LastOperation::none();
    assert_eq!(n, LastOperation { operator: Operation::NONE, op_1: 0, op_2: 0, result: 0 });
}
