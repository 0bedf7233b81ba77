use vstd::prelude::*;

verus! {

/// The operator to apply to a pair of operands. `NONE` is the sentinel for
/// "no operation performed".
#[derive(Clone, Copy, Debug, PartialEq, Eq, Structural)]
#[allow(non_camel_case_types)]
pub enum Operation {
    ADD,
    SUB,
    MUL,
    DIV,
    NONE,
}

/// The record kept for an account: the operator, both operands and the result.
#[derive(Clone, Copy, Debug, PartialEq, Eq, Structural)]
pub struct LastOperation {
    pub operator: Operation,
    pub op_1: i32,
    pub op_2: i32,
    pub result: i32,
}

pub open spec fn fits_i32(x: int) -> bool {
    i32::MIN <= x <= i32::MAX
}

/// Integer division rounded toward zero, as Rust's `/` on integers does.
pub open spec fn div_toward_zero(x: int, d: int) -> int
    recommends
        d != 0,
{
    let q = abs(x) / abs(d);
    if (x < 0) != (d < 0) {
        -q
    } else {
        q
    }
}

/// The exact value of an operation, before any clamping.
pub open spec fn exact_value(operator: Operation, a: int, b: int) -> int
    recommends
        operator is DIV ==> b != 0,
{
    match operator {
        Operation::ADD => a + b,
        Operation::SUB => a - b,
        Operation::MUL => a * b,
        Operation::DIV => div_toward_zero(a, b),
        Operation::NONE => 0,
    }
}

/// The result of an operation: the exact value where it is defined and fits
/// in an `i32`, and 0 otherwise (overflow and division by zero clamp to 0).
pub open spec fn spec_apply(operator: Operation, a: i32, b: i32) -> i32 {
    if operator is DIV && b == 0 {
        0
    } else if fits_i32(exact_value(operator, a as int, b as int)) {
        exact_value(operator, a as int, b as int) as i32
    } else {
        0
    }
}

pub open spec fn abs(x: int) -> int {
    if x < 0 {
        -x
    } else {
        x
    }
}

/// Applies `operator` to `op_1` and `op_2` with checked arithmetic; an
/// overflow or a division by zero yields 0.
pub fn apply(operator: Operation, op_1: i32, op_2: i32) -> (r: i32)
    ensures
        r == spec_apply(operator, op_1, op_2),
        operator is NONE ==> r == 0,
        operator is DIV && op_2 == 0 ==> r == 0,
        !(operator is DIV && op_2 == 0) && fits_i32(exact_value(operator, op_1 as int, op_2 as int))
            ==> r == exact_value(operator, op_1 as int, op_2 as int),
        !fits_i32(exact_value(operator, op_1 as int, op_2 as int)) ==> r == 0,
{
    let checked = match operator {
        Operation::ADD => op_1.checked_add(op_2),
        Operation::SUB => op_1.checked_sub(op_2),
        Operation::MUL => op_1.checked_mul(op_2),
        Operation::DIV => op_1.checked_div(op_2),
        Operation::NONE => Some(0i32),
    };
    match checked {
        Some(v) => v,
        None => 0,
    }
}

impl LastOperation {
    /// The record reported for an account that has none: `{NONE, 0, 0, 0}`.
    pub open spec fn spec_none() -> LastOperation {
        LastOperation { operator: Operation::NONE, op_1: 0, op_2: 0, result: 0 }
    }

    /// The record of applying `operator` to `op_1` and `op_2`.
    pub open spec fn spec_of(operator: Operation, op_1: i32, op_2: i32) -> LastOperation {
        LastOperation { operator, op_1, op_2, result: spec_apply(operator, op_1, op_2) }
    }

    pub fn none() -> (r: LastOperation)
        ensures
            r == LastOperation::spec_none(),
    {
        LastOperation { operator: Operation::NONE, op_1: 0, op_2: 0, result: 0 }
    }

    /// Performs the operation and records it with its operands.
    pub fn of(operator: Operation, op_1: i32, op_2: i32) -> (r: LastOperation)
        ensures
            r == LastOperation::spec_of(operator, op_1, op_2),
    {
        let result = apply(operator, op_1, op_2);
        LastOperation { operator, op_1, op_2, result }
    }
}

} // verus!
