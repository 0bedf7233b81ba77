use xcc_math::math_operation::storage_refund;
use xcc_math::{ExecuteError, ExecuteOutcome, InitError, LastOperation, MathOperation, Operation};

fn service() -> MathOperation {
    let me = String::from("math.near");
    MathOperation::new(&me, &me, false).unwrap()
}

#[test]
fn new_by_another_account_is_unauthorized() {
    let r = MathOperation::new(&String::from("alice.near"), &String::from("math.near"), false);
    assert!(matches!(r, Err(InitError::Unauthorized)));
}

#[test]
fn new_on_existing_state_is_already_initialized() {
    let me = String::from("math.near");
    let r = MathOperation::new(&me, &me, true);
    assert!(matches!(r, Err(InitError::AlreadyInitialized)));
}

#[test]
fn last_result_without_execution_is_none_record() {
    let s = service();
    let r = s.last_operation_result(&String::from("alice.near"));
    assert_eq!(r, LastOperation { operator: Operation::NONE, op_1: 0, op_2: 0, result: 0 });
}

#[test]
fn execute_then_last_result_returns_record() {
    let mut s = service();
    let alice = String::from("alice.near");
    let out = s.execute_operation(&alice, 2, 3, Operation::ADD, 1000, 10, 50).unwrap();
    assert_eq!(out, ExecuteOutcome { result: 5, refund: 500 });
    let r = s.last_operation_result(&alice);
    assert_eq!(r, LastOperation { operator: Operation::ADD, op_1: 2, op_2: 3, result: 5 });
}

#[test]
fn second_execute_overwrites_record() {
    let mut s = service();
    let alice = String::from("alice.near");
    s.execute_operation(&alice, 2, 3, Operation::ADD, 1000, 10, 50).unwrap();
    s.execute_operation(&alice, 9, 3, Operation::DIV, 1000, 10, 0).unwrap();
    let r = s.last_operation_result(&alice);
    assert_eq!(r, LastOperation { operator: Operation::DIV, op_1: 9, op_2: 3, result: 3 });
}

#[test]
fn records_of_callers_are_separate() {
    let mut s = service();
    let alice = String::from("alice.near");
    let bob = String::from("bob.near");
    s.execute_operation(&alice, 5, 2, Operation::SUB, 1000, 10, 50).unwrap();
    s.execute_operation(&bob, 4, 6, Operation::MUL, 1000, 10, 50).unwrap();
    assert_eq!(s.last_operation_result(&alice).result, 3);
    assert_eq!(s.last_operation_result(&bob).result, 24);
    assert_eq!(s.last_operation_result(&String::from("carol.near")), LastOperation::none());
}

#[test]
fn direct_division_by_zero_is_recorded_as_zero() {
    let mut s = service();
    let alice = String::from("alice.near");
    let out = s.execute_operation(&alice, 7, 0, Operation::DIV, 1000, 10, 50).unwrap();
    assert_eq!(out.result, 0);
    assert_eq!(s.last_operation_result(&alice).result, 0);
}

#[test]
fn overpayment_is_refunded() {
    let mut s = service();
    let alice = String::from("alice.near");
    let out = s.execute_operation(&alice, 1, 1, Operation::ADD, 1_000_000, 10_000, 73).unwrap();
    assert_eq!(out.refund, 1_000_000 - 730_000);
    assert!(out.refund_due());
}

#[test]
fn exact_payment_leaves_no_refund() {
    let mut s = service();
    let alice = String::from("alice.near");
    let out = s.execute_operation(&alice, 1, 1, Operation::ADD, 730_000, 10_000, 73).unwrap();
    assert_eq!(out.refund, 0);
    assert!(!out.refund_due());
}

#[test]
fn underpayment_fails_and_writes_nothing() {
    let mut s = service();
    let alice = String::from("alice.near");
    let r = s.execute_operation(&alice, 2, 3, Operation::ADD, 729_999, 10_000, 73);
    assert_eq!(r, Err(ExecuteError::Underpayment));
    assert_eq!(s.last_operation_result(&alice), LastOperation::none());
}

#[test]
fn underpayment_keeps_previous_record() {
    let mut s = service();
    let alice = String::from("alice.near");
    s.execute_operation(&alice, 2, 3, Operation::ADD, 1000, 10, 50).unwrap();
    let r = s.execute_operation(&alice, 4, 6, Operation::MUL, 0, 10, 50);
    assert_eq!(r, Err(ExecuteError::Underpayment));
    assert_eq!(s.last_operation_result(&alice).result, 5);
}

#[test]
fn storage_refund_values() {
    assert_eq!(storage_refund(100, 2, 10), Ok(80));
    assert_eq!(storage_refund(20, 2, 10), Ok(0));
    assert_eq!(storage_refund(19, 2, 10), Err(ExecuteError::Underpayment));
    assert_eq!(storage_refund(5, 0, 10), Ok(5));
    assert_eq!(storage_refund(u128::MAX, u128::MAX, 2), Err(ExecuteError::Underpayment));
}
