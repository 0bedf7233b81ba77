use vstd::prelude::*;

use crate::error::{init_check, spec_init_check, CalculatorError, InitError};
use crate::operation::{LastOperation, Operation};

verus! {

/// The failure of a remote call as the host reports it to a completion
/// handler; the handlers here only tell it apart from a success.
#[verifier::external_type_specification]
#[verifier::external_body]
pub struct ExPromiseError(near_sdk::PromiseError);

/// The remote call that carries out an operation: `execute_operation` on the
/// operation service at `receiver`, with `deposit` attached.
#[derive(Debug, PartialEq, Eq)]
pub struct ExecuteCall {
    pub receiver: String,
    pub op_1: i32,
    pub op_2: i32,
    pub operator: Operation,
    pub deposit: u128,
}

/// The remote call that fetches the caller's last record:
/// `last_operation_result` on the operation service at `receiver`.
#[derive(Debug, PartialEq, Eq)]
pub struct LastResultCall {
    pub receiver: String,
}

/// Whether a request may be forwarded: a payment of at least one unit, and a
/// positive divisor for a division.
pub open spec fn spec_check_request(
    op_2: i32,
    operator: Operation,
    deposit: u128,
) -> Result<(), CalculatorError> {
    if deposit < 1 {
        Err(CalculatorError::InsufficientDeposit)
    } else if operator is DIV && op_2 <= 0 {
        Err(CalculatorError::InvalidDivisor)
    } else {
        Ok(())
    }
}

/// The calculator: a front for the operation service at `xcc_account`.
pub struct Calculator {
    pub xcc_account: String,
}

impl Calculator {
    /// Creates the calculator for the operation service at `xcc_account`.
    /// Only the calculator's own account may do so, and only once.
    pub fn new(
        xcc_account: String,
        predecessor_account_id: &String,
        current_account_id: &String,
        state_exists: bool,
    ) -> (r: Result<Calculator, InitError>)
        ensures
            match r {
                Ok(c) => spec_init_check(predecessor_account_id@, current_account_id@, state_exists)
                    is Ok && c.xcc_account@ == xcc_account@,
                Err(e) => spec_init_check(predecessor_account_id@, current_account_id@, state_exists)
                    == Err::<(), InitError>(e),
            },
    {
        match init_check(predecessor_account_id, current_account_id, state_exists) {
            Ok(()) => Ok(Calculator { xcc_account }),
            Err(e) => Err(e),
        }
    }

    /// Checks a request and, where it passes, gives the remote call that
    /// carries it out, with the whole payment attached. A refused request
    /// gives no call.
    pub fn perform_operation(&self, op_1: i32, op_2: i32, operator: Operation, deposit: u128) -> (r:
        Result<ExecuteCall, CalculatorError>)
        ensures
            match r {
                Ok(call) => spec_check_request(op_2, operator, deposit) is Ok && call.receiver@
                    == self.xcc_account@ && call.op_1 == op_1 && call.op_2 == op_2 && call.operator
                    == operator && call.deposit == deposit,
                Err(e) => spec_check_request(op_2, operator, deposit) == Err::<(), CalculatorError>(e),
            },
            deposit == 0 ==> r == Err::<ExecuteCall, CalculatorError>(
                CalculatorError::InsufficientDeposit,
            ),
            deposit > 0 && operator is DIV && op_2 <= 0 ==> r == Err::<ExecuteCall, CalculatorError>(
                CalculatorError::InvalidDivisor,
            ),
    {
        if deposit < 1 {
            return Err(CalculatorError::InsufficientDeposit);
        }
        let is_divide_operation = match operator {
            Operation::DIV => true,
            _ => false,
        };
        if is_divide_operation && op_2 <= 0 {
            return Err(CalculatorError::InvalidDivisor);
        }
        Ok(ExecuteCall { receiver: self.xcc_account.clone(), op_1, op_2, operator, deposit })
    }

    /// Completion of `perform_operation`: `true` where the remote call
    /// succeeded, `false` where it failed for any reason.
    pub fn operation_callback(&self, call_result: Result<i32, near_sdk::PromiseError>) -> (r: bool)
        ensures
            r == call_result is Ok,
    {
        match call_result {
            Ok(_) => true,
            Err(_) => false,
        }
    }

    /// The remote call that fetches the caller's last record.
    pub fn query_last_operation_result(&self) -> (r: LastResultCall)
        ensures
            r.receiver@ == self.xcc_account@,
    {
        LastResultCall { receiver: self.xcc_account.clone() }
    }

    /// Completion of `query_last_operation_result`: the remote record where
    /// the call succeeded, `{NONE, 0, 0, 0}` where it failed.
    pub fn last_operation_result_callback(
        &self,
        call_result: Result<LastOperation, near_sdk::PromiseError>,
    ) -> (r: LastOperation)
        ensures
            match call_result {
                Ok(record) => r == record,
                Err(_) => r == LastOperation::spec_none(),
            },
    {
        match call_result {
            Ok(record) => record,
            Err(_) => LastOperation::none(),
        }
    }
}

} // verus!
