use vstd::prelude::*;

verus! {

/// Why a service refused to be constructed.
#[derive(Clone, Copy, Debug, PartialEq, Eq, Structural)]
pub enum InitError {
    /// The constructor was called by an account other than the service's own.
    Unauthorized,
    /// The service already holds state.
    AlreadyInitialized,
}

/// Why an operation was refused by the operation service.
#[derive(Clone, Copy, Debug, PartialEq, Eq, Structural)]
pub enum ExecuteError {
    /// The attached payment does not cover the storage the record takes.
    Underpayment,
}

/// Why the calculator refused a request before making any remote call.
#[derive(Clone, Copy, Debug, PartialEq, Eq, Structural)]
pub enum CalculatorError {
    /// The attached payment is below the minimum of one unit.
    InsufficientDeposit,
    /// A division was requested with a second operand that is not positive.
    InvalidDivisor,
}

/// The outcome of the construction checks, in the order the host makes them:
/// first that the caller is the service itself, then that no state exists.
pub open spec fn spec_init_check(
    predecessor_account_id: Seq<char>,
    current_account_id: Seq<char>,
    state_exists: bool,
) -> Result<(), InitError> {
    if predecessor_account_id != current_account_id {
        Err(InitError::Unauthorized)
    } else if state_exists {
        Err(InitError::AlreadyInitialized)
    } else {
        Ok(())
    }
}

/// Checks that a constructor may run: the caller must be the service's own
/// account and the service must hold no state yet.
pub fn init_check(
    predecessor_account_id: &String,
    current_account_id: &String,
    state_exists: bool,
) -> (r: Result<(), InitError>)
    ensures
        r == spec_init_check(predecessor_account_id@, current_account_id@, state_exists),
{
    if *predecessor_account_id != *current_account_id {
        Err(InitError::Unauthorized)
    } else if state_exists {
        Err(InitError::AlreadyInitialized)
    } else {
        Ok(())
    }
}

} // verus!
