//! Checked integer operations with a per-account record of the last result,
//! and the decision logic of a calculator that forwards such operations to a
//! remote service and interprets the outcome.

pub mod calculator;
pub mod error;
pub mod math_operation;
pub mod operation;

pub use calculator::{Calculator, ExecuteCall, LastResultCall};
pub use error::{CalculatorError, ExecuteError, InitError};
pub use math_operation::{ExecuteOutcome, MathOperation};
pub use operation::{LastOperation, Operation};
