//! A small verified calculation library built around a closed error taxonomy.
//!
//! The centrepiece is a calculation pipeline that parses two textual operands
//! as base-10 integers, dispatches on an operator symbol, applies domain
//! validation (division by zero, square root of a negative number) and returns
//! either an exact result description or a `CalculationError`.  Integer
//! parsing failures are lifted into the taxonomy without losing the original
//! failure, and a chain walker turns any error into its flat diagnostic trace.

pub mod arith;
pub mod calc;
pub mod division;
pub mod parse;
pub mod shapes;
pub mod simple_error;
pub mod text;
pub mod user;
