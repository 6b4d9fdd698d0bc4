//! Wrap-around summation of 64-bit signed integers, together with two small
//! functions that show the difference between taking a value and borrowing a
//! slice.
//!
//! Every executable function carries a contract stated over mathematical
//! integers and sequences; the laws that relate them are public proof
//! functions.

pub mod borrows;
pub mod sum;
pub mod wrap;

pub use borrows::{consume_slice, increment};
pub use sum::accumulate;
