//! Typed evaluation core of a filter-expression engine.
//!
//! Given a named set of typed field values (network addresses, byte
//! sequences, unsigned integers) and compiled comparison operators, the
//! library produces boolean verdicts: three-way ordering against literals
//! and inclusive address ranges, regex / bitwise / substring matching, an
//! "is one of" membership test, and the boolean combinators that fold
//! sub-results into a final verdict. Comparing values of incompatible
//! domains is reported as a type mismatch carrying the value's type tag,
//! never as a panic.

pub mod bytes;
pub mod order;
pub mod op;
pub mod text;
pub mod value;
pub mod exec;
