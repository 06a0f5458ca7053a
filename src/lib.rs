//! Amortization support for a table function that lists a loan's repayment
//! schedule: the repayment schemes and their names, the structural checks on
//! a loan's shape, and the row bookkeeping of the schedule table.
//!
//! The money arithmetic itself works on binary floating point and lives with
//! the host integration; everything here is integer, string and sequence logic.

pub mod scheme;
pub mod loan;
pub mod table;
