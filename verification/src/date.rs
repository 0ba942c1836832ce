//! A calendar date held as plain year, month and day numbers.
//!
//! The catalog only stores and compares release dates for equality, so the
//! date is modeled structurally; reading or printing calendar formats is
//! left to the surrounding program.

use vstd::prelude::*;

verus! {

/// A calendar date, compared field by field.
#[derive(Clone, Copy, Debug, PartialEq, Eq, Structural)]
pub struct Date {
    pub year: u32,
    pub month: u8,
    pub day: u8,
}

impl Date {
    /// Build a date from its parts.
    pub fn new(year: u32, month: u8, day: u8) -> (r: Date)
        ensures
            r == (Date { year, month, day }),
    {
        Date { year, month, day }
    }
}

} // verus!
