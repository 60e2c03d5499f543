//! The day of the month on which a budget entry falls due.

use crate::errors::DomainError;
use vstd::prelude::*;

verus! {

/// A day of the month, 1 to 31. Whether the day exists in a given month is
/// not checked.
#[derive(Clone, Copy, Debug, PartialEq, Eq, Structural)]
pub struct DueDay(u8);

/// The days that a `DueDay` can hold.
pub open spec fn is_due_day(value: int) -> bool {
    1 <= value <= 31
}

impl View for DueDay {
    type V = int;

    closed spec fn view(&self) -> int {
        self.0 as int
    }
}

impl DueDay {
    #[verifier::type_invariant]
    spec fn in_range(self) -> bool {
        is_due_day(self.0 as int)
    }

    /// Accepts exactly the days 1 to 31.
    pub fn new(value: u8) -> (r: Result<Self, DomainError>)
        ensures
            is_due_day(value as int) ==> r is Ok && r->Ok_0@ == value,
            !is_due_day(value as int) ==> r is Err && r->Err_0 == (DomainError::InvalidDueDay {
                value,
            }),
    {
        if value < 1 || value > 31 {
            return Err(DomainError::InvalidDueDay { value });
        }
        Ok(DueDay(value))
    }

    pub fn value(&self) -> (v: u8)
        ensures
            v == self@,
            is_due_day(v as int),
    {
        proof {
            use_type_invariant(self);
        }
        self.0
    }
}

} // verus!
