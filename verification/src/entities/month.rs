use crate::types::{BudgetMonth, EntityId, Timestamp};
use vstd::prelude::*;

verus! {

/// A month of the budget. There is one record per calendar month.
#[derive(Debug, Clone)]
pub struct Month {
    pub id: EntityId,
    pub month: BudgetMonth,
    pub created_at: Timestamp,
    pub updated_at: Timestamp,
}

/// What is needed to create a month.
#[derive(Debug, Clone)]
pub struct NewMonth {
    pub month: BudgetMonth,
}

} // verus!
