use crate::types::{CategoryName, DueDay, EntityId, Money, Timestamp};
use vstd::prelude::*;

verus! {

/// The money planned for one category in one month. A month holds at most
/// one entry per category.
#[derive(Debug, Clone)]
pub struct BudgetEntry {
    pub id: EntityId,
    pub month_id: EntityId,
    pub category_id: EntityId,
    pub budgeted: Money,
    pub due_day: Option<DueDay>,
    pub created_at: Timestamp,
    pub updated_at: Timestamp,
}

/// A budget entry together with the category that it belongs to.
#[derive(Debug, Clone)]
pub struct BudgetEntryWithCategory {
    pub id: EntityId,
    pub category: CategorySummary,
    pub budgeted: Money,
    pub due_day: Option<DueDay>,
    pub created_at: Timestamp,
    pub updated_at: Timestamp,
}

/// What entries and summaries show of a category.
#[derive(Debug, Clone)]
pub struct CategorySummary {
    pub id: EntityId,
    pub name: CategoryName,
    pub label: Option<String>,
}

/// What is needed to create a budget entry.
#[derive(Debug, Clone)]
pub struct NewBudgetEntry {
    pub month_id: EntityId,
    pub category_id: EntityId,
    pub budgeted: Money,
    pub due_day: Option<DueDay>,
}

} // verus!
