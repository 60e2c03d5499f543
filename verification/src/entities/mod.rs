//! The records of the budget: categories, months, budget entries and
//! transactions, and the projections that join them.

pub mod budget_entry;
pub mod category;
pub mod field_update;
pub mod month;
pub mod transaction;

pub use budget_entry::{BudgetEntry, BudgetEntryWithCategory, CategorySummary, NewBudgetEntry};
pub use category::{Category, NewCategory};
pub use field_update::FieldUpdate;
pub use month::{Month, NewMonth};
pub use transaction::{NewTransaction, Transaction, MAX_TITLE_LENGTH};
