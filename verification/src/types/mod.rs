//! Self-validating value types.

pub mod budget_month;
pub mod category_name;
pub mod due_day;
pub mod entity_id;
pub mod money;
pub mod timestamp;
pub mod transaction_date;

pub use budget_month::BudgetMonth;
pub use category_name::CategoryName;
pub use due_day::DueDay;
pub use entity_id::EntityId;
pub use money::Money;
pub use timestamp::Timestamp;
pub use transaction_date::TransactionDate;
