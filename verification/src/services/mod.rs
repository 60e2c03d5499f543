//! The operations of the budget. Each service holds the repositories that it
//! needs; what it decides is stated by functions that take what the
//! repositories answered, and the contract of each operation says what the
//! operation comes to for every answer: which requests it makes, in which
//! order, and what it gives back.

pub mod category_service;
pub mod entry_service;
pub mod month_service;
pub mod summary_service;
pub mod transaction_service;

pub use category_service::CategoryService;
pub use entry_service::EntryService;
pub use month_service::MonthService;
pub use summary_service::{BudgetStatus, CategoryBudgetSummary, MonthSummary, SummaryService};
pub use transaction_service::TransactionService;
