//! What the services require of the store: one repository per entity. The
//! store implements these traits; the services hold nothing else of it.
//!
//! Every operation gives a result or an error of the entity's taxonomy. A
//! failure of the store itself is reported as the `Repository` variant.
//!
//! Nothing is promised of what a repository answers. Beside each trait
//! stand predicates that say of a value that it is what a repository
//! answered to a request: the contracts of the services are stated over
//! them.

pub mod category_repo;
pub mod entry_repo;
pub mod month_repo;
pub mod transaction_repo;

pub use category_repo::CategoryRepository;
pub use entry_repo::BudgetEntryRepository;
pub use month_repo::MonthRepository;
pub use transaction_repo::TransactionRepository;
