use crate::entities::{BudgetEntry, BudgetEntryWithCategory, FieldUpdate, NewBudgetEntry};
use crate::errors::EntryError;
use crate::types::{DueDay, EntityId, Money};
use vstd::prelude::*;

verus! {

pub trait BudgetEntryRepository: Send + Sync {
    /// The entries of a month with their categories, by due day ascending
    /// with entries without a due day last, then by category name ascending.
    fn list_by_month(&self, month_id: &EntityId) -> Result<
        Vec<BudgetEntryWithCategory>,
        EntryError,
    >;

    fn find_by_id(&self, id: &EntityId) -> Result<Option<BudgetEntry>, EntryError>;

    /// Fails with `CategoryAlreadyInMonth` where the month has an entry for
    /// the category, and where the month or the category is missing.
    fn create(&self, entry: NewBudgetEntry) -> Result<BudgetEntryWithCategory, EntryError>;

    /// Changes the fields that are given and leaves the others.
    fn update(&self, id: &EntityId, budgeted: Option<Money>, due_day: FieldUpdate<DueDay>) -> Result<
        BudgetEntryWithCategory,
        EntryError,
    >;

    fn delete(&self, id: &EntityId) -> Result<(), EntryError>;

    /// The number of transactions booked on an entry.
    fn transaction_count(&self, entry_id: &EntityId) -> Result<i64, EntryError>;
}

/// `answer` is what `repo` answered to `list_by_month`.
pub open spec fn entries_listed<R: BudgetEntryRepository>(
    repo: R,
    month_id: EntityId,
    answer: Result<Vec<BudgetEntryWithCategory>, EntryError>,
) -> bool {
    call_ensures(R::list_by_month, (&repo, &month_id), answer)
}

/// `answer` is what `repo` answered to `find_by_id`.
pub open spec fn entry_found<R: BudgetEntryRepository>(
    repo: R,
    id: EntityId,
    answer: Result<Option<BudgetEntry>, EntryError>,
) -> bool {
    call_ensures(R::find_by_id, (&repo, &id), answer)
}

/// `answer` is what `repo` answered to `create`.
pub open spec fn entry_created<R: BudgetEntryRepository>(
    repo: R,
    entry: NewBudgetEntry,
    answer: Result<BudgetEntryWithCategory, EntryError>,
) -> bool {
    call_ensures(R::create, (&repo, entry), answer)
}

/// `answer` is what `repo` answered to `update`.
pub open spec fn entry_updated<R: BudgetEntryRepository>(
    repo: R,
    id: EntityId,
    budgeted: Option<Money>,
    due_day: FieldUpdate<DueDay>,
    answer: Result<BudgetEntryWithCategory, EntryError>,
) -> bool {
    call_ensures(R::update, (&repo, &id, budgeted, due_day), answer)
}

/// `answer` is what `repo` answered to `delete`.
pub open spec fn entry_deleted<R: BudgetEntryRepository>(
    repo: R,
    id: EntityId,
    answer: Result<(), EntryError>,
) -> bool {
    call_ensures(R::delete, (&repo, &id), answer)
}

/// `answer` is what `repo` answered to `transaction_count`.
pub open spec fn transactions_counted<R: BudgetEntryRepository>(
    repo: R,
    entry_id: EntityId,
    answer: Result<i64, EntryError>,
) -> bool {
    call_ensures(R::transaction_count, (&repo, &entry_id), answer)
}

} // verus!
