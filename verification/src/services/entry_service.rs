//! Budget entries: what a month plans for a category.

use crate::entities::{BudgetEntryWithCategory, Category, FieldUpdate, Month, NewBudgetEntry};
use crate::errors::{CategoryError, EntryError, MonthError};
use crate::ports::category_repo::category_found;
use crate::ports::entry_repo::{
    entries_listed, entry_created, entry_deleted, entry_updated, transactions_counted,
};
use crate::ports::month_repo::month_found;
use crate::ports::{BudgetEntryRepository, CategoryRepository, MonthRepository};
use crate::types::{DueDay, EntityId, Money};
use std::sync::Arc;
use vstd::prelude::*;

verus! {

/// What the lookup of the month of an entry means for the operation: the
/// month has to exist, and a failure of the lookup is passed on with its
/// text.
pub fn require_month(found: Result<Option<Month>, MonthError>) -> (r: Result<(), EntryError>)
    ensures
        match found {
            Ok(Some(_)) => r is Ok,
            Ok(None) => r matches Err(EntryError::MonthNotFound),
            Err(cause) => r matches Err(EntryError::Repository(text)) && text@ == cause.text(),
        },
{
    match found {
        Ok(Some(_)) => Ok(()),
        Ok(None) => Err(EntryError::MonthNotFound),
        Err(cause) => Err(EntryError::Repository(cause.to_string())),
    }
}

/// What the lookup of the category of an entry means for the operation: the
/// category has to exist, and a failure of the lookup is passed on with its
/// text.
pub fn require_category(found: Result<Option<Category>, CategoryError>) -> (r: Result<
    (),
    EntryError,
>)
    ensures
        match found {
            Ok(Some(_)) => r is Ok,
            Ok(None) => r matches Err(EntryError::CategoryNotFound),
            Err(cause) => r matches Err(EntryError::Repository(text)) && text@ == cause.text(),
        },
{
    match found {
        Ok(Some(_)) => Ok(()),
        Ok(None) => Err(EntryError::CategoryNotFound),
        Err(cause) => Err(EntryError::Repository(cause.to_string())),
    }
}

/// `failure` is how an operation on entries reports that a lookup failed
/// with the text `cause`.
pub open spec fn is_lookup_failure(failure: EntryError, cause: Seq<char>) -> bool {
    failure matches EntryError::Repository(text) && text@ == cause
}

/// Whether an entry with `transaction_count` transactions may be deleted:
/// only one without transactions may.
pub fn deletion_guard(transaction_count: i64) -> (r: Result<(), EntryError>)
    ensures
        transaction_count > 0 ==> r == Err::<(), EntryError>(
            EntryError::HasTransactions { transaction_count },
        ),
        transaction_count <= 0 ==> r is Ok,
{
    if transaction_count > 0 {
        Err(EntryError::HasTransactions { transaction_count })
    } else {
        Ok(())
    }
}

/// Budget entries.
pub struct EntryService<E: BudgetEntryRepository, C: CategoryRepository, M: MonthRepository> {
    entry_repo: Arc<E>,
    category_repo: Arc<C>,
    month_repo: Arc<M>,
}

impl<E: BudgetEntryRepository, C: CategoryRepository, M: MonthRepository> EntryService<E, C, M> {
    /// The repository of entries that the service asks.
    pub closed spec fn entry_repo(&self) -> E {
        *self.entry_repo
    }

    /// The repository of categories that the service asks.
    pub closed spec fn category_repo(&self) -> C {
        *self.category_repo
    }

    /// The repository of months that the service asks.
    pub closed spec fn month_repo(&self) -> M {
        *self.month_repo
    }

    /// `r` is what an operation in the month `month_id` comes to, once the
    /// month was looked up with the answer `found`: a month that is
    /// missing and a lookup that failed end the operation; else `r` is
    /// what the rest of the operation, `then`, comes to.
    pub open spec fn after_month_lookup<T>(
        found: Result<Option<Month>, MonthError>,
        r: Result<T, EntryError>,
        then: bool,
    ) -> bool {
        match found {
            Ok(Some(_)) => then,
            Ok(None) => r matches Err(EntryError::MonthNotFound),
            Err(cause) => r is Err && is_lookup_failure(r->Err_0, cause.text()),
        }
    }

    /// `r` is what the creation of `entry` comes to, once its category was
    /// looked up with the answer `found`: a category that is missing and a
    /// lookup that failed end the creation; else `r` is what the
    /// repository answers to the creation.
    pub open spec fn after_category_lookup(
        &self,
        found: Result<Option<Category>, CategoryError>,
        entry: NewBudgetEntry,
        r: Result<BudgetEntryWithCategory, EntryError>,
    ) -> bool {
        match found {
            Ok(Some(_)) => entry_created(self.entry_repo(), entry, r),
            Ok(None) => r matches Err(EntryError::CategoryNotFound),
            Err(cause) => r is Err && is_lookup_failure(r->Err_0, cause.text()),
        }
    }

    /// `r` is what the deletion of the entry `id` comes to, once its
    /// transactions were counted: an entry with transactions is refused
    /// with their number; of any other, `r` is what the repository answers
    /// to the deletion.
    pub open spec fn deletion_outcome(
        &self,
        id: EntityId,
        transaction_count: i64,
        r: Result<(), EntryError>,
    ) -> bool {
        if transaction_count > 0 {
            r == Err::<(), EntryError>(EntryError::HasTransactions { transaction_count })
        } else {
            entry_deleted(self.entry_repo(), id, r)
        }
    }

    pub fn new(entry_repo: Arc<E>, category_repo: Arc<C>, month_repo: Arc<M>) -> (s: Self)
        ensures
            s.entry_repo() == *entry_repo,
            s.category_repo() == *category_repo,
            s.month_repo() == *month_repo,
    {
        EntryService { entry_repo, category_repo, month_repo }
    }

    /// The entries of a month, which has to exist: the month is looked up,
    /// and where it is there, the result is what the repository of entries
    /// answers to the listing.
    pub fn list_by_month(&self, month_id: &EntityId) -> (r: Result<
        Vec<BudgetEntryWithCategory>,
        EntryError,
    >)
        ensures
            exists|found: Result<Option<Month>, MonthError>|
                #[trigger] month_found(self.month_repo(), *month_id, found)
                    && Self::after_month_lookup(
                    found,
                    r,
                    entries_listed(self.entry_repo(), *month_id, r),
                ),
    {
        let found = self.month_repo.find_by_id(month_id);
        assert(month_found(self.month_repo(), *month_id, found));
        match require_month(found) {
            Ok(_) => self.entry_repo.list_by_month(month_id),
            Err(e) => Err(e),
        }
    }

    /// Creates an entry for a category in a month. Both have to exist; the
    /// month is looked up first, then the category, and where both are
    /// there, the result is what the repository of entries answers to the
    /// creation.
    pub fn create(
        &self,
        month_id: EntityId,
        category_id: EntityId,
        budgeted: Money,
        due_day: Option<DueDay>,
    ) -> (r: Result<BudgetEntryWithCategory, EntryError>)
        ensures
            exists|month: Result<Option<Month>, MonthError>|
                #[trigger] month_found(self.month_repo(), month_id, month)
                    && Self::after_month_lookup(
                    month,
                    r,
                    exists|category: Result<Option<Category>, CategoryError>|
                        #[trigger] category_found(self.category_repo(), category_id, category)
                            && self.after_category_lookup(
                            category,
                            (NewBudgetEntry { month_id, category_id, budgeted, due_day }),
                            r,
                        ),
                ),
    {
        let month = self.month_repo.find_by_id(&month_id);
        assert(month_found(self.month_repo(), month_id, month));
        match require_month(month) {
            Ok(_) => {},
            Err(e) => {
                return Err(e);
            },
        }
        let category = self.category_repo.find_by_id(&category_id);
        assert(category_found(self.category_repo(), category_id, category));
        match require_category(category) {
            Ok(_) => {},
            Err(e) => {
                return Err(e);
            },
        }
        self.entry_repo.create(NewBudgetEntry { month_id, category_id, budgeted, due_day })
    }

    /// Changes the budget where one is given, and the due day as the update
    /// says: gives what the repository answers to the update.
    pub fn update(&self, id: &EntityId, budgeted: Option<Money>, due_day: FieldUpdate<DueDay>) -> (r:
        Result<BudgetEntryWithCategory, EntryError>)
        ensures
            entry_updated(self.entry_repo(), *id, budgeted, due_day, r),
    {
        self.entry_repo.update(id, budgeted, due_day)
    }

    /// Deletes an entry that has no transactions: the transactions are
    /// counted, a count that failed ends the deletion, and else the result
    /// is that of `delete_counted`. The count and the deletion are two
    /// requests to the store: a transaction that is booked between them is
    /// not seen by the guard.
    pub fn delete(&self, id: &EntityId) -> (r: Result<(), EntryError>)
        ensures
            exists|counted: Result<i64, EntryError>|
                #[trigger] transactions_counted(self.entry_repo(), *id, counted) && match counted {
                    Ok(transaction_count) => self.deletion_outcome(*id, transaction_count, r),
                    Err(cause) => r == Err::<(), EntryError>(cause),
                },
    {
        let counted = self.entry_repo.transaction_count(id);
        assert(transactions_counted(self.entry_repo(), *id, counted));
        match counted {
            Ok(transaction_count) => self.delete_counted(id, transaction_count),
            Err(cause) => Err(cause),
        }
    }

    /// The second part of a deletion, once the transactions of the entry
    /// were counted: an entry with transactions is refused, whatever the
    /// repository would answer to the deletion.
    pub fn delete_counted(&self, id: &EntityId, transaction_count: i64) -> (r: Result<
        (),
        EntryError,
    >)
        ensures
            self.deletion_outcome(*id, transaction_count, r),
    {
        match deletion_guard(transaction_count) {
            Ok(_) => self.entry_repo.delete(id),
            Err(e) => Err(e),
        }
    }
}

} // verus!
