use crate::entities::{FieldUpdate, NewTransaction, Transaction};
use crate::errors::TransactionError;
use crate::types::{EntityId, Money, TransactionDate};
use vstd::prelude::*;

verus! {

pub trait TransactionRepository: Send + Sync {
    /// The transactions on the entries of a month, by date descending, then
    /// by time of creation descending.
    fn list_by_month(&self, month_id: &EntityId) -> Result<Vec<Transaction>, TransactionError>;

    fn find_by_id(&self, id: &EntityId) -> Result<Option<Transaction>, TransactionError>;

    /// Fails with `EntryNotFound` where the entry is missing.
    fn create(&self, transaction: NewTransaction) -> Result<Transaction, TransactionError>;

    /// Changes the fields that are given and leaves the others.
    fn update(
        &self,
        id: &EntityId,
        entry_id: Option<EntityId>,
        amount: Option<Money>,
        date: Option<TransactionDate>,
        title: FieldUpdate<String>,
    ) -> Result<Transaction, TransactionError>;

    fn delete(&self, id: &EntityId) -> Result<(), TransactionError>;

    /// The sum of the amounts booked on an entry; zero where there are none.
    fn sum_by_entry(&self, entry_id: &EntityId) -> Result<Money, TransactionError>;

    /// At most `limit` transactions of an entry after the first `offset`, in
    /// the order of `list_by_month`.
    fn list_by_entry(&self, entry_id: &EntityId, limit: u32, offset: u32) -> Result<
        Vec<Transaction>,
        TransactionError,
    >;
}

/// `answer` is what `repo` answered to `list_by_month`.
pub open spec fn month_transactions_listed<R: TransactionRepository>(
    repo: R,
    month_id: EntityId,
    answer: Result<Vec<Transaction>, TransactionError>,
) -> bool {
    call_ensures(R::list_by_month, (&repo, &month_id), answer)
}

/// `answer` is what `repo` answered to `list_by_entry`.
pub open spec fn entry_transactions_listed<R: TransactionRepository>(
    repo: R,
    entry_id: EntityId,
    limit: u32,
    offset: u32,
    answer: Result<Vec<Transaction>, TransactionError>,
) -> bool {
    call_ensures(R::list_by_entry, (&repo, &entry_id, limit, offset), answer)
}

/// `answer` is what `repo` answered to `create`.
pub open spec fn transaction_created<R: TransactionRepository>(
    repo: R,
    transaction: NewTransaction,
    answer: Result<Transaction, TransactionError>,
) -> bool {
    call_ensures(R::create, (&repo, transaction), answer)
}

/// `answer` is what `repo` answered to `update`.
pub open spec fn transaction_updated<R: TransactionRepository>(
    repo: R,
    id: EntityId,
    entry_id: Option<EntityId>,
    amount: Option<Money>,
    date: Option<TransactionDate>,
    title: FieldUpdate<String>,
    answer: Result<Transaction, TransactionError>,
) -> bool {
    call_ensures(R::update, (&repo, &id, entry_id, amount, date, title), answer)
}

/// `answer` is what `repo` answered to `delete`.
pub open spec fn transaction_deleted<R: TransactionRepository>(
    repo: R,
    id: EntityId,
    answer: Result<(), TransactionError>,
) -> bool {
    call_ensures(R::delete, (&repo, &id), answer)
}

/// `answer` is what `repo` answered to `sum_by_entry`.
pub open spec fn payments_summed<R: TransactionRepository>(
    repo: R,
    entry_id: EntityId,
    answer: Result<Money, TransactionError>,
) -> bool {
    call_ensures(R::sum_by_entry, (&repo, &entry_id), answer)
}

} // verus!
