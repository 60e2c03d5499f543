//! Transactions: payments booked on budget entries.

use crate::entities::{BudgetEntry, FieldUpdate, NewTransaction, Transaction, MAX_TITLE_LENGTH};
use crate::errors::{EntryError, TransactionError};
use crate::ports::entry_repo::entry_found;
use crate::ports::transaction_repo::{
    entry_transactions_listed, month_transactions_listed, transaction_created,
    transaction_deleted, transaction_updated,
};
use crate::ports::{BudgetEntryRepository, TransactionRepository};
use crate::text::{chars_of, string_of, trim_bounds, trimmed};
use crate::types::{EntityId, Money, TransactionDate};
use std::sync::Arc;
use vstd::prelude::*;

verus! {

/// The characters of an optional text.
pub open spec fn text_of(title: Option<String>) -> Option<Seq<char>> {
    match title {
        Some(text) => Some(text@),
        None => None,
    }
}

/// A title without the white space around it; no title where nothing is
/// left.
pub open spec fn normalized(title: Option<Seq<char>>) -> Option<Seq<char>> {
    match title {
        Some(text) => if trimmed(text).len() == 0 {
            None
        } else {
            Some(trimmed(text))
        },
        None => None,
    }
}

/// Normalizes a title: trims it, and takes an empty one for none.
pub fn normalize_title(title: Option<String>) -> (r: Option<String>)
    ensures
        text_of(r) == normalized(text_of(title)),
{
    match title {
        Some(text) => {
            let chars = chars_of(text.as_str());
            let (from, to) = trim_bounds(&chars);
            if from == to {
                None
            } else {
                Some(string_of(&chars, from, to))
            }
        },
        None => None,
    }
}

/// A title is short enough: it has at most 50 characters.
pub open spec fn title_fits(title: Option<Seq<char>>) -> bool {
    match title {
        Some(text) => text.len() <= MAX_TITLE_LENGTH,
        None => true,
    }
}

/// Accepts no title and titles of at most 50 characters.
pub fn validate_title_length(title: &Option<String>) -> (r: Result<(), TransactionError>)
    ensures
        title_fits(text_of(*title)) ==> r is Ok,
        !title_fits(text_of(*title)) ==> r == Err::<(), TransactionError>(
            TransactionError::TitleTooLong {
                length: title->0@.len() as usize,
                max: MAX_TITLE_LENGTH,
            },
        ),
{
    match title {
        Some(text) => {
            let length = text.as_str().unicode_len();
            if length > MAX_TITLE_LENGTH {
                return Err(TransactionError::TitleTooLong { length, max: MAX_TITLE_LENGTH });
            }
            Ok(())
        },
        None => Ok(()),
    }
}

/// Accepts the amounts that are not negative.
pub fn validate_amount(amount: Money) -> (r: Result<(), TransactionError>)
    ensures
        amount@ >= 0 ==> r is Ok,
        amount@ < 0 ==> r == Err::<(), TransactionError>(
            TransactionError::InvalidAmount { value: amount@ as i64 },
        ),
{
    if amount.value() < 0 {
        Err(TransactionError::InvalidAmount { value: amount.value() })
    } else {
        Ok(())
    }
}

/// What a new transaction has to meet before the store is asked anything:
/// the amount is tested first, then the normalized title.
pub open spec fn creation_check(amount: int, title: Option<Seq<char>>) -> Result<
    (),
    TransactionError,
> {
    if amount < 0 {
        Err(TransactionError::InvalidAmount { value: amount as i64 })
    } else if !title_fits(normalized(title)) {
        Err(
            TransactionError::TitleTooLong {
                length: normalized(title)->0.len() as usize,
                max: MAX_TITLE_LENGTH,
            },
        )
    } else {
        Ok(())
    }
}

/// The transaction to create, with its title normalized, or the first rule
/// that it breaks.
pub fn checked_new_transaction(
    entry_id: EntityId,
    amount: Money,
    date: TransactionDate,
    title: Option<String>,
) -> (r: Result<NewTransaction, TransactionError>)
    ensures
        match creation_check(amount@, text_of(title)) {
            Ok(_) => r matches Ok(new) && new.entry_id == entry_id && new.amount == amount
                && new.date == date && text_of(new.title) == normalized(text_of(title)),
            Err(e) => r == Err::<NewTransaction, TransactionError>(e),
        },
{
    validate_amount(amount)?;
    let title = normalize_title(title);
    validate_title_length(&title)?;
    Ok(NewTransaction { entry_id, amount, date, title })
}

/// The characters of the title that an update sets.
pub open spec fn update_text_of(title: FieldUpdate<String>) -> FieldUpdate<Seq<char>> {
    match title {
        FieldUpdate::Keep => FieldUpdate::Keep,
        FieldUpdate::Clear => FieldUpdate::Clear,
        FieldUpdate::SetTo(text) => FieldUpdate::SetTo(text@),
    }
}

/// An update of a title with the new title normalized: setting a title of
/// which nothing is left clears the title.
pub open spec fn normalized_update(title: FieldUpdate<Seq<char>>) -> FieldUpdate<Seq<char>> {
    match title {
        FieldUpdate::Keep => FieldUpdate::Keep,
        FieldUpdate::Clear => FieldUpdate::Clear,
        FieldUpdate::SetTo(text) => match normalized(Some(text)) {
            Some(rest) => FieldUpdate::SetTo(rest),
            None => FieldUpdate::Clear,
        },
    }
}

pub fn normalize_title_update(title: FieldUpdate<String>) -> (r: FieldUpdate<String>)
    ensures
        update_text_of(r) == normalized_update(update_text_of(title)),
{
    match title {
        FieldUpdate::Keep => FieldUpdate::Keep,
        FieldUpdate::Clear => FieldUpdate::Clear,
        FieldUpdate::SetTo(text) => match normalize_title(Some(text)) {
            Some(rest) => FieldUpdate::SetTo(rest),
            None => FieldUpdate::Clear,
        },
    }
}

/// The title that an update sets, if it sets one.
pub open spec fn set_title(title: FieldUpdate<Seq<char>>) -> Option<Seq<char>> {
    match title {
        FieldUpdate::SetTo(text) => Some(text),
        _ => None,
    }
}

/// What the fields of an update have to meet, apart from the entry: the
/// amount, where one is given, is tested first, then the normalized title,
/// where one is set.
pub open spec fn update_check(amount: Option<int>, title: FieldUpdate<Seq<char>>) -> Result<
    (),
    TransactionError,
> {
    if amount is Some && amount->0 < 0 {
        Err(TransactionError::InvalidAmount { value: amount->0 as i64 })
    } else if !title_fits(set_title(normalized_update(title))) {
        Err(
            TransactionError::TitleTooLong {
                length: set_title(normalized_update(title))->0.len() as usize,
                max: MAX_TITLE_LENGTH,
            },
        )
    } else {
        Ok(())
    }
}

/// The amount of an optional amount.
pub open spec fn amount_of(amount: Option<Money>) -> Option<int> {
    match amount {
        Some(amount) => Some(amount@),
        None => None,
    }
}

/// The title update to hand to the store, normalized, or the first rule
/// that the update breaks.
pub fn checked_update(amount: Option<Money>, title: FieldUpdate<String>) -> (r: Result<
    FieldUpdate<String>,
    TransactionError,
>)
    ensures
        match update_check(amount_of(amount), update_text_of(title)) {
            Ok(_) => r matches Ok(normal) && update_text_of(normal) == normalized_update(
                update_text_of(title),
            ),
            Err(e) => r == Err::<FieldUpdate<String>, TransactionError>(e),
        },
{
    match amount {
        Some(amount) => {
            validate_amount(amount)?;
        },
        None => {},
    }
    let title = normalize_title_update(title);
    match title {
        FieldUpdate::SetTo(text) => {
            let set = Some(text);
            validate_title_length(&set)?;
            match set {
                Some(text) => Ok(FieldUpdate::SetTo(text)),
                None => Ok(FieldUpdate::Clear),
            }
        },
        FieldUpdate::Keep => Ok(FieldUpdate::Keep),
        FieldUpdate::Clear => Ok(FieldUpdate::Clear),
    }
}

/// What the lookup of the entry of a transaction means for the operation:
/// the entry has to exist, and a failure of the lookup is passed on with its
/// text.
pub fn require_entry(found: Result<Option<BudgetEntry>, EntryError>) -> (r: Result<
    (),
    TransactionError,
>)
    ensures
        match found {
            Ok(Some(_)) => r is Ok,
            Ok(None) => r matches Err(TransactionError::EntryNotFound),
            Err(cause) => r matches Err(TransactionError::Repository(text)) && text@
                == cause.text(),
        },
{
    match found {
        Ok(Some(_)) => Ok(()),
        Ok(None) => Err(TransactionError::EntryNotFound),
        Err(cause) => Err(TransactionError::Repository(cause.to_string())),
    }
}

/// Transactions.
pub struct TransactionService<T: TransactionRepository, E: BudgetEntryRepository> {
    transaction_repo: Arc<T>,
    entry_repo: Arc<E>,
}

impl<T: TransactionRepository, E: BudgetEntryRepository> TransactionService<T, E> {
    /// The repository of transactions that the service asks.
    pub closed spec fn transaction_repo(&self) -> T {
        *self.transaction_repo
    }

    /// The repository of entries that the service asks.
    pub closed spec fn entry_repo(&self) -> E {
        *self.entry_repo
    }

    pub fn new(transaction_repo: Arc<T>, entry_repo: Arc<E>) -> (s: Self)
        ensures
            s.transaction_repo() == *transaction_repo,
            s.entry_repo() == *entry_repo,
    {
        TransactionService { transaction_repo, entry_repo }
    }

    /// The transactions of a month: gives what the repository answers to
    /// the listing.
    pub fn list_by_month(&self, month_id: &EntityId) -> (r: Result<
        Vec<Transaction>,
        TransactionError,
    >)
        ensures
            month_transactions_listed(self.transaction_repo(), *month_id, r),
    {
        self.transaction_repo.list_by_month(month_id)
    }

    /// `r` is what an operation comes to once the entry it names was looked
    /// up with the answer `found`: an entry that is missing ends it with
    /// `EntryNotFound`, a lookup that failed with the text of the failure;
    /// else `r` is what the rest of the operation, `then`, comes to.
    pub open spec fn after_entry_lookup(
        found: Result<Option<BudgetEntry>, EntryError>,
        r: Result<Transaction, TransactionError>,
        then: bool,
    ) -> bool {
        match found {
            Ok(Some(_)) => then,
            Ok(None) => r matches Err(TransactionError::EntryNotFound),
            Err(cause) => r matches Err(TransactionError::Repository(text)) && text@
                == cause.text(),
        }
    }

    /// `r` is what the repository of transactions answered to the creation
    /// of a transaction with these fields and with the title normalized.
    pub open spec fn created_with(
        &self,
        entry_id: EntityId,
        amount: Money,
        date: TransactionDate,
        title: Option<Seq<char>>,
        r: Result<Transaction, TransactionError>,
    ) -> bool {
        exists|new: NewTransaction| #[trigger]
            transaction_created(self.transaction_repo(), new, r) && new.entry_id == entry_id
                && new.amount == amount && new.date == date && text_of(new.title) == normalized(
                title,
            )
    }

    /// `r` is what an update with these fields comes to once the entry, if
    /// one was named, is known to exist: an amount or a title that breaks a
    /// rule fails with that rule; else `r` is what the repository of
    /// transactions answered to the update with the title normalized.
    pub open spec fn updated_with(
        &self,
        id: EntityId,
        entry_id: Option<EntityId>,
        amount: Option<Money>,
        date: Option<TransactionDate>,
        title: FieldUpdate<Seq<char>>,
        r: Result<Transaction, TransactionError>,
    ) -> bool {
        match update_check(amount_of(amount), title) {
            Err(e) => r == Err::<Transaction, TransactionError>(e),
            Ok(_) => exists|normal: FieldUpdate<String>| #[trigger]
                transaction_updated(
                    self.transaction_repo(),
                    id,
                    entry_id,
                    amount,
                    date,
                    normal,
                    r,
                ) && update_text_of(normal) == normalized_update(title),
        }
    }

    /// Books a transaction on an entry. The amount and the title are
    /// checked before the store is asked anything: a transaction that breaks
    /// a rule fails with that rule, whatever the store holds. Then the entry
    /// is looked up and has to exist. Where it does, the result is what the
    /// repository of transactions answers to the creation of the
    /// transaction with the title normalized.
    pub fn create(
        &self,
        entry_id: EntityId,
        amount: Money,
        date: TransactionDate,
        title: Option<String>,
    ) -> (r: Result<Transaction, TransactionError>)
        ensures
            match creation_check(amount@, text_of(title)) {
                Err(e) => r == Err::<Transaction, TransactionError>(e),
                Ok(_) => exists|found: Result<Option<BudgetEntry>, EntryError>| #[trigger]
                    entry_found(self.entry_repo(), entry_id, found) && Self::after_entry_lookup(
                        found,
                        r,
                        self.created_with(entry_id, amount, date, text_of(title), r),
                    ),
            },
    {
        let new_transaction = match checked_new_transaction(entry_id, amount, date, title) {
            Ok(new_transaction) => new_transaction,
            Err(e) => {
                return Err(e);
            },
        };
        let found = self.entry_repo.find_by_id(&entry_id);
        assert(entry_found(self.entry_repo(), entry_id, found));
        match require_entry(found) {
            Ok(_) => {},
            Err(e) => {
                return Err(e);
            },
        }
        let r = self.transaction_repo.create(new_transaction);
        assert(transaction_created(self.transaction_repo(), new_transaction, r));
        r
    }

    /// Changes the fields of a transaction that are given. A new entry is
    /// looked up first and has to exist; then the amount and the title are
    /// checked, and an update that breaks a rule fails with that rule.
    /// Else the result is what the repository of transactions answers to
    /// the update with the title normalized.
    pub fn update(
        &self,
        id: &EntityId,
        entry_id: Option<EntityId>,
        amount: Option<Money>,
        date: Option<TransactionDate>,
        title: FieldUpdate<String>,
    ) -> (r: Result<Transaction, TransactionError>)
        ensures
            match entry_id {
                Some(entry) => exists|found: Result<Option<BudgetEntry>, EntryError>| #[trigger]
                    entry_found(self.entry_repo(), entry, found) && Self::after_entry_lookup(
                        found,
                        r,
                        self.updated_with(*id, entry_id, amount, date, update_text_of(title), r),
                    ),
                None => self.updated_with(*id, entry_id, amount, date, update_text_of(title), r),
            },
    {
        match entry_id {
            Some(entry) => {
                let found = self.entry_repo.find_by_id(&entry);
                assert(entry_found(self.entry_repo(), entry, found));
                match require_entry(found) {
                    Ok(_) => {},
                    Err(e) => {
                        return Err(e);
                    },
                }
            },
            None => {},
        }
        let normal = match checked_update(amount, title) {
            Ok(normal) => normal,
            Err(e) => {
                return Err(e);
            },
        };
        let r = self.transaction_repo.update(id, entry_id, amount, date, normal);
        assert(transaction_updated(
            self.transaction_repo(),
            *id,
            entry_id,
            amount,
            date,
            normal,
            r,
        ));
        r
    }

    /// At most `limit` transactions of an entry after the first `offset`:
    /// gives what the repository answers to the listing.
    pub fn list_by_entry(&self, entry_id: &EntityId, limit: u32, offset: u32) -> (r: Result<
        Vec<Transaction>,
        TransactionError,
    >)
        ensures
            entry_transactions_listed(self.transaction_repo(), *entry_id, limit, offset, r),
    {
        self.transaction_repo.list_by_entry(entry_id, limit, offset)
    }

    /// Gives what the repository answers to the deletion.
    pub fn delete(&self, id: &EntityId) -> (r: Result<(), TransactionError>)
        ensures
            transaction_deleted(self.transaction_repo(), *id, r),
    {
        self.transaction_repo.delete(id)
    }
}

} // verus!
