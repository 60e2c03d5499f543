//! The classification of what the store answers to a write: which answers
//! are conflicts, which say that something is missing, and which are
//! failures of the store itself.

use crate::errors::{CategoryError, EntryError, MonthError, TransactionError};
use crate::text::chars_of;
use vstd::prelude::*;

verus! {

/// A failure that the store reported.
#[derive(Debug, Clone, PartialEq, Eq)]
pub struct StoreFailure {
    /// The failure as the store displays it.
    pub text: String,
    /// The message of the database, where the failure came from it.
    pub database_message: Option<String>,
}

/// What the store answered to a write: the number of rows that it changed,
/// or a failure.
pub type WriteAnswer = Result<u64, StoreFailure>;

/// `needle` stands in `haystack` at `at`.
pub open spec fn occurs_at(haystack: Seq<char>, needle: Seq<char>, at: int) -> bool {
    0 <= at && at + needle.len() <= haystack.len() && haystack.subrange(
        at,
        at + needle.len(),
    ) == needle
}

/// `needle` stands somewhere in `haystack`.
pub open spec fn occurs_in(haystack: Seq<char>, needle: Seq<char>) -> bool {
    exists|at: int| occurs_at(haystack, needle, at)
}

fn stands_at(haystack: &Vec<char>, needle: &Vec<char>, at: usize) -> (r: bool)
    requires
        at + needle@.len() <= haystack@.len(),
    ensures
        r == occurs_at(haystack@, needle@, at as int),
{
    let n = needle.len();
    let end = haystack.len();
    let mut i: usize = 0;
    while i < n
        invariant
            i <= n == needle@.len(),
            at + n <= end == haystack@.len(),
            forall|k: int| 0 <= k < i ==> haystack@[at + k] == needle@[k],
        decreases n - i,
    {
        if haystack[at + i] != needle[i] {
            assert(haystack@.subrange(at as int, at + n)[i as int] != needle@[i as int]);
            return false;
        }
        i = i + 1;
    }
    assert(haystack@.subrange(at as int, at + n) =~= needle@);
    true
}

/// Whether `needle` stands somewhere in `haystack`.
pub fn contains_text(haystack: &str, needle: &str) -> (r: bool)
    ensures
        r == occurs_in(haystack@, needle@),
{
    let hay = chars_of(haystack);
    let pin = chars_of(needle);
    if pin.len() > hay.len() {
        assert forall|at: int| !occurs_at(haystack@, needle@, at) by {}
        return false;
    }
    let last = hay.len() - pin.len();
    let mut at: usize = 0;
    while at < last
        invariant
            at <= last,
            last == hay@.len() - pin@.len(),
            hay@ == haystack@,
            pin@ == needle@,
            forall|k: int| 0 <= k < at ==> !occurs_at(haystack@, needle@, k),
        decreases last - at,
    {
        if stands_at(&hay, &pin, at) {
            return true;
        }
        at = at + 1;
    }
    if stands_at(&hay, &pin, last) {
        return true;
    }
    assert forall|k: int| !occurs_at(haystack@, needle@, k) by {}
    false
}

/// The text by which the database reports that a value has to be unique.
pub open spec fn unique_marker() -> Seq<char> {
    "UNIQUE constraint failed"@
}

/// The text by which the database reports that a reference leads nowhere.
pub open spec fn foreign_key_marker() -> Seq<char> {
    "FOREIGN KEY constraint failed"@
}

impl StoreFailure {
    /// The database refused a value that has to be unique.
    pub open spec fn is_unique_violation(&self) -> bool {
        self.database_message is Some && occurs_in(self.database_message->0@, unique_marker())
    }

    /// The database refused a reference that leads nowhere. A failure that
    /// is also a violation of uniqueness counts as that.
    pub open spec fn is_foreign_key_violation(&self) -> bool {
        !self.is_unique_violation() && self.database_message is Some && occurs_in(
            self.database_message->0@,
            foreign_key_marker(),
        )
    }

    pub fn unique_violation(&self) -> (r: bool)
        ensures
            r == self.is_unique_violation(),
    {
        match &self.database_message {
            Some(message) => contains_text(message.as_str(), "UNIQUE constraint failed"),
            None => false,
        }
    }

    pub fn foreign_key_violation(&self) -> (r: bool)
        ensures
            r == self.is_foreign_key_violation(),
    {
        match &self.database_message {
            Some(message) => !contains_text(message.as_str(), "UNIQUE constraint failed")
                && contains_text(message.as_str(), "FOREIGN KEY constraint failed"),
            None => false,
        }
    }
}

/// What the insertion of a category came to: a category with the name
/// exists where the database says so.
pub fn category_insert_outcome(answer: WriteAnswer, name: &str) -> (r: Result<(), CategoryError>)
    ensures
        match answer {
            Ok(_) => r is Ok,
            Err(failure) => if failure.is_unique_violation() {
                r matches Err(CategoryError::NameAlreadyExists { name: taken }) && taken@ == name@
            } else {
                r matches Err(CategoryError::Repository(text)) && text@ == failure.text@
            },
        },
{
    match answer {
        Ok(_) => Ok(()),
        Err(failure) => if failure.unique_violation() {
            Err(CategoryError::NameAlreadyExists { name: name.to_owned() })
        } else {
            Err(CategoryError::Repository(failure.text))
        },
    }
}

/// What the update of a category came to: the category is missing where no
/// row was changed. `name` is the new name, or empty where the name stays.
pub fn category_update_outcome(answer: WriteAnswer, name: &str) -> (r: Result<(), CategoryError>)
    ensures
        match answer {
            Ok(rows) => if rows == 0 {
                r matches Err(CategoryError::NotFound)
            } else {
                r is Ok
            },
            Err(failure) => if failure.is_unique_violation() {
                r matches Err(CategoryError::NameAlreadyExists { name: taken }) && taken@ == name@
            } else {
                r matches Err(CategoryError::Repository(text)) && text@ == failure.text@
            },
        },
{
    match answer {
        Ok(rows) => if rows == 0 {
            Err(CategoryError::NotFound)
        } else {
            Ok(())
        },
        Err(failure) => if failure.unique_violation() {
            Err(CategoryError::NameAlreadyExists { name: name.to_owned() })
        } else {
            Err(CategoryError::Repository(failure.text))
        },
    }
}

/// What the insertion of a month came to: the calendar month has a record
/// where the database says so. `month` is the text of the month.
pub fn month_insert_outcome(answer: WriteAnswer, month: &str) -> (r: Result<(), MonthError>)
    ensures
        match answer {
            Ok(_) => r is Ok,
            Err(failure) => if failure.is_unique_violation() {
                r matches Err(MonthError::AlreadyExists { month: taken }) && taken@ == month@
            } else {
                r matches Err(MonthError::Repository(text)) && text@ == failure.text@
            },
        },
{
    match answer {
        Ok(_) => Ok(()),
        Err(failure) => if failure.unique_violation() {
            Err(MonthError::AlreadyExists { month: month.to_owned() })
        } else {
            Err(MonthError::Repository(failure.text))
        },
    }
}

/// What is to be done after the insertion of a budget entry.
#[derive(Debug, Clone, PartialEq, Eq)]
pub enum EntryInsertOutcome {
    /// The entry is in the store.
    Inserted,
    /// The insertion failed with this error.
    Failed(EntryError),
    /// A reference led nowhere: whether the month exists has to be looked
    /// up, to tell which.
    LookUpMonth,
}

/// What the insertion of a budget entry came to. `category_id` and
/// `month_id` are the texts of the identifiers of the entry.
pub fn entry_insert_outcome(answer: WriteAnswer, category_id: &str, month_id: &str) -> (r:
    EntryInsertOutcome)
    ensures
        match answer {
            Ok(_) => r is Inserted,
            Err(failure) => if failure.is_unique_violation() {
                r matches EntryInsertOutcome::Failed(
                    EntryError::CategoryAlreadyInMonth { category_id: category, month },
                ) && category@ == category_id@ && month@ == month_id@
            } else if failure.is_foreign_key_violation() {
                r is LookUpMonth
            } else {
                r matches EntryInsertOutcome::Failed(EntryError::Repository(text)) && text@
                    == failure.text@
            },
        },
{
    match answer {
        Ok(_) => EntryInsertOutcome::Inserted,
        Err(failure) => if failure.unique_violation() {
            EntryInsertOutcome::Failed(
                EntryError::CategoryAlreadyInMonth {
                    category_id: category_id.to_owned(),
                    month: month_id.to_owned(),
                },
            )
        } else if failure.foreign_key_violation() {
            EntryInsertOutcome::LookUpMonth
        } else {
            EntryInsertOutcome::Failed(EntryError::Repository(failure.text))
        },
    }
}

/// The reference of a new budget entry that led nowhere, once it is known
/// whether the month exists: the month, or else the category.
pub fn missing_reference(month_exists: bool) -> (e: EntryError)
    ensures
        month_exists ==> e is CategoryNotFound,
        !month_exists ==> e is MonthNotFound,
{
    if month_exists {
        EntryError::CategoryNotFound
    } else {
        EntryError::MonthNotFound
    }
}

/// What the update or the deletion of a budget entry came to: the entry is
/// missing where no row was changed.
pub fn entry_write_outcome(answer: WriteAnswer) -> (r: Result<(), EntryError>)
    ensures
        match answer {
            Ok(rows) => if rows == 0 {
                r matches Err(EntryError::NotFound)
            } else {
                r is Ok
            },
            Err(failure) => r matches Err(EntryError::Repository(text)) && text@
                == failure.text@,
        },
{
    match answer {
        Ok(rows) => if rows == 0 {
            Err(EntryError::NotFound)
        } else {
            Ok(())
        },
        Err(failure) => Err(EntryError::Repository(failure.text)),
    }
}

/// What the insertion of a transaction came to: the entry is missing where
/// the database says that a reference leads nowhere.
pub fn transaction_insert_outcome(answer: WriteAnswer) -> (r: Result<(), TransactionError>)
    ensures
        match answer {
            Ok(_) => r is Ok,
            Err(failure) => if failure.is_foreign_key_violation() {
                r matches Err(TransactionError::EntryNotFound)
            } else {
                r matches Err(TransactionError::Repository(text)) && text@ == failure.text@
            },
        },
{
    match answer {
        Ok(_) => Ok(()),
        Err(failure) => if failure.foreign_key_violation() {
            Err(TransactionError::EntryNotFound)
        } else {
            Err(TransactionError::Repository(failure.text))
        },
    }
}

/// What the update of a transaction came to: the transaction is missing
/// where no row was changed, the entry where a reference leads nowhere.
pub fn transaction_update_outcome(answer: WriteAnswer) -> (r: Result<(), TransactionError>)
    ensures
        match answer {
            Ok(rows) => if rows == 0 {
                r matches Err(TransactionError::NotFound)
            } else {
                r is Ok
            },
            Err(failure) => if failure.is_foreign_key_violation() {
                r matches Err(TransactionError::EntryNotFound)
            } else {
                r matches Err(TransactionError::Repository(text)) && text@ == failure.text@
            },
        },
{
    match answer {
        Ok(rows) => if rows == 0 {
            Err(TransactionError::NotFound)
        } else {
            Ok(())
        },
        Err(failure) => if failure.foreign_key_violation() {
            Err(TransactionError::EntryNotFound)
        } else {
            Err(TransactionError::Repository(failure.text))
        },
    }
}

/// What the deletion of a transaction came to: the transaction is missing
/// where no row was changed.
pub fn transaction_delete_outcome(answer: WriteAnswer) -> (r: Result<(), TransactionError>)
    ensures
        match answer {
            Ok(rows) => if rows == 0 {
                r matches Err(TransactionError::NotFound)
            } else {
                r is Ok
            },
            Err(failure) => r matches Err(TransactionError::Repository(text)) && text@
                == failure.text@,
        },
{
    match answer {
        Ok(rows) => if rows == 0 {
            Err(TransactionError::NotFound)
        } else {
            Ok(())
        },
        Err(failure) => Err(TransactionError::Repository(failure.text)),
    }
}

} // verus!
