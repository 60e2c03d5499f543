//! The error taxonomy: one enum per entity, plus the errors of the
//! self-validating value types. Each error has a human-readable text.
//!
//! An error says that something is missing (`NotFound` and its kin), that a
//! request conflicts with what exists (`NameAlreadyExists`, `AlreadyExists`,
//! `CategoryAlreadyInMonth`, `HasTransactions`), that an input breaks a rule
//! (the `Invalid*` variants, `TitleTooLong`), or that the store failed
//! (`Repository`, with the cause as text).

use crate::text::{append_decimal, append_signed_decimal, decimal_digits, signed_decimal};
use vstd::prelude::*;

verus! {

/// A value type rejected its input.
#[derive(Debug, Clone, PartialEq, Eq)]
pub enum DomainError {
    InvalidBudgetMonth { reason: String },
    InvalidDueDay { value: u8 },
    InvalidCategoryName { reason: String },
    InvalidTransactionDate { reason: String },
}

/// What can go wrong with categories.
#[derive(Debug, Clone, PartialEq, Eq)]
pub enum CategoryError {
    NotFound,
    NameAlreadyExists { name: String },
    InvalidNameFormat { reason: String },
    Repository(String),
}

/// What can go wrong with months.
#[derive(Debug, Clone, PartialEq, Eq)]
pub enum MonthError {
    AlreadyExists { month: String },
    InvalidFormat { value: String },
    NotFound,
    Repository(String),
}

/// What can go wrong with budget entries.
#[derive(Debug, Clone, PartialEq, Eq)]
pub enum EntryError {
    CategoryAlreadyInMonth { category_id: String, month: String },
    NotFound,
    HasTransactions { transaction_count: i64 },
    InvalidDueDay { value: u8 },
    CategoryNotFound,
    MonthNotFound,
    Repository(String),
}

/// What can go wrong with transactions.
#[allow(inconsistent_fields)]
#[derive(Debug, Clone, PartialEq, Eq)]
pub enum TransactionError {
    InvalidAmount { value: i64 },
    NotFound,
    EntryNotFound,
    InvalidDate { value: String },
    TitleTooLong { length: usize, max: usize },
    Repository(String),
}

/// `prefix` followed by `detail`.
pub fn prefixed(prefix: &str, detail: &str) -> (s: String)
    ensures
        s@ == prefix@ + detail@,
{
    prefix.to_owned().concat(detail)
}

/// `prefix` followed by `n` in decimal.
pub fn prefixed_number(prefix: &str, n: i64) -> (s: String)
    ensures
        s@ == prefix@ + signed_decimal(n as int),
{
    let mut s = prefix.to_owned();
    append_signed_decimal(&mut s, n);
    s
}

impl DomainError {
    /// The text of this error.
    pub open spec fn text(&self) -> Seq<char> {
        match self {
            DomainError::InvalidBudgetMonth { reason } => "Invalid budget month: "@ + reason@,
            DomainError::InvalidDueDay { value } => "Invalid due day: "@ + signed_decimal(
                *value as int,
            ),
            DomainError::InvalidCategoryName { reason } => "Invalid category name: "@ + reason@,
            DomainError::InvalidTransactionDate { reason } => "Invalid transaction date: "@
                + reason@,
        }
    }

    pub fn to_string(&self) -> (s: String)
        ensures
            s@ == self.text(),
    {
        match self {
            DomainError::InvalidBudgetMonth { reason } => prefixed(
                "Invalid budget month: ",
                reason.as_str(),
            ),
            DomainError::InvalidDueDay { value } => prefixed_number(
                "Invalid due day: ",
                *value as i64,
            ),
            DomainError::InvalidCategoryName { reason } => prefixed(
                "Invalid category name: ",
                reason.as_str(),
            ),
            DomainError::InvalidTransactionDate { reason } => prefixed(
                "Invalid transaction date: ",
                reason.as_str(),
            ),
        }
    }
}

impl CategoryError {
    /// The text of this error.
    pub open spec fn text(&self) -> Seq<char> {
        match self {
            CategoryError::NotFound => "Category not found"@,
            CategoryError::NameAlreadyExists { name } => "Category name already exists: "@ + name@,
            CategoryError::InvalidNameFormat { reason } => "Invalid category name format: "@
                + reason@,
            CategoryError::Repository(cause) => "Repository error: "@ + cause@,
        }
    }

    pub fn to_string(&self) -> (s: String)
        ensures
            s@ == self.text(),
    {
        match self {
            CategoryError::NotFound => "Category not found".to_owned(),
            CategoryError::NameAlreadyExists { name } => prefixed(
                "Category name already exists: ",
                name.as_str(),
            ),
            CategoryError::InvalidNameFormat { reason } => prefixed(
                "Invalid category name format: ",
                reason.as_str(),
            ),
            CategoryError::Repository(cause) => prefixed("Repository error: ", cause.as_str()),
        }
    }
}

impl MonthError {
    /// The text of this error.
    pub open spec fn text(&self) -> Seq<char> {
        match self {
            MonthError::AlreadyExists { month } => "Month already exists: "@ + month@,
            MonthError::InvalidFormat { value } => "Invalid month format: "@ + value@,
            MonthError::NotFound => "Month not found"@,
            MonthError::Repository(cause) => "Repository error: "@ + cause@,
        }
    }

    pub fn to_string(&self) -> (s: String)
        ensures
            s@ == self.text(),
    {
        match self {
            MonthError::AlreadyExists { month } => prefixed(
                "Month already exists: ",
                month.as_str(),
            ),
            MonthError::InvalidFormat { value } => prefixed(
                "Invalid month format: ",
                value.as_str(),
            ),
            MonthError::NotFound => "Month not found".to_owned(),
            MonthError::Repository(cause) => prefixed("Repository error: ", cause.as_str()),
        }
    }
}

impl EntryError {
    /// The text of this error.
    pub open spec fn text(&self) -> Seq<char> {
        match self {
            EntryError::CategoryAlreadyInMonth { .. } => "Category already in month"@,
            EntryError::NotFound => "Entry not found"@,
            EntryError::HasTransactions { .. } => "Entry has transactions"@,
            EntryError::InvalidDueDay { value } => "Invalid due day: "@ + signed_decimal(
                *value as int,
            ),
            EntryError::CategoryNotFound => "Category not found"@,
            EntryError::MonthNotFound => "Month not found"@,
            EntryError::Repository(cause) => "Repository error: "@ + cause@,
        }
    }

    pub fn to_string(&self) -> (s: String)
        ensures
            s@ == self.text(),
    {
        match self {
            EntryError::CategoryAlreadyInMonth { .. } => "Category already in month".to_owned(),
            EntryError::NotFound => "Entry not found".to_owned(),
            EntryError::HasTransactions { .. } => "Entry has transactions".to_owned(),
            EntryError::InvalidDueDay { value } => prefixed_number(
                "Invalid due day: ",
                *value as i64,
            ),
            EntryError::CategoryNotFound => "Category not found".to_owned(),
            EntryError::MonthNotFound => "Month not found".to_owned(),
            EntryError::Repository(cause) => prefixed("Repository error: ", cause.as_str()),
        }
    }
}

impl TransactionError {
    /// The text of this error.
    pub open spec fn text(&self) -> Seq<char> {
        match self {
            TransactionError::InvalidAmount { value } => "Invalid amount: "@ + signed_decimal(
                *value as int,
            ),
            TransactionError::NotFound => "Transaction not found"@,
            TransactionError::EntryNotFound => "Entry not found"@,
            TransactionError::InvalidDate { value } => "Invalid date: "@ + value@,
            TransactionError::TitleTooLong { length, max } => "Title too long: "@ + decimal_digits(
                *length as nat,
            ) + " characters (max "@ + decimal_digits(*max as nat) + ")"@,
            TransactionError::Repository(cause) => "Repository error: "@ + cause@,
        }
    }

    pub fn to_string(&self) -> (s: String)
        ensures
            s@ == self.text(),
    {
        match self {
            TransactionError::InvalidAmount { value } => prefixed_number(
                "Invalid amount: ",
                *value,
            ),
            TransactionError::NotFound => "Transaction not found".to_owned(),
            TransactionError::EntryNotFound => "Entry not found".to_owned(),
            TransactionError::InvalidDate { value } => prefixed("Invalid date: ", value.as_str()),
            TransactionError::TitleTooLong { length, max } => {
                let mut s = "Title too long: ".to_owned();
                append_decimal(&mut s, *length as u64);
                s.append(" characters (max ");
                append_decimal(&mut s, *max as u64);
                s.append(")");
                s
            },
            TransactionError::Repository(cause) => prefixed("Repository error: ", cause.as_str()),
        }
    }
}

} // verus!
