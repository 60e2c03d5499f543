//! The errors of the interface: a status code, a stable code for machines,
//! and details where the error has any.
//!
//! Errors that say that something is missing have status 404, conflicts
//! 409, inputs that break a rule 422, and failures of the store 500. The
//! text of a failure of the store is not shown.

use crate::errors::{CategoryError, EntryError, MonthError, TransactionError};
use vstd::prelude::*;

verus! {

/// A value among the details of an error.
#[derive(Debug, Clone, PartialEq, Eq)]
pub enum DetailValue {
    Text(String),
    Number(i64),
    Count(u64),
}

/// What a detail holds.
pub enum Detail {
    Text(Seq<char>),
    Number(int),
}

impl View for DetailValue {
    type V = Detail;

    open spec fn view(&self) -> Detail {
        match self {
            DetailValue::Text(text) => Detail::Text(text@),
            DetailValue::Number(n) => Detail::Number(*n as int),
            DetailValue::Count(n) => Detail::Number(*n as int),
        }
    }
}

/// An error as the interface reports it.
#[derive(Debug, Clone, PartialEq, Eq)]
pub struct ApiError {
    pub status: u16,
    pub code: String,
    pub details: Option<Vec<(String, DetailValue)>>,
}

/// An error as a value of the specification.
pub struct ApiErrorView {
    pub status: int,
    pub code: Seq<char>,
    pub details: Option<Seq<(Seq<char>, Detail)>>,
}

impl View for ApiError {
    type V = ApiErrorView;

    open spec fn view(&self) -> ApiErrorView {
        ApiErrorView {
            status: self.status as int,
            code: self.code@,
            details: match self.details {
                Some(details) => Some(
                    Seq::new(details@.len(), |i: int| (details@[i].0@, details@[i].1@)),
                ),
                None => None,
            },
        }
    }
}

/// An error without details.
pub open spec fn plain_error(status: int, code: Seq<char>) -> ApiErrorView {
    ApiErrorView { status, code, details: None }
}

/// An error with one detail.
pub open spec fn detailed_error(status: int, code: Seq<char>, key: Seq<char>, value: Detail)
    -> ApiErrorView {
    ApiErrorView { status, code, details: Some(seq![(key, value)]) }
}

/// An error with two details.
pub open spec fn twice_detailed_error(
    status: int,
    code: Seq<char>,
    first: (Seq<char>, Detail),
    second: (Seq<char>, Detail),
) -> ApiErrorView {
    ApiErrorView { status, code, details: Some(seq![first, second]) }
}

fn plain(status: u16, code: &str) -> (e: ApiError)
    ensures
        e@ == plain_error(status as int, code@),
{
    ApiError { status, code: code.to_owned(), details: None }
}

fn detailed(status: u16, code: &str, key: &str, value: DetailValue) -> (e: ApiError)
    ensures
        e@ == detailed_error(status as int, code@, key@, value@),
{
    let mut details: Vec<(String, DetailValue)> = Vec::new();
    details.push((key.to_owned(), value));
    let e = ApiError { status, code: code.to_owned(), details: Some(details) };
    assert(e@.details->0 =~= seq![(key@, value@)]);
    e
}

fn twice_detailed(
    status: u16,
    code: &str,
    first_key: &str,
    first: DetailValue,
    second_key: &str,
    second: DetailValue,
) -> (e: ApiError)
    ensures
        e@ == twice_detailed_error(
            status as int,
            code@,
            (first_key@, first@),
            (second_key@, second@),
        ),
{
    let mut details: Vec<(String, DetailValue)> = Vec::new();
    details.push((first_key.to_owned(), first));
    details.push((second_key.to_owned(), second));
    let e = ApiError { status, code: code.to_owned(), details: Some(details) };
    assert(e@.details->0 =~= seq![(first_key@, first@), (second_key@, second@)]);
    e
}

/// How the interface reports an error of categories.
pub open spec fn category_error_view(err: CategoryError) -> ApiErrorView {
    match err {
        CategoryError::NotFound => plain_error(404, "CATEGORY_NOT_FOUND"@),
        CategoryError::NameAlreadyExists { name } => detailed_error(
            409,
            "CATEGORY_NAME_ALREADY_EXISTS"@,
            "name"@,
            Detail::Text(name@),
        ),
        CategoryError::InvalidNameFormat { reason } => detailed_error(
            422,
            "CATEGORY_INVALID_NAME"@,
            "reason"@,
            Detail::Text(reason@),
        ),
        CategoryError::Repository(_) => plain_error(500, "INTERNAL_ERROR"@),
    }
}

/// How the interface reports an error of months.
pub open spec fn month_error_view(err: MonthError) -> ApiErrorView {
    match err {
        MonthError::NotFound => plain_error(404, "MONTH_NOT_FOUND"@),
        MonthError::AlreadyExists { month } => detailed_error(
            409,
            "MONTH_ALREADY_EXISTS"@,
            "month"@,
            Detail::Text(month@),
        ),
        MonthError::InvalidFormat { value } => detailed_error(
            422,
            "MONTH_INVALID_FORMAT"@,
            "value"@,
            Detail::Text(value@),
        ),
        MonthError::Repository(_) => plain_error(500, "INTERNAL_ERROR"@),
    }
}

/// How the interface reports an error of budget entries.
pub open spec fn entry_error_view(err: EntryError) -> ApiErrorView {
    match err {
        EntryError::NotFound => plain_error(404, "ENTRY_NOT_FOUND"@),
        EntryError::CategoryAlreadyInMonth { category_id, month } => twice_detailed_error(
            409,
            "ENTRY_CATEGORY_ALREADY_IN_MONTH"@,
            ("category_id"@, Detail::Text(category_id@)),
            ("month"@, Detail::Text(month@)),
        ),
        EntryError::HasTransactions { transaction_count } => detailed_error(
            409,
            "ENTRY_HAS_TRANSACTIONS"@,
            "transaction_count"@,
            Detail::Number(transaction_count as int),
        ),
        EntryError::InvalidDueDay { value } => detailed_error(
            422,
            "ENTRY_INVALID_DUE_DAY"@,
            "value"@,
            Detail::Number(value as int),
        ),
        EntryError::CategoryNotFound => plain_error(404, "CATEGORY_NOT_FOUND"@),
        EntryError::MonthNotFound => plain_error(404, "MONTH_NOT_FOUND"@),
        EntryError::Repository(_) => plain_error(500, "INTERNAL_ERROR"@),
    }
}

/// How the interface reports an error of transactions.
pub open spec fn transaction_error_view(err: TransactionError) -> ApiErrorView {
    match err {
        TransactionError::NotFound => plain_error(404, "TRANSACTION_NOT_FOUND"@),
        TransactionError::EntryNotFound => plain_error(404, "TRANSACTION_ENTRY_NOT_FOUND"@),
        TransactionError::InvalidAmount { value } => detailed_error(
            422,
            "TRANSACTION_INVALID_AMOUNT"@,
            "value"@,
            Detail::Number(value as int),
        ),
        TransactionError::InvalidDate { value } => detailed_error(
            422,
            "TRANSACTION_INVALID_DATE"@,
            "value"@,
            Detail::Text(value@),
        ),
        TransactionError::TitleTooLong { length, max } => twice_detailed_error(
            422,
            "TRANSACTION_TITLE_TOO_LONG"@,
            ("length"@, Detail::Number(length as int)),
            ("max"@, Detail::Number(max as int)),
        ),
        TransactionError::Repository(_) => plain_error(500, "INTERNAL_ERROR"@),
    }
}

impl ApiError {
    /// A request that cannot be understood, with the reason.
    pub fn bad_request(reason: &str) -> (e: Self)
        ensures
            e@ == detailed_error(400, "BAD_REQUEST"@, "reason"@, Detail::Text(reason@)),
    {
        detailed(400, "BAD_REQUEST", "reason", DetailValue::Text(reason.to_owned()))
    }

    /// A listing of transactions that names neither an entry nor a month.
    pub fn month_required() -> (e: Self)
        ensures
            e@ == plain_error(400, "TRANSACTIONS_MONTH_REQUIRED"@),
    {
        plain(400, "TRANSACTIONS_MONTH_REQUIRED")
    }

    pub fn from_category_error(err: CategoryError) -> (e: Self)
        ensures
            e@ == category_error_view(err),
    {
        match err {
            CategoryError::NotFound => plain(404, "CATEGORY_NOT_FOUND"),
            CategoryError::NameAlreadyExists { name } => detailed(
                409,
                "CATEGORY_NAME_ALREADY_EXISTS",
                "name",
                DetailValue::Text(name),
            ),
            CategoryError::InvalidNameFormat { reason } => detailed(
                422,
                "CATEGORY_INVALID_NAME",
                "reason",
                DetailValue::Text(reason),
            ),
            CategoryError::Repository(_) => plain(500, "INTERNAL_ERROR"),
        }
    }

    pub fn from_month_error(err: MonthError) -> (e: Self)
        ensures
            e@ == month_error_view(err),
    {
        match err {
            MonthError::NotFound => plain(404, "MONTH_NOT_FOUND"),
            MonthError::AlreadyExists { month } => detailed(
                409,
                "MONTH_ALREADY_EXISTS",
                "month",
                DetailValue::Text(month),
            ),
            MonthError::InvalidFormat { value } => detailed(
                422,
                "MONTH_INVALID_FORMAT",
                "value",
                DetailValue::Text(value),
            ),
            MonthError::Repository(_) => plain(500, "INTERNAL_ERROR"),
        }
    }

    pub fn from_entry_error(err: EntryError) -> (e: Self)
        ensures
            e@ == entry_error_view(err),
    {
        match err {
            EntryError::NotFound => plain(404, "ENTRY_NOT_FOUND"),
            EntryError::CategoryAlreadyInMonth { category_id, month } => twice_detailed(
                409,
                "ENTRY_CATEGORY_ALREADY_IN_MONTH",
                "category_id",
                DetailValue::Text(category_id),
                "month",
                DetailValue::Text(month),
            ),
            EntryError::HasTransactions { transaction_count } => detailed(
                409,
                "ENTRY_HAS_TRANSACTIONS",
                "transaction_count",
                DetailValue::Number(transaction_count),
            ),
            EntryError::InvalidDueDay { value } => detailed(
                422,
                "ENTRY_INVALID_DUE_DAY",
                "value",
                DetailValue::Number(value as i64),
            ),
            EntryError::CategoryNotFound => plain(404, "CATEGORY_NOT_FOUND"),
            EntryError::MonthNotFound => plain(404, "MONTH_NOT_FOUND"),
            EntryError::Repository(_) => plain(500, "INTERNAL_ERROR"),
        }
    }

    pub fn from_transaction_error(err: TransactionError) -> (e: Self)
        ensures
            e@ == transaction_error_view(err),
    {
        match err {
            TransactionError::NotFound => plain(404, "TRANSACTION_NOT_FOUND"),
            TransactionError::EntryNotFound => plain(404, "TRANSACTION_ENTRY_NOT_FOUND"),
            TransactionError::InvalidAmount { value } => detailed(
                422,
                "TRANSACTION_INVALID_AMOUNT",
                "value",
                DetailValue::Number(value),
            ),
            TransactionError::InvalidDate { value } => detailed(
                422,
                "TRANSACTION_INVALID_DATE",
                "value",
                DetailValue::Text(value),
            ),
            TransactionError::TitleTooLong { length, max } => twice_detailed(
                422,
                "TRANSACTION_TITLE_TOO_LONG",
                "length",
                DetailValue::Count(length as u64),
                "max",
                DetailValue::Count(max as u64),
            ),
            TransactionError::Repository(_) => plain(500, "INTERNAL_ERROR"),
        }
    }

    /// Errors of one kind have one status: what is missing 404, conflicts
    /// 409, broken rules 422, failures of the store 500.
    pub proof fn lemma_status_by_kind(
        category: CategoryError,
        month: MonthError,
        entry: EntryError,
        transaction: TransactionError,
    )
        ensures
            category is NotFound ==> category_error_view(category).status == 404,
            category is NameAlreadyExists ==> category_error_view(category).status == 409,
            category is InvalidNameFormat ==> category_error_view(category).status == 422,
            category is Repository ==> category_error_view(category).status == 500,
            month is NotFound ==> month_error_view(month).status == 404,
            month is AlreadyExists ==> month_error_view(month).status == 409,
            month is InvalidFormat ==> month_error_view(month).status == 422,
            month is Repository ==> month_error_view(month).status == 500,
            entry is NotFound || entry is CategoryNotFound || entry is MonthNotFound
                ==> entry_error_view(entry).status == 404,
            entry is CategoryAlreadyInMonth || entry is HasTransactions ==> entry_error_view(
                entry,
            ).status == 409,
            entry is InvalidDueDay ==> entry_error_view(entry).status == 422,
            entry is Repository ==> entry_error_view(entry).status == 500,
            transaction is NotFound || transaction is EntryNotFound ==> transaction_error_view(
                transaction,
            ).status == 404,
            transaction is InvalidAmount || transaction is InvalidDate || transaction
                is TitleTooLong ==> transaction_error_view(transaction).status == 422,
            transaction is Repository ==> transaction_error_view(transaction).status == 500,
    {
    }
}

} // verus!
