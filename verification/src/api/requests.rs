//! The shapes in which requests reach the interface, before anything in
//! them was checked.

use vstd::prelude::*;

verus! {

#[derive(Debug, Clone)]
pub struct CreateCategoryRequest {
    pub name: String,
    pub label: Option<String>,
}

/// A field that is absent is left as it is. For the label, an absent field
/// is `None`, an empty one `Some(None)`.
#[derive(Debug, Clone)]
pub struct UpdateCategoryRequest {
    pub name: Option<String>,
    pub label: Option<Option<String>>,
}

#[derive(Debug, Clone)]
pub struct CreateMonthRequest {
    /// The month as `YYYY-MM`.
    pub month: String,
    /// The identifier of the month to copy the entries from.
    pub copy_from: Option<String>,
    /// Whether the month is to stay without entries.
    pub empty: Option<bool>,
}

#[derive(Debug, Clone)]
pub struct CreateEntryRequest {
    pub category_id: String,
    pub budgeted: i64,
    pub due_day: Option<u8>,
}

/// A field that is absent is left as it is. For the due day, an absent
/// field is `None`, an empty one `Some(None)`.
#[derive(Debug, Clone)]
pub struct UpdateEntryRequest {
    pub budgeted: Option<i64>,
    pub due_day: Option<Option<u8>>,
}

#[derive(Debug, Clone)]
pub struct CreateTransactionRequest {
    pub entry_id: String,
    pub amount: i64,
    /// The date as `YYYY-MM-DD`.
    pub date: String,
    pub title: Option<String>,
}

/// A field that is absent is left as it is. For the title, an absent field
/// is `None`, an empty one `Some(None)`.
#[derive(Debug, Clone)]
pub struct UpdateTransactionRequest {
    pub entry_id: Option<String>,
    pub amount: Option<i64>,
    pub date: Option<String>,
    pub title: Option<Option<String>>,
}

/// The query of a listing of transactions: by entry, in pages, or by month.
#[derive(Debug, Clone)]
pub struct TransactionListQuery {
    pub month: Option<String>,
    pub entry_id: Option<String>,
    pub limit: Option<u32>,
    pub offset: Option<u32>,
}

} // verus!
