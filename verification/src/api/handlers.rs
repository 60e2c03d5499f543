//! What a handler decides before it calls a service: it reads identifiers,
//! months, dates and due days from the texts and numbers of a request, and
//! reports what it cannot read as an error of the interface.

use crate::api::errors::{
    detailed_error, entry_error_view, month_error_view, plain_error, transaction_error_view,
    ApiError, ApiErrorView, Detail,
};
use crate::api::requests::{
    CreateCategoryRequest, CreateEntryRequest, CreateMonthRequest, CreateTransactionRequest,
    TransactionListQuery, UpdateCategoryRequest, UpdateEntryRequest, UpdateTransactionRequest,
};
use crate::entities::{FieldUpdate, NewBudgetEntry};
use crate::errors::{prefixed, EntryError, MonthError, TransactionError};
use crate::services::category_service::{checked_name, is_name_rejection};
use crate::types::budget_month::parsed_budget_month;
use crate::types::category_name::is_category_name;
use crate::types::due_day::is_due_day;
use crate::types::entity_id::ulid_decoded;
use crate::types::transaction_date::{date_pattern, naive_date_parsed};
use crate::types::{BudgetMonth, CategoryName, DueDay, EntityId, Money, TransactionDate};
use vstd::prelude::*;

verus! {

/// The number of transactions on a page where the query names none.
pub const DEFAULT_PAGE_SIZE: u32 = 100;

// ---------------------------------------------------------------------------
// Identifiers
// ---------------------------------------------------------------------------

/// How the interface reports a text that is no identifier.
pub open spec fn id_failure(text: Seq<char>) -> ApiErrorView {
    detailed_error(400, "BAD_REQUEST"@, "reason"@, Detail::Text("Invalid ID format: "@ + text))
}

/// The identifier that a decoding of `text` gave, or the error of the
/// interface for a text that is no identifier.
pub fn id_or_bad_request(decoded: Result<EntityId, String>, text: &str) -> (r: Result<
    EntityId,
    ApiError,
>)
    ensures
        match decoded {
            Ok(id) => r == Ok::<EntityId, ApiError>(id),
            Err(_) => r is Err && r->Err_0@ == id_failure(text@),
        },
{
    match decoded {
        Ok(id) => Ok(id),
        Err(_) => {
            let reason = prefixed("Invalid ID format: ", text);
            Err(ApiError::bad_request(reason.as_str()))
        },
    }
}

/// Reads an identifier from a text of a request.
pub fn parse_ulid(s: &str) -> (r: Result<EntityId, ApiError>)
    ensures
        match ulid_decoded(s@) {
            Ok(value) => r is Ok && r->Ok_0@ == value,
            Err(_) => r is Err && r->Err_0@ == id_failure(s@),
        },
{
    id_or_bad_request(EntityId::from_string(s), s)
}

/// Reads an identifier that a request may leave out.
pub fn parse_optional_ulid(s: &Option<String>) -> (r: Result<Option<EntityId>, ApiError>)
    ensures
        match s {
            Some(text) => match ulid_decoded(text@) {
                Ok(value) => r matches Ok(Some(id)) && id@ == value,
                Err(_) => r is Err && r->Err_0@ == id_failure(text@),
            },
            None => r matches Ok(None),
        },
{
    match s {
        Some(text) => match parse_ulid(text.as_str()) {
            Ok(id) => Ok(Some(id)),
            Err(e) => Err(e),
        },
        None => Ok(None),
    }
}

// ---------------------------------------------------------------------------
// Values
// ---------------------------------------------------------------------------

/// The due day of a request, which may leave it out.
pub fn requested_due_day(due_day: Option<u8>) -> (r: Result<Option<DueDay>, EntryError>)
    ensures
        match due_day {
            Some(day) => if is_due_day(day as int) {
                r matches Ok(Some(d)) && d@ == day
            } else {
                r == Err::<Option<DueDay>, EntryError>(EntryError::InvalidDueDay { value: day })
            },
            None => r matches Ok(None),
        },
{
    match due_day {
        Some(day) => match DueDay::new(day) {
            Ok(d) => Ok(Some(d)),
            Err(_) => Err(EntryError::InvalidDueDay { value: day }),
        },
        None => Ok(None),
    }
}

/// What a request does to a due day: an absent field keeps it, an empty one
/// clears it, a day sets it.
pub fn requested_due_day_update(due_day: Option<Option<u8>>) -> (r: Result<
    FieldUpdate<DueDay>,
    EntryError,
>)
    ensures
        match due_day {
            None => r matches Ok(FieldUpdate::Keep),
            Some(None) => r matches Ok(FieldUpdate::Clear),
            Some(Some(day)) => if is_due_day(day as int) {
                r matches Ok(FieldUpdate::SetTo(d)) && d@ == day
            } else {
                r == Err::<FieldUpdate<DueDay>, EntryError>(
                    EntryError::InvalidDueDay { value: day },
                )
            },
        },
{
    match due_day {
        None => Ok(FieldUpdate::Keep),
        Some(None) => Ok(FieldUpdate::Clear),
        Some(Some(day)) => match DueDay::new(day) {
            Ok(d) => Ok(FieldUpdate::SetTo(d)),
            Err(_) => Err(EntryError::InvalidDueDay { value: day }),
        },
    }
}

/// The month of a request.
pub fn requested_month(text: &str) -> (r: Result<BudgetMonth, MonthError>)
    ensures
        match parsed_budget_month(text@) {
            Some(month) => r is Ok && r->Ok_0@ == month,
            None => r matches Err(MonthError::InvalidFormat { value }) && value@ == text@,
        },
{
    match BudgetMonth::parse(text) {
        Ok(month) => Ok(month),
        Err(_) => Err(MonthError::InvalidFormat { value: text.to_owned() }),
    }
}

/// The date of a request.
pub fn requested_date(text: &str) -> (r: Result<TransactionDate, TransactionError>)
    ensures
        match naive_date_parsed(text@, date_pattern()) {
            Some(date) => r is Ok && r->Ok_0@ == date,
            None => r matches Err(TransactionError::InvalidDate { value }) && value@ == text@,
        },
{
    match TransactionDate::parse(text) {
        Ok(date) => Ok(date),
        Err(_) => Err(TransactionError::InvalidDate { value: text.to_owned() }),
    }
}

/// The amount of a request that may leave it out.
pub fn requested_amount(amount: Option<i64>) -> (r: Option<Money>)
    ensures
        match amount {
            Some(value) => r is Some && r->0@ == value,
            None => r is None,
        },
{
    match amount {
        Some(value) => Some(Money::new(value)),
        None => None,
    }
}

// ---------------------------------------------------------------------------
// Categories
// ---------------------------------------------------------------------------

/// What creates a category.
pub struct CreateCategory {
    pub name: CategoryName,
    pub label: Option<String>,
}

/// What updates a category.
pub struct UpdateCategory {
    pub id: EntityId,
    pub name: Option<CategoryName>,
    pub label: FieldUpdate<String>,
}

/// `e` is how the interface reports that `name` is no category name: with
/// the text of the rejection as the reason.
pub open spec fn is_name_failure(e: ApiErrorView, name: Seq<char>) -> bool {
    exists|reason: Seq<char>|
        #[trigger] is_name_rejection(name, reason) && e == detailed_error(
            422,
            "CATEGORY_INVALID_NAME"@,
            "reason"@,
            Detail::Text(reason),
        )
}

pub fn prepare_create_category(req: CreateCategoryRequest) -> (r: Result<CreateCategory, ApiError>)
    ensures
        is_category_name(req.name@) ==> (r matches Ok(command) && command.name@ == req.name@
            && command.label == req.label),
        !is_category_name(req.name@) ==> r is Err && is_name_failure(r->Err_0@, req.name@),
{
    match checked_name(req.name.as_str()) {
        Ok(name) => Ok(CreateCategory { name, label: req.label }),
        Err(e) => Err(ApiError::from_category_error(e)),
    }
}

pub fn prepare_update_category(id: &str, req: UpdateCategoryRequest) -> (r: Result<
    UpdateCategory,
    ApiError,
>)
    ensures
        ulid_decoded(id@) is Err ==> r is Err && r->Err_0@ == id_failure(id@),
        ulid_decoded(id@) is Ok && req.name is Some && !is_category_name(req.name->0@) ==> r
            is Err && is_name_failure(r->Err_0@, req.name->0@),
        ulid_decoded(id@) is Ok && (req.name is Some ==> is_category_name(req.name->0@)) ==> (r
            matches Ok(command) && command.id@ == ulid_decoded(id@)->Ok_0 && (match req.name {
            Some(text) => command.name is Some && command.name->0@ == text@,
            None => command.name is None,
        }) && command.label == match req.label {
            None => FieldUpdate::Keep,
            Some(None) => FieldUpdate::Clear,
            Some(Some(label)) => FieldUpdate::SetTo(label),
        }),
{
    let id = parse_ulid(id)?;
    let name = match req.name {
        Some(text) => match checked_name(text.as_str()) {
            Ok(name) => Some(name),
            Err(e) => {
                return Err(ApiError::from_category_error(e));
            },
        },
        None => None,
    };
    Ok(UpdateCategory { id, name, label: FieldUpdate::from_nested(req.label) })
}

// ---------------------------------------------------------------------------
// Months
// ---------------------------------------------------------------------------

/// What creates a month.
pub struct CreateMonth {
    pub month: BudgetMonth,
    pub copy_from: Option<EntityId>,
    pub empty: bool,
}

/// How the interface reports a text that is no month.
pub open spec fn month_failure(text: String) -> ApiErrorView {
    month_error_view(MonthError::InvalidFormat { value: text })
}

/// The month is read first, then the source of the copy. A request that
/// does not say whether the month stays empty asks for the copy.
pub fn prepare_create_month(req: CreateMonthRequest) -> (r: Result<CreateMonth, ApiError>)
    ensures
        parsed_budget_month(req.month@) is None ==> r is Err && r->Err_0@ == month_failure(
            req.month,
        ),
        parsed_budget_month(req.month@) is Some && req.copy_from is Some && ulid_decoded(
            req.copy_from->0@,
        ) is Err ==> r is Err && r->Err_0@ == id_failure(req.copy_from->0@),
        parsed_budget_month(req.month@) is Some && (req.copy_from is Some ==> ulid_decoded(
            req.copy_from->0@,
        ) is Ok) ==> (r matches Ok(command) && command.month@ == parsed_budget_month(
            req.month@,
        )->0 && command.empty == (req.empty == Some(true)) && (match req.copy_from {
            Some(text) => command.copy_from is Some && command.copy_from->0@ == ulid_decoded(
                text@,
            )->Ok_0,
            None => command.copy_from is None,
        })),
{
    let month = match requested_month(req.month.as_str()) {
        Ok(month) => month,
        Err(e) => {
            proof {
                assert(e matches MonthError::InvalidFormat { value } && value@ == req.month@);
                assert(month_error_view(e) == month_failure(req.month));
            }
            return Err(ApiError::from_month_error(e));
        },
    };
    let copy_from = parse_optional_ulid(&req.copy_from)?;
    let empty = match req.empty {
        Some(empty) => empty,
        None => false,
    };
    Ok(CreateMonth { month, copy_from, empty })
}

// ---------------------------------------------------------------------------
// Budget entries
// ---------------------------------------------------------------------------

/// What updates a budget entry.
pub struct UpdateEntry {
    pub id: EntityId,
    pub budgeted: Option<Money>,
    pub due_day: FieldUpdate<DueDay>,
}

/// How the interface reports a day that is no due day.
pub open spec fn due_day_failure(day: u8) -> ApiErrorView {
    entry_error_view(EntryError::InvalidDueDay { value: day })
}

/// The identifier of the month is read first, then that of the category,
/// then the due day.
pub fn prepare_create_entry(month_id: &str, req: CreateEntryRequest) -> (r: Result<
    NewBudgetEntry,
    ApiError,
>)
    ensures
        ulid_decoded(month_id@) is Err ==> r is Err && r->Err_0@ == id_failure(month_id@),
        ulid_decoded(month_id@) is Ok && ulid_decoded(req.category_id@) is Err ==> r is Err
            && r->Err_0@ == id_failure(req.category_id@),
        ulid_decoded(month_id@) is Ok && ulid_decoded(req.category_id@) is Ok && req.due_day
            is Some && !is_due_day(req.due_day->0 as int) ==> r is Err && r->Err_0@
            == due_day_failure(req.due_day->0),
        ulid_decoded(month_id@) is Ok && ulid_decoded(req.category_id@) is Ok && (req.due_day
            is Some ==> is_due_day(req.due_day->0 as int)) ==> (r matches Ok(entry)
            && entry.month_id@ == ulid_decoded(month_id@)->Ok_0 && entry.category_id@
            == ulid_decoded(req.category_id@)->Ok_0 && entry.budgeted@ == req.budgeted && (
        match req.due_day {
            Some(day) => entry.due_day is Some && entry.due_day->0@ == day,
            None => entry.due_day is None,
        })),
{
    let month_id = parse_ulid(month_id)?;
    let category_id = parse_ulid(req.category_id.as_str())?;
    let due_day = match requested_due_day(req.due_day) {
        Ok(due_day) => due_day,
        Err(e) => {
            return Err(ApiError::from_entry_error(e));
        },
    };
    Ok(NewBudgetEntry { month_id, category_id, budgeted: Money::new(req.budgeted), due_day })
}

pub fn prepare_update_entry(entry_id: &str, req: UpdateEntryRequest) -> (r: Result<
    UpdateEntry,
    ApiError,
>)
    ensures
        ulid_decoded(entry_id@) is Err ==> r is Err && r->Err_0@ == id_failure(entry_id@),
        ulid_decoded(entry_id@) is Ok && (req.due_day matches Some(Some(day)) && !is_due_day(
            day as int,
        )) ==> r is Err && r->Err_0@ == due_day_failure(req.due_day->0->0),
        ulid_decoded(entry_id@) is Ok && !(req.due_day matches Some(Some(day)) && !is_due_day(
            day as int,
        )) ==> (r matches Ok(command) && command.id@ == ulid_decoded(entry_id@)->Ok_0 && (
        match req.budgeted {
            Some(value) => command.budgeted is Some && command.budgeted->0@ == value,
            None => command.budgeted is None,
        }) && (match req.due_day {
            None => command.due_day is Keep,
            Some(None) => command.due_day is Clear,
            Some(Some(day)) => command.due_day matches FieldUpdate::SetTo(d) && d@ == day,
        })),
{
    let id = parse_ulid(entry_id)?;
    let budgeted = requested_amount(req.budgeted);
    let due_day = match requested_due_day_update(req.due_day) {
        Ok(due_day) => due_day,
        Err(e) => {
            return Err(ApiError::from_entry_error(e));
        },
    };
    Ok(UpdateEntry { id, budgeted, due_day })
}

// ---------------------------------------------------------------------------
// Transactions
// ---------------------------------------------------------------------------

/// What creates a transaction. The title is as the request gave it.
pub struct CreateTransaction {
    pub entry_id: EntityId,
    pub amount: Money,
    pub date: TransactionDate,
    pub title: Option<String>,
}

/// What updates a transaction. The title is as the request gave it.
pub struct UpdateTransaction {
    pub id: EntityId,
    pub entry_id: Option<EntityId>,
    pub amount: Option<Money>,
    pub date: Option<TransactionDate>,
    pub title: FieldUpdate<String>,
}

/// How the interface reports a text that is no date.
pub open spec fn date_failure(text: String) -> ApiErrorView {
    transaction_error_view(TransactionError::InvalidDate { value: text })
}

/// The identifier of the entry is read first, then the date.
pub fn prepare_create_transaction(req: CreateTransactionRequest) -> (r: Result<
    CreateTransaction,
    ApiError,
>)
    ensures
        ulid_decoded(req.entry_id@) is Err ==> r is Err && r->Err_0@ == id_failure(
            req.entry_id@,
        ),
        ulid_decoded(req.entry_id@) is Ok && naive_date_parsed(req.date@, date_pattern())
            is None ==> r is Err && r->Err_0@ == date_failure(req.date),
        ulid_decoded(req.entry_id@) is Ok && naive_date_parsed(req.date@, date_pattern())
            is Some ==> (r matches Ok(command) && command.entry_id@ == ulid_decoded(
            req.entry_id@,
        )->Ok_0 && command.amount@ == req.amount && command.date@ == naive_date_parsed(
            req.date@,
            date_pattern(),
        )->0 && command.title == req.title),
{
    let entry_id = parse_ulid(req.entry_id.as_str())?;
    let date = match requested_date(req.date.as_str()) {
        Ok(date) => date,
        Err(e) => {
            proof {
                assert(e matches TransactionError::InvalidDate { value } && value@ == req.date@);
                assert(transaction_error_view(e) == date_failure(req.date));
            }
            return Err(ApiError::from_transaction_error(e));
        },
    };
    Ok(
        CreateTransaction {
            entry_id,
            amount: Money::new(req.amount),
            date,
            title: req.title,
        },
    )
}

/// The identifier of the transaction is read first, then that of the entry,
/// then the date.
pub fn prepare_update_transaction(id: &str, req: UpdateTransactionRequest) -> (r: Result<
    UpdateTransaction,
    ApiError,
>)
    ensures
        ulid_decoded(id@) is Err ==> r is Err && r->Err_0@ == id_failure(id@),
        ulid_decoded(id@) is Ok && req.entry_id is Some && ulid_decoded(req.entry_id->0@)
            is Err ==> r is Err && r->Err_0@ == id_failure(req.entry_id->0@),
        ulid_decoded(id@) is Ok && (req.entry_id is Some ==> ulid_decoded(req.entry_id->0@)
            is Ok) && req.date is Some && naive_date_parsed(req.date->0@, date_pattern())
            is None ==> r is Err && r->Err_0@ == date_failure(req.date->0),
        ulid_decoded(id@) is Ok && (req.entry_id is Some ==> ulid_decoded(req.entry_id->0@)
            is Ok) && (req.date is Some ==> naive_date_parsed(req.date->0@, date_pattern())
            is Some) ==> (r matches Ok(command) && command.id@ == ulid_decoded(id@)->Ok_0 && (
        match req.entry_id {
            Some(text) => command.entry_id is Some && command.entry_id->0@ == ulid_decoded(
                text@,
            )->Ok_0,
            None => command.entry_id is None,
        }) && (match req.amount {
            Some(value) => command.amount is Some && command.amount->0@ == value,
            None => command.amount is None,
        }) && (match req.date {
            Some(text) => command.date is Some && command.date->0@ == naive_date_parsed(
                text@,
                date_pattern(),
            )->0,
            None => command.date is None,
        }) && command.title == match req.title {
            None => FieldUpdate::Keep,
            Some(None) => FieldUpdate::Clear,
            Some(Some(title)) => FieldUpdate::SetTo(title),
        }),
{
    let id = parse_ulid(id)?;
    let entry_id = parse_optional_ulid(&req.entry_id)?;
    let amount = requested_amount(req.amount);
    let date = match req.date {
        Some(text) => match requested_date(text.as_str()) {
            Ok(date) => Some(date),
            Err(e) => {
                proof {
                    assert(e matches TransactionError::InvalidDate { value } && value@ == text@);
                    assert(transaction_error_view(e) == date_failure(text));
                }
                return Err(ApiError::from_transaction_error(e));
            },
        },
        None => None,
    };
    Ok(UpdateTransaction { id, entry_id, amount, date, title: FieldUpdate::from_nested(req.title) })
}

/// How transactions are listed.
#[derive(Debug, Clone, Copy, PartialEq, Eq, Structural)]
pub enum TransactionListing {
    /// A page of the transactions of an entry: `fetch` transactions are
    /// asked for, one more than the page holds where that is possible, so
    /// that the page can say whether more follow.
    ByEntry { entry_id: EntityId, limit: u32, fetch: u32, offset: u32 },
    /// All transactions of a month.
    ByMonth { month_id: EntityId },
}

/// The number of transactions to ask for, for a page of `limit`.
pub open spec fn fetch_size(limit: u32) -> u32 {
    if limit < u32::MAX {
        (limit + 1) as u32
    } else {
        u32::MAX
    }
}

/// The size of a page: that of the query, or the default.
pub open spec fn page_size(limit: Option<u32>) -> u32 {
    match limit {
        Some(limit) => limit,
        None => DEFAULT_PAGE_SIZE,
    }
}

/// The first place of a page: that of the query, or the beginning.
pub open spec fn page_offset(offset: Option<u32>) -> u32 {
    match offset {
        Some(offset) => offset,
        None => 0,
    }
}

/// A query that names an entry lists the transactions of the entry in
/// pages, whatever else it names. Any other query has to name a month.
pub fn transaction_listing(query: &TransactionListQuery) -> (r: Result<
    TransactionListing,
    ApiError,
>)
    ensures
        match query.entry_id {
            Some(text) => match ulid_decoded(text@) {
                Ok(value) => r matches Ok(
                    TransactionListing::ByEntry { entry_id, limit, fetch, offset },
                ) && entry_id@ == value && limit == page_size(query.limit) && fetch
                    == fetch_size(limit) && offset == page_offset(query.offset),
                Err(_) => r is Err && r->Err_0@ == id_failure(text@),
            },
            None => match query.month {
                Some(text) => match ulid_decoded(text@) {
                    Ok(value) => r matches Ok(TransactionListing::ByMonth { month_id })
                        && month_id@ == value,
                    Err(_) => r is Err && r->Err_0@ == id_failure(text@),
                },
                None => r is Err && r->Err_0@ == plain_error(
                    400,
                    "TRANSACTIONS_MONTH_REQUIRED"@,
                ),
            },
        },
{
    match &query.entry_id {
        Some(text) => {
            let entry_id = parse_ulid(text.as_str())?;
            let limit = match query.limit {
                Some(limit) => limit,
                None => DEFAULT_PAGE_SIZE,
            };
            let offset = match query.offset {
                Some(offset) => offset,
                None => 0,
            };
            let fetch = if limit < u32::MAX {
                limit + 1
            } else {
                u32::MAX
            };
            Ok(TransactionListing::ByEntry { entry_id, limit, fetch, offset })
        },
        None => match &query.month {
            Some(text) => {
                let month_id = parse_ulid(text.as_str())?;
                Ok(TransactionListing::ByMonth { month_id })
            },
            None => Err(ApiError::month_required()),
        },
    }
}

} // verus!
