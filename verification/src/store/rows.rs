//! The reading of rows into records. A row holds the columns as the store
//! gives them: texts and numbers. A column that cannot be read makes the
//! row a failure of the store, with the column and the cause in its text;
//! the columns are read in the order of the fields of the row.

use crate::entities::{
    BudgetEntry, BudgetEntryWithCategory, Category, CategorySummary, Month, Transaction,
};
use crate::errors::{
    prefixed, prefixed_number, CategoryError, DomainError, EntryError, MonthError,
    TransactionError,
};
use crate::text::signed_decimal;
use crate::types::budget_month::{parse_rejection, parsed_budget_month};
use crate::types::category_name::{is_category_name, is_rejection_reason};
use crate::types::due_day::is_due_day;
use crate::types::entity_id::ulid_decoded;
use crate::types::timestamp::rfc3339_parsed;
use crate::types::transaction_date::{date_pattern, naive_date_parsed};
use crate::types::{
    BudgetMonth, CategoryName, DueDay, EntityId, Money, Timestamp, TransactionDate,
};
use vstd::prelude::*;

verus! {

#[derive(Debug, Clone)]
pub struct CategoryRow {
    pub id: String,
    pub name: String,
    pub label: Option<String>,
    pub created_at: String,
    pub updated_at: String,
}

#[derive(Debug, Clone)]
pub struct MonthRow {
    pub id: String,
    pub month: String,
    pub created_at: String,
    pub updated_at: String,
}

#[derive(Debug, Clone)]
pub struct EntryRow {
    pub id: String,
    pub month_id: String,
    pub category_id: String,
    pub budgeted: i64,
    pub due_day: Option<i32>,
    pub created_at: String,
    pub updated_at: String,
}

/// A row of budget entries joined with their categories.
#[derive(Debug, Clone)]
pub struct EntryWithCategoryRow {
    pub id: String,
    pub category_id: String,
    pub category_name: String,
    pub category_label: Option<String>,
    pub budgeted: i64,
    pub due_day: Option<i32>,
    pub created_at: String,
    pub updated_at: String,
}

#[derive(Debug, Clone)]
pub struct TransactionRow {
    pub id: String,
    pub entry_id: String,
    pub amount: i64,
    pub date: String,
    pub title: Option<String>,
    pub created_at: String,
    pub updated_at: String,
}

// ---------------------------------------------------------------------------
// Columns
// ---------------------------------------------------------------------------

/// The column holds an identifier.
pub open spec fn reads_id(text: Seq<char>) -> bool {
    ulid_decoded(text) is Ok
}

/// The failure of a column that holds no identifier.
pub open spec fn id_failure(text: Seq<char>, what: Seq<char>) -> Seq<char> {
    what + ulid_decoded(text)->Err_0
}

fn read_id(text: &str, what: &str) -> (r: Result<EntityId, String>)
    ensures
        reads_id(text@) ==> r is Ok && r->Ok_0@ == ulid_decoded(text@)->Ok_0,
        !reads_id(text@) ==> r is Err && r->Err_0@ == id_failure(text@, what@),
{
    match EntityId::from_string(text) {
        Ok(id) => Ok(id),
        Err(cause) => Err(prefixed(what, cause.as_str())),
    }
}

/// The column holds an instant.
pub open spec fn reads_instant(text: Seq<char>) -> bool {
    rfc3339_parsed(text) is Ok
}

/// The failure of a column that holds no instant.
pub open spec fn instant_failure(text: Seq<char>, what: Seq<char>) -> Seq<char> {
    what + rfc3339_parsed(text)->Err_0
}

fn read_instant(text: &str, what: &str) -> (r: Result<Timestamp, String>)
    ensures
        reads_instant(text@) ==> r is Ok && r->Ok_0@ == rfc3339_parsed(text@)->Ok_0,
        !reads_instant(text@) ==> r is Err && r->Err_0@ == instant_failure(text@, what@),
{
    match Timestamp::parse_rfc3339(text) {
        Ok(instant) => Ok(instant),
        Err(cause) => Err(prefixed(what, cause.as_str())),
    }
}

/// `failure` is the failure of a column that holds no category name: the
/// text `what` and the rejection of the name.
pub open spec fn is_name_failure(text: Seq<char>, what: Seq<char>, failure: Seq<char>) -> bool {
    exists|why: Seq<char>|
        #[trigger] is_rejection_reason(text, why) && failure == what + "Invalid category name: "@
            + why
}

fn read_name(text: &str, what: &str) -> (r: Result<CategoryName, String>)
    ensures
        is_category_name(text@) ==> r is Ok && r->Ok_0@ == text@,
        !is_category_name(text@) ==> r is Err && is_name_failure(text@, what@, r->Err_0@),
{
    match CategoryName::new(text) {
        Ok(name) => Ok(name),
        Err(cause) => {
            let cause_text = cause.to_string();
            let failure = prefixed(what, cause_text.as_str());
            proof {
                let why = match cause {
                    DomainError::InvalidCategoryName { reason } => reason@,
                    _ => Seq::empty(),
                };
                assert(is_rejection_reason(text@, why));
                assert(failure@ =~= what@ + "Invalid category name: "@ + why);
            }
            Err(failure)
        },
    }
}

/// The failure of a column that holds no budget month.
pub open spec fn month_failure(text: Seq<char>) -> Seq<char> {
    "invalid budget month '"@ + text + "': "@ + "Invalid budget month: "@ + parse_rejection(text)
}

fn read_month(text: &str) -> (r: Result<BudgetMonth, String>)
    ensures
        match parsed_budget_month(text@) {
            Some(month) => r is Ok && r->Ok_0@ == month,
            None => r is Err && r->Err_0@ == month_failure(text@),
        },
{
    match BudgetMonth::parse(text) {
        Ok(month) => Ok(month),
        Err(cause) => {
            let cause_text = cause.to_string();
            let failure = "invalid budget month '".to_owned().concat(text).concat("': ").concat(
                cause_text.as_str(),
            );
            assert(failure@ =~= month_failure(text@));
            Err(failure)
        },
    }
}

/// The failure of a column that holds no date.
pub open spec fn date_failure(text: Seq<char>) -> Seq<char> {
    "invalid date: "@ + "Invalid transaction date: "@
        + crate::types::transaction_date::parse_rejection(text)
}

fn read_date(text: &str) -> (r: Result<TransactionDate, String>)
    ensures
        match naive_date_parsed(text@, date_pattern()) {
            Some(date) => r is Ok && r->Ok_0@ == date,
            None => r is Err && r->Err_0@ == date_failure(text@),
        },
{
    match TransactionDate::parse(text) {
        Ok(date) => Ok(date),
        Err(cause) => {
            let cause_text = cause.to_string();
            let failure = prefixed("invalid date: ", cause_text.as_str());
            assert(failure@ =~= date_failure(text@));
            Err(failure)
        },
    }
}

/// The column holds a due day, or none.
pub open spec fn reads_due_day(raw: Option<i32>) -> bool {
    raw is Some ==> is_due_day(raw->0 as int)
}

/// The failure of a column that holds a number which is no due day.
pub open spec fn due_day_failure(raw: i32) -> Seq<char> {
    "invalid due_day: Invalid due day: "@ + signed_decimal(raw as int)
}

fn read_due_day(raw: Option<i32>) -> (r: Result<Option<DueDay>, String>)
    ensures
        reads_due_day(raw) ==> (r matches Ok(day) && match raw {
            Some(n) => day is Some && day->0@ == n,
            None => day is None,
        }),
        !reads_due_day(raw) ==> r is Err && r->Err_0@ == due_day_failure(raw->0),
{
    match raw {
        Some(n) => {
            if 1 <= n && n <= 31 {
                match DueDay::new(n as u8) {
                    Ok(day) => Ok(Some(day)),
                    Err(_) => Err(String::new()),
                }
            } else {
                Err(prefixed_number("invalid due_day: Invalid due day: ", n as i64))
            }
        },
        None => Ok(None),
    }
}

// ---------------------------------------------------------------------------
// Rows
// ---------------------------------------------------------------------------

impl CategoryRow {
    /// Every column of the row can be read.
    pub open spec fn reads(&self) -> bool {
        &&& reads_id(self.id@)
        &&& is_category_name(self.name@)
        &&& reads_instant(self.created_at@)
        &&& reads_instant(self.updated_at@)
    }

    /// `failure` is the failure of the first column that cannot be read.
    pub open spec fn fails_with(&self, failure: Seq<char>) -> bool {
        if !reads_id(self.id@) {
            failure == id_failure(self.id@, "invalid ULID: "@)
        } else if !is_category_name(self.name@) {
            is_name_failure(
                self.name@,
                "invalid category name '"@ + self.name@ + "': "@,
                failure,
            )
        } else if !reads_instant(self.created_at@) {
            failure == instant_failure(self.created_at@, "invalid created_at: "@)
        } else {
            !reads_instant(self.updated_at@) && failure == instant_failure(
                self.updated_at@,
                "invalid updated_at: "@,
            )
        }
    }

    /// `category` is the record of the row.
    pub open spec fn holds(&self, category: Category) -> bool {
        &&& category.id@ == ulid_decoded(self.id@)->Ok_0
        &&& category.name@ == self.name@
        &&& category.label == self.label
        &&& category.created_at@ == rfc3339_parsed(self.created_at@)->Ok_0
        &&& category.updated_at@ == rfc3339_parsed(self.updated_at@)->Ok_0
    }

    fn read(self) -> (r: Result<Category, String>)
        ensures
            self.reads() ==> r is Ok && self.holds(r->Ok_0),
            !self.reads() ==> r is Err && self.fails_with(r->Err_0@),
    {
        let id = read_id(self.id.as_str(), "invalid ULID: ")?;
        let what = "invalid category name '".to_owned().concat(self.name.as_str()).concat("': ");
        let name = read_name(self.name.as_str(), what.as_str())?;
        let created_at = read_instant(self.created_at.as_str(), "invalid created_at: ")?;
        let updated_at = read_instant(self.updated_at.as_str(), "invalid updated_at: ")?;
        Ok(Category { id, name, label: self.label, created_at, updated_at })
    }
}

/// The category of a row.
pub fn category_from_row(row: CategoryRow) -> (r: Result<Category, CategoryError>)
    ensures
        row.reads() ==> r is Ok && row.holds(r->Ok_0),
        !row.reads() ==> (r matches Err(CategoryError::Repository(failure)) && row.fails_with(
            failure@,
        )),
{
    match row.read() {
        Ok(category) => Ok(category),
        Err(failure) => Err(CategoryError::Repository(failure)),
    }
}

impl MonthRow {
    /// Every column of the row can be read.
    pub open spec fn reads(&self) -> bool {
        &&& reads_id(self.id@)
        &&& parsed_budget_month(self.month@) is Some
        &&& reads_instant(self.created_at@)
        &&& reads_instant(self.updated_at@)
    }

    /// The failure of the first column that cannot be read.
    pub open spec fn failure(&self) -> Seq<char> {
        if !reads_id(self.id@) {
            id_failure(self.id@, "invalid ULID: "@)
        } else if parsed_budget_month(self.month@) is None {
            month_failure(self.month@)
        } else if !reads_instant(self.created_at@) {
            instant_failure(self.created_at@, "invalid created_at: "@)
        } else {
            instant_failure(self.updated_at@, "invalid updated_at: "@)
        }
    }

    /// `month` is the record of the row.
    pub open spec fn holds(&self, month: Month) -> bool {
        &&& month.id@ == ulid_decoded(self.id@)->Ok_0
        &&& month.month@ == parsed_budget_month(self.month@)->0
        &&& month.created_at@ == rfc3339_parsed(self.created_at@)->Ok_0
        &&& month.updated_at@ == rfc3339_parsed(self.updated_at@)->Ok_0
    }

    fn read(self) -> (r: Result<Month, String>)
        ensures
            self.reads() ==> r is Ok && self.holds(r->Ok_0),
            !self.reads() ==> r is Err && r->Err_0@ == self.failure(),
    {
        let id = read_id(self.id.as_str(), "invalid ULID: ")?;
        let month = read_month(self.month.as_str())?;
        let created_at = read_instant(self.created_at.as_str(), "invalid created_at: ")?;
        let updated_at = read_instant(self.updated_at.as_str(), "invalid updated_at: ")?;
        Ok(Month { id, month, created_at, updated_at })
    }
}

/// The month of a row.
pub fn month_from_row(row: MonthRow) -> (r: Result<Month, MonthError>)
    ensures
        row.reads() ==> r is Ok && row.holds(r->Ok_0),
        !row.reads() ==> (r matches Err(MonthError::Repository(failure)) && failure@
            == row.failure()),
{
    match row.read() {
        Ok(month) => Ok(month),
        Err(failure) => Err(MonthError::Repository(failure)),
    }
}

impl EntryRow {
    /// Every column of the row can be read.
    pub open spec fn reads(&self) -> bool {
        &&& reads_id(self.id@)
        &&& reads_id(self.month_id@)
        &&& reads_id(self.category_id@)
        &&& reads_due_day(self.due_day)
        &&& reads_instant(self.created_at@)
        &&& reads_instant(self.updated_at@)
    }

    /// The failure of the first column that cannot be read.
    pub open spec fn failure(&self) -> Seq<char> {
        if !reads_id(self.id@) {
            id_failure(self.id@, "invalid ULID: "@)
        } else if !reads_id(self.month_id@) {
            id_failure(self.month_id@, "invalid month_id ULID: "@)
        } else if !reads_id(self.category_id@) {
            id_failure(self.category_id@, "invalid category_id ULID: "@)
        } else if !reads_due_day(self.due_day) {
            due_day_failure(self.due_day->0)
        } else if !reads_instant(self.created_at@) {
            instant_failure(self.created_at@, "invalid created_at: "@)
        } else {
            instant_failure(self.updated_at@, "invalid updated_at: "@)
        }
    }

    /// `entry` is the record of the row.
    pub open spec fn holds(&self, entry: BudgetEntry) -> bool {
        &&& entry.id@ == ulid_decoded(self.id@)->Ok_0
        &&& entry.month_id@ == ulid_decoded(self.month_id@)->Ok_0
        &&& entry.category_id@ == ulid_decoded(self.category_id@)->Ok_0
        &&& entry.budgeted@ == self.budgeted
        &&& match self.due_day {
            Some(n) => entry.due_day is Some && entry.due_day->0@ == n,
            None => entry.due_day is None,
        }
        &&& entry.created_at@ == rfc3339_parsed(self.created_at@)->Ok_0
        &&& entry.updated_at@ == rfc3339_parsed(self.updated_at@)->Ok_0
    }

    fn read(self) -> (r: Result<BudgetEntry, String>)
        ensures
            self.reads() ==> r is Ok && self.holds(r->Ok_0),
            !self.reads() ==> r is Err && r->Err_0@ == self.failure(),
    {
        let id = read_id(self.id.as_str(), "invalid ULID: ")?;
        let month_id = read_id(self.month_id.as_str(), "invalid month_id ULID: ")?;
        let category_id = read_id(self.category_id.as_str(), "invalid category_id ULID: ")?;
        let due_day = read_due_day(self.due_day)?;
        let created_at = read_instant(self.created_at.as_str(), "invalid created_at: ")?;
        let updated_at = read_instant(self.updated_at.as_str(), "invalid updated_at: ")?;
        Ok(
            BudgetEntry {
                id,
                month_id,
                category_id,
                budgeted: Money::new(self.budgeted),
                due_day,
                created_at,
                updated_at,
            },
        )
    }
}

/// The budget entry of a row.
pub fn entry_from_row(row: EntryRow) -> (r: Result<BudgetEntry, EntryError>)
    ensures
        row.reads() ==> r is Ok && row.holds(r->Ok_0),
        !row.reads() ==> (r matches Err(EntryError::Repository(failure)) && failure@
            == row.failure()),
{
    match row.read() {
        Ok(entry) => Ok(entry),
        Err(failure) => Err(EntryError::Repository(failure)),
    }
}

impl EntryWithCategoryRow {
    /// Every column of the row can be read.
    pub open spec fn reads(&self) -> bool {
        &&& reads_id(self.id@)
        &&& reads_id(self.category_id@)
        &&& is_category_name(self.category_name@)
        &&& reads_due_day(self.due_day)
        &&& reads_instant(self.created_at@)
        &&& reads_instant(self.updated_at@)
    }

    /// `failure` is the failure of the first column that cannot be read.
    pub open spec fn fails_with(&self, failure: Seq<char>) -> bool {
        if !reads_id(self.id@) {
            failure == id_failure(self.id@, "invalid ULID: "@)
        } else if !reads_id(self.category_id@) {
            failure == id_failure(self.category_id@, "invalid category_id ULID: "@)
        } else if !is_category_name(self.category_name@) {
            is_name_failure(self.category_name@, "invalid category name: "@, failure)
        } else if !reads_due_day(self.due_day) {
            failure == due_day_failure(self.due_day->0)
        } else if !reads_instant(self.created_at@) {
            failure == instant_failure(self.created_at@, "invalid created_at: "@)
        } else {
            !reads_instant(self.updated_at@) && failure == instant_failure(
                self.updated_at@,
                "invalid updated_at: "@,
            )
        }
    }

    /// `entry` is the record of the row.
    pub open spec fn holds(&self, entry: BudgetEntryWithCategory) -> bool {
        &&& entry.id@ == ulid_decoded(self.id@)->Ok_0
        &&& entry.category.id@ == ulid_decoded(self.category_id@)->Ok_0
        &&& entry.category.name@ == self.category_name@
        &&& entry.category.label == self.category_label
        &&& entry.budgeted@ == self.budgeted
        &&& match self.due_day {
            Some(n) => entry.due_day is Some && entry.due_day->0@ == n,
            None => entry.due_day is None,
        }
        &&& entry.created_at@ == rfc3339_parsed(self.created_at@)->Ok_0
        &&& entry.updated_at@ == rfc3339_parsed(self.updated_at@)->Ok_0
    }

    fn read(self) -> (r: Result<BudgetEntryWithCategory, String>)
        ensures
            self.reads() ==> r is Ok && self.holds(r->Ok_0),
            !self.reads() ==> r is Err && self.fails_with(r->Err_0@),
    {
        let id = read_id(self.id.as_str(), "invalid ULID: ")?;
        let category_id = read_id(self.category_id.as_str(), "invalid category_id ULID: ")?;
        let name = read_name(self.category_name.as_str(), "invalid category name: ")?;
        let due_day = read_due_day(self.due_day)?;
        let created_at = read_instant(self.created_at.as_str(), "invalid created_at: ")?;
        let updated_at = read_instant(self.updated_at.as_str(), "invalid updated_at: ")?;
        Ok(
            BudgetEntryWithCategory {
                id,
                category: CategorySummary { id: category_id, name, label: self.category_label },
                budgeted: Money::new(self.budgeted),
                due_day,
                created_at,
                updated_at,
            },
        )
    }
}

/// The budget entry with its category of a row.
pub fn entry_with_category_from_row(row: EntryWithCategoryRow) -> (r: Result<
    BudgetEntryWithCategory,
    EntryError,
>)
    ensures
        row.reads() ==> r is Ok && row.holds(r->Ok_0),
        !row.reads() ==> (r matches Err(EntryError::Repository(failure)) && row.fails_with(
            failure@,
        )),
{
    match row.read() {
        Ok(entry) => Ok(entry),
        Err(failure) => Err(EntryError::Repository(failure)),
    }
}

impl TransactionRow {
    /// Every column of the row can be read.
    pub open spec fn reads(&self) -> bool {
        &&& reads_id(self.id@)
        &&& reads_id(self.entry_id@)
        &&& naive_date_parsed(self.date@, date_pattern()) is Some
        &&& reads_instant(self.created_at@)
        &&& reads_instant(self.updated_at@)
    }

    /// The failure of the first column that cannot be read.
    pub open spec fn failure(&self) -> Seq<char> {
        if !reads_id(self.id@) {
            id_failure(self.id@, "invalid ULID: "@)
        } else if !reads_id(self.entry_id@) {
            id_failure(self.entry_id@, "invalid entry_id ULID: "@)
        } else if naive_date_parsed(self.date@, date_pattern()) is None {
            date_failure(self.date@)
        } else if !reads_instant(self.created_at@) {
            instant_failure(self.created_at@, "invalid created_at: "@)
        } else {
            instant_failure(self.updated_at@, "invalid updated_at: "@)
        }
    }

    /// `transaction` is the record of the row.
    pub open spec fn holds(&self, transaction: Transaction) -> bool {
        &&& transaction.id@ == ulid_decoded(self.id@)->Ok_0
        &&& transaction.entry_id@ == ulid_decoded(self.entry_id@)->Ok_0
        &&& transaction.amount@ == self.amount
        &&& transaction.date@ == naive_date_parsed(self.date@, date_pattern())->0
        &&& transaction.title == self.title
        &&& transaction.created_at@ == rfc3339_parsed(self.created_at@)->Ok_0
        &&& transaction.updated_at@ == rfc3339_parsed(self.updated_at@)->Ok_0
    }

    fn read(self) -> (r: Result<Transaction, String>)
        ensures
            self.reads() ==> r is Ok && self.holds(r->Ok_0),
            !self.reads() ==> r is Err && r->Err_0@ == self.failure(),
    {
        let id = read_id(self.id.as_str(), "invalid ULID: ")?;
        let entry_id = read_id(self.entry_id.as_str(), "invalid entry_id ULID: ")?;
        let date = read_date(self.date.as_str())?;
        let created_at = read_instant(self.created_at.as_str(), "invalid created_at: ")?;
        let updated_at = read_instant(self.updated_at.as_str(), "invalid updated_at: ")?;
        Ok(
            Transaction {
                id,
                entry_id,
                amount: Money::new(self.amount),
                date,
                title: self.title,
                created_at,
                updated_at,
            },
        )
    }
}

/// The transaction of a row.
pub fn transaction_from_row(row: TransactionRow) -> (r: Result<Transaction, TransactionError>)
    ensures
        row.reads() ==> r is Ok && row.holds(r->Ok_0),
        !row.reads() ==> (r matches Err(TransactionError::Repository(failure)) && failure@
            == row.failure()),
{
    match row.read() {
        Ok(transaction) => Ok(transaction),
        Err(failure) => Err(TransactionError::Repository(failure)),
    }
}

} // verus!
