//! The shapes in which records leave the interface: identifiers, months,
//! dates and instants as text, amounts as integers of minor units.

use crate::entities::{BudgetEntryWithCategory, Category, CategorySummary, Month, Transaction};
use crate::sequences::reversed;
use crate::services::summary_service::{CategoryBudgetSummary, MonthSummary};
use crate::types::budget_month::budget_month_text;
use crate::types::entity_id::ulid_encoded;
use crate::types::timestamp::rfc3339_of_millis;
use crate::types::transaction_date::date_text;
use crate::types::{DueDay, EntityId, Timestamp};
use vstd::prelude::*;

verus! {

#[derive(Debug, Clone)]
pub struct CategoryResponse {
    pub id: String,
    pub name: String,
    pub label: Option<String>,
    pub created_at: String,
    pub updated_at: String,
}

#[derive(Debug, Clone)]
pub struct MonthResponse {
    pub id: String,
    pub month: String,
    pub created_at: String,
    pub updated_at: String,
}

#[derive(Debug, Clone)]
pub struct CategorySummaryResponse {
    pub id: String,
    pub name: String,
    pub label: Option<String>,
}

#[derive(Debug, Clone)]
pub struct EntryResponse {
    pub id: String,
    pub category: CategorySummaryResponse,
    pub budgeted: i64,
    pub due_day: Option<u8>,
    pub created_at: String,
    pub updated_at: String,
}

#[derive(Debug, Clone)]
pub struct TransactionResponse {
    pub id: String,
    pub entry_id: String,
    pub amount: i64,
    pub date: String,
    pub title: Option<String>,
    pub created_at: String,
    pub updated_at: String,
}

#[derive(Debug, Clone)]
pub struct MonthSummaryResponse {
    pub month: String,
    pub total_budgeted: i64,
    pub total_paid: i64,
    pub remaining: i64,
    pub categories: Vec<CategoryBudgetSummaryResponse>,
}

#[derive(Debug, Clone)]
pub struct CategoryBudgetSummaryResponse {
    pub entry_id: String,
    pub category: CategorySummaryResponse,
    pub budgeted: i64,
    pub paid: i64,
    pub remaining: i64,
    pub status: String,
}

/// One page of the transactions of an entry.
#[derive(Debug, Clone)]
pub struct PaginatedTransactionsResponse {
    pub items: Vec<TransactionResponse>,
    pub has_more: bool,
}

/// `text` writes the identifier `id`.
pub open spec fn writes_id(text: String, id: EntityId) -> bool {
    text@ == ulid_encoded(id@)
}

/// `text` writes the instant `at` in RFC 3339.
pub open spec fn writes_instant(text: String, at: Timestamp) -> bool {
    rfc3339_of_millis(at@) == Some(text@)
}

/// The day of an optional due day.
pub open spec fn day_of(due_day: Option<DueDay>) -> Option<int> {
    match due_day {
        Some(day) => Some(day@),
        None => None,
    }
}

/// The number of an optional small number.
pub open spec fn number_of(n: Option<u8>) -> Option<int> {
    match n {
        Some(n) => Some(n as int),
        None => None,
    }
}

fn due_day_number(due_day: Option<DueDay>) -> (r: Option<u8>)
    ensures
        number_of(r) == day_of(due_day),
{
    match due_day {
        Some(day) => Some(day.value()),
        None => None,
    }
}

impl CategoryResponse {
    /// The response shows the category.
    pub open spec fn shows(&self, category: Category) -> bool {
        &&& writes_id(self.id, category.id)
        &&& self.name@ == category.name@
        &&& self.label == category.label
        &&& writes_instant(self.created_at, category.created_at)
        &&& writes_instant(self.updated_at, category.updated_at)
    }
}

impl From<Category> for CategoryResponse {
    fn from(c: Category) -> (r: Self)
        ensures
            r.shows(c),
    {
        CategoryResponse {
            id: c.id.to_string(),
            name: c.name.as_str().to_owned(),
            label: c.label,
            created_at: c.created_at.to_rfc3339(),
            updated_at: c.updated_at.to_rfc3339(),
        }
    }
}

// A response holds texts, which no spec function can build: each conversion
// is stated by its `shows` predicate, and `from_spec` is left unused.
impl vstd::std_specs::convert::FromSpecImpl<Category> for CategoryResponse {
    open spec fn obeys_from_spec() -> bool {
        false
    }

    open spec fn from_spec(c: Category) -> Self {
        choose|r: Self| r.shows(c)
    }
}

impl MonthResponse {
    /// The response shows the month.
    pub open spec fn shows(&self, month: Month) -> bool {
        &&& writes_id(self.id, month.id)
        &&& self.month@ == budget_month_text(month.month@.0, month.month@.1)
        &&& writes_instant(self.created_at, month.created_at)
        &&& writes_instant(self.updated_at, month.updated_at)
    }
}

impl From<Month> for MonthResponse {
    fn from(m: Month) -> (r: Self)
        ensures
            r.shows(m),
    {
        MonthResponse {
            id: m.id.to_string(),
            month: m.month.to_string(),
            created_at: m.created_at.to_rfc3339(),
            updated_at: m.updated_at.to_rfc3339(),
        }
    }
}

impl vstd::std_specs::convert::FromSpecImpl<Month> for MonthResponse {
    open spec fn obeys_from_spec() -> bool {
        false
    }

    open spec fn from_spec(m: Month) -> Self {
        choose|r: Self| r.shows(m)
    }
}

impl CategorySummaryResponse {
    /// The response shows the category.
    pub open spec fn shows(&self, category: CategorySummary) -> bool {
        &&& writes_id(self.id, category.id)
        &&& self.name@ == category.name@
        &&& self.label == category.label
    }
}

impl From<CategorySummary> for CategorySummaryResponse {
    fn from(cs: CategorySummary) -> (r: Self)
        ensures
            r.shows(cs),
    {
        CategorySummaryResponse {
            id: cs.id.to_string(),
            name: cs.name.as_str().to_owned(),
            label: cs.label,
        }
    }
}

impl vstd::std_specs::convert::FromSpecImpl<CategorySummary> for CategorySummaryResponse {
    open spec fn obeys_from_spec() -> bool {
        false
    }

    open spec fn from_spec(cs: CategorySummary) -> Self {
        choose|r: Self| r.shows(cs)
    }
}

impl EntryResponse {
    /// The response shows the entry.
    pub open spec fn shows(&self, entry: BudgetEntryWithCategory) -> bool {
        &&& writes_id(self.id, entry.id)
        &&& self.category.shows(entry.category)
        &&& self.budgeted == entry.budgeted@
        &&& number_of(self.due_day) == day_of(entry.due_day)
        &&& writes_instant(self.created_at, entry.created_at)
        &&& writes_instant(self.updated_at, entry.updated_at)
    }
}

impl From<BudgetEntryWithCategory> for EntryResponse {
    fn from(e: BudgetEntryWithCategory) -> (r: Self)
        ensures
            r.shows(e),
    {
        EntryResponse {
            id: e.id.to_string(),
            category: CategorySummaryResponse::from(e.category),
            budgeted: e.budgeted.value(),
            due_day: due_day_number(e.due_day),
            created_at: e.created_at.to_rfc3339(),
            updated_at: e.updated_at.to_rfc3339(),
        }
    }
}

impl vstd::std_specs::convert::FromSpecImpl<BudgetEntryWithCategory> for EntryResponse {
    open spec fn obeys_from_spec() -> bool {
        false
    }

    open spec fn from_spec(e: BudgetEntryWithCategory) -> Self {
        choose|r: Self| r.shows(e)
    }
}

impl TransactionResponse {
    /// The response shows the transaction.
    pub open spec fn shows(&self, transaction: Transaction) -> bool {
        &&& writes_id(self.id, transaction.id)
        &&& writes_id(self.entry_id, transaction.entry_id)
        &&& self.amount == transaction.amount@
        &&& self.date@ == date_text(
            transaction.date@.0,
            transaction.date@.1,
            transaction.date@.2,
        )
        &&& self.title == transaction.title
        &&& writes_instant(self.created_at, transaction.created_at)
        &&& writes_instant(self.updated_at, transaction.updated_at)
    }
}

impl From<Transaction> for TransactionResponse {
    fn from(t: Transaction) -> (r: Self)
        ensures
            r.shows(t),
    {
        TransactionResponse {
            id: t.id.to_string(),
            entry_id: t.entry_id.to_string(),
            amount: t.amount.value(),
            date: t.date.to_string(),
            title: t.title,
            created_at: t.created_at.to_rfc3339(),
            updated_at: t.updated_at.to_rfc3339(),
        }
    }
}

impl vstd::std_specs::convert::FromSpecImpl<Transaction> for TransactionResponse {
    open spec fn obeys_from_spec() -> bool {
        false
    }

    open spec fn from_spec(t: Transaction) -> Self {
        choose|r: Self| r.shows(t)
    }
}

impl CategoryBudgetSummaryResponse {
    /// The response shows the line of a summary.
    pub open spec fn shows(&self, line: CategoryBudgetSummary) -> bool {
        &&& writes_id(self.entry_id, line.entry_id)
        &&& self.category.shows(line.category)
        &&& self.budgeted == line.budgeted@
        &&& self.paid == line.paid@
        &&& self.remaining == line.remaining@
        &&& self.status@ == line.status.name()
    }
}

impl From<CategoryBudgetSummary> for CategoryBudgetSummaryResponse {
    fn from(c: CategoryBudgetSummary) -> (r: Self)
        ensures
            r.shows(c),
    {
        CategoryBudgetSummaryResponse {
            entry_id: c.entry_id.to_string(),
            category: CategorySummaryResponse::from(c.category),
            budgeted: c.budgeted.value(),
            paid: c.paid.value(),
            remaining: c.remaining.value(),
            status: c.status.as_str().to_owned(),
        }
    }
}

impl vstd::std_specs::convert::FromSpecImpl<CategoryBudgetSummary> for CategoryBudgetSummaryResponse {
    open spec fn obeys_from_spec() -> bool {
        false
    }

    open spec fn from_spec(c: CategoryBudgetSummary) -> Self {
        choose|r: Self| r.shows(c)
    }
}

impl MonthSummaryResponse {
    /// The response shows the summary: its totals, and its lines in their
    /// order.
    pub open spec fn shows(&self, summary: MonthSummary) -> bool {
        &&& self.month@ == budget_month_text(summary.month@.0, summary.month@.1)
        &&& self.total_budgeted == summary.total_budgeted@
        &&& self.total_paid == summary.total_paid@
        &&& self.remaining == summary.remaining@
        &&& self.categories@.len() == summary.categories@.len()
        &&& forall|i: int|
            0 <= i < self.categories@.len() ==> (#[trigger] self.categories@[i]).shows(
                summary.categories@[i],
            )
    }
}

impl From<MonthSummary> for MonthSummaryResponse {
    fn from(s: MonthSummary) -> (r: Self)
        ensures
            r.shows(s),
    {
        let ghost lines = s.categories@;
        let mut pending = reversed(s.categories);
        let mut categories: Vec<CategoryBudgetSummaryResponse> = Vec::new();
        while pending.len() > 0
            invariant
                categories@.len() + pending@.len() == lines.len(),
                forall|i: int|
                    0 <= i < pending@.len() ==> #[trigger] pending@[i] == lines[lines.len() - 1
                        - i],
                forall|i: int|
                    0 <= i < categories@.len() ==> (#[trigger] categories@[i]).shows(lines[i]),
            decreases pending@.len(),
        {
            let line = pending.pop().unwrap();
            categories.push(CategoryBudgetSummaryResponse::from(line));
        }
        MonthSummaryResponse {
            month: s.month.to_string(),
            total_budgeted: s.total_budgeted.value(),
            total_paid: s.total_paid.value(),
            remaining: s.remaining.value(),
            categories,
        }
    }
}

impl vstd::std_specs::convert::FromSpecImpl<MonthSummary> for MonthSummaryResponse {
    open spec fn obeys_from_spec() -> bool {
        false
    }

    open spec fn from_spec(s: MonthSummary) -> Self {
        choose|r: Self| r.shows(s)
    }
}

/// The number of transactions that a page of `limit` shows of `fetched`.
pub open spec fn page_length(fetched: int, limit: int) -> int {
    if fetched > limit {
        limit
    } else {
        fetched
    }
}

impl PaginatedTransactionsResponse {
    /// The page shows the first `limit` of the transactions that were
    /// fetched, in their order, and says whether more were fetched.
    pub open spec fn shows(&self, fetched: Seq<Transaction>, limit: u32) -> bool {
        &&& self.has_more == (fetched.len() > limit)
        &&& self.items@.len() == page_length(fetched.len() as int, limit as int)
        &&& forall|i: int|
            0 <= i < self.items@.len() ==> (#[trigger] self.items@[i]).shows(fetched[i])
    }

    /// The page of `limit` transactions from those that were fetched, one
    /// more than the page having been asked for.
    pub fn of(fetched: Vec<Transaction>, limit: u32) -> (page: Self)
        ensures
            page.shows(fetched@, limit),
    {
        let ghost all = fetched@;
        let has_more = fetched.len() > limit as usize;
        let mut pending = reversed(fetched);
        let mut items: Vec<TransactionResponse> = Vec::new();
        while pending.len() > 0 && items.len() < limit as usize
            invariant
                items@.len() + pending@.len() == all.len(),
                items@.len() <= limit,
                forall|i: int|
                    0 <= i < pending@.len() ==> #[trigger] pending@[i] == all[all.len() - 1 - i],
                forall|i: int| 0 <= i < items@.len() ==> (#[trigger] items@[i]).shows(all[i]),
            decreases pending@.len(),
        {
            let transaction = pending.pop().unwrap();
            items.push(TransactionResponse::from(transaction));
        }
        PaginatedTransactionsResponse { items, has_more }
    }
}

} // verus!
