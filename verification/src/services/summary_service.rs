//! The summary of a month: per entry what was budgeted, paid and is left, the
//! status that follows, and the totals.

use crate::entities::{BudgetEntryWithCategory, CategorySummary, Month};
use crate::errors::{prefixed, EntryError, MonthError, TransactionError};
use crate::ports::entry_repo::entries_listed;
use crate::ports::month_repo::month_found;
use crate::ports::transaction_repo::payments_summed;
use crate::ports::{BudgetEntryRepository, MonthRepository, TransactionRepository};
use crate::sequences::reversed;
use crate::types::money::fits;
use crate::types::{BudgetMonth, EntityId, Money};
use std::sync::Arc;
use vstd::prelude::*;

verus! {

/// How what was paid on an entry compares to what was budgeted.
#[derive(Debug, Clone, Copy, PartialEq, Eq, Structural)]
pub enum BudgetStatus {
    Unpaid,
    Underspent,
    OnBudget,
    Overspent,
}

/// The status of an entry, by the first row that applies:
///
/// | budgeted `b`, paid `p` | status     |
/// |------------------------|------------|
/// | `b == 0`, `p == 0`     | on budget  |
/// | `p == 0`, `b > 0`      | unpaid     |
/// | `0 < p < b`            | underspent |
/// | `p == b`               | on budget  |
/// | otherwise              | overspent  |
pub open spec fn status_of(budgeted: int, paid: int) -> BudgetStatus {
    if budgeted == 0 && paid == 0 {
        BudgetStatus::OnBudget
    } else if paid == 0 && budgeted > 0 {
        BudgetStatus::Unpaid
    } else if 0 < paid < budgeted {
        BudgetStatus::Underspent
    } else if paid == budgeted {
        BudgetStatus::OnBudget
    } else {
        BudgetStatus::Overspent
    }
}

/// The status of an entry with the given budget and payments.
pub fn derive_status(budgeted: Money, paid: Money) -> (status: BudgetStatus)
    ensures
        status == status_of(budgeted@, paid@),
{
    let b = budgeted.value();
    let p = paid.value();
    if b == 0 && p == 0 {
        BudgetStatus::OnBudget
    } else if p == 0 && b > 0 {
        BudgetStatus::Unpaid
    } else if p > 0 && p < b {
        BudgetStatus::Underspent
    } else if p == b {
        BudgetStatus::OnBudget
    } else {
        BudgetStatus::Overspent
    }
}

impl BudgetStatus {
    /// The name of the status in lower case with underscores.
    pub open spec fn name(self) -> Seq<char> {
        match self {
            BudgetStatus::Unpaid => "unpaid"@,
            BudgetStatus::Underspent => "underspent"@,
            BudgetStatus::OnBudget => "on_budget"@,
            BudgetStatus::Overspent => "overspent"@,
        }
    }

    pub fn as_str(&self) -> (s: &'static str)
        ensures
            s@ == self.name(),
    {
        match self {
            BudgetStatus::Unpaid => "unpaid",
            BudgetStatus::Underspent => "underspent",
            BudgetStatus::OnBudget => "on_budget",
            BudgetStatus::Overspent => "overspent",
        }
    }
}

/// One entry of a month in its summary.
#[derive(Debug, Clone)]
pub struct CategoryBudgetSummary {
    pub entry_id: EntityId,
    pub category: CategorySummary,
    pub budgeted: Money,
    pub paid: Money,
    pub remaining: Money,
    pub status: BudgetStatus,
}

/// The summary of a month.
#[derive(Debug, Clone)]
pub struct MonthSummary {
    pub month: BudgetMonth,
    pub total_budgeted: Money,
    pub total_paid: Money,
    pub remaining: Money,
    pub categories: Vec<CategoryBudgetSummary>,
}

/// The sum of what the first `n` lines budget.
pub open spec fn budgeted_total(lines: Seq<CategoryBudgetSummary>, n: int) -> int
    decreases n,
{
    if n <= 0 {
        0
    } else {
        budgeted_total(lines, n - 1) + lines[n - 1].budgeted@
    }
}

/// The sum of what was paid on the first `n` lines.
pub open spec fn paid_total(lines: Seq<CategoryBudgetSummary>, n: int) -> int
    decreases n,
{
    if n <= 0 {
        0
    } else {
        paid_total(lines, n - 1) + lines[n - 1].paid@
    }
}

impl CategoryBudgetSummary {
    /// What is left and the status follow from what was budgeted and paid.
    pub open spec fn is_consistent(&self) -> bool {
        &&& self.remaining@ == self.budgeted@ - self.paid@
        &&& self.status == status_of(self.budgeted@, self.paid@)
    }

    /// The line is that of `entry` with `paid` booked on it.
    pub open spec fn is_line_of(&self, entry: BudgetEntryWithCategory, paid: Money) -> bool {
        &&& self.entry_id == entry.id
        &&& self.category == entry.category
        &&& self.budgeted == entry.budgeted
        &&& self.paid == paid
        &&& self.is_consistent()
    }

    /// The line of `entry` with `paid` booked on it; `None` where what is
    /// left is not an amount that `Money` can hold.
    pub fn of(entry: BudgetEntryWithCategory, paid: Money) -> (r: Option<Self>)
        ensures
            fits(entry.budgeted@ - paid@) ==> r is Some && r->0.is_line_of(entry, paid),
            !fits(entry.budgeted@ - paid@) ==> r is None,
    {
        let remaining = match entry.budgeted.checked_sub(paid) {
            Some(remaining) => remaining,
            None => {
                return None;
            },
        };
        let status = derive_status(entry.budgeted, paid);
        Some(
            CategoryBudgetSummary {
                entry_id: entry.id,
                category: entry.category,
                budgeted: entry.budgeted,
                paid,
                remaining,
                status,
            },
        )
    }
}

impl MonthSummary {
    /// Every line is consistent, the totals are the sums over the lines, and
    /// what is left is the difference of the totals.
    pub open spec fn is_consistent(&self) -> bool {
        &&& forall|i: int|
            0 <= i < self.categories@.len() ==> (#[trigger] self.categories@[i]).is_consistent()
        &&& self.total_budgeted@ == budgeted_total(self.categories@, self.categories@.len() as int)
        &&& self.total_paid@ == paid_total(self.categories@, self.categories@.len() as int)
        &&& self.remaining@ == self.total_budgeted@ - self.total_paid@
    }

    /// The summary is that of `month` with the given entries, in their
    /// order, each with what was paid on it.
    pub open spec fn is_summary_of(
        &self,
        month: BudgetMonth,
        entries: Seq<(BudgetEntryWithCategory, Money)>,
    ) -> bool {
        &&& self.month == month
        &&& self.categories@.len() == entries.len()
        &&& forall|i: int|
            0 <= i < entries.len() ==> (#[trigger] self.categories@[i]).is_line_of(
                entries[i].0,
                entries[i].1,
            )
        &&& self.is_consistent()
    }
}

/// The sum of what the first `n` entries budget.
pub open spec fn entries_budgeted(entries: Seq<(BudgetEntryWithCategory, Money)>, n: int) -> int
    decreases n,
{
    if n <= 0 {
        0
    } else {
        entries_budgeted(entries, n - 1) + entries[n - 1].0.budgeted@
    }
}

/// The sum of what was paid on the first `n` entries.
pub open spec fn entries_paid(entries: Seq<(BudgetEntryWithCategory, Money)>, n: int) -> int
    decreases n,
{
    if n <= 0 {
        0
    } else {
        entries_paid(entries, n - 1) + entries[n - 1].1@
    }
}

/// Every amount of the summary of `entries` is one that `Money` can hold:
/// what is left of each entry, the totals as they grow entry by entry, and
/// what is left of the month.
pub open spec fn summary_fits(entries: Seq<(BudgetEntryWithCategory, Money)>) -> bool {
    &&& forall|i: int|
        0 <= i < entries.len() ==> fits((#[trigger] entries[i]).0.budgeted@ - entries[i].1@)
    &&& forall|n: int| 0 <= n <= entries.len() ==> fits(#[trigger] entries_budgeted(entries, n))
    &&& forall|n: int| 0 <= n <= entries.len() ==> fits(#[trigger] entries_paid(entries, n))
    &&& fits(
        entries_budgeted(entries, entries.len() as int) - entries_paid(
            entries,
            entries.len() as int,
        ),
    )
}

/// The summary of `month` from its entries, in their order, each with what
/// was paid on it; `None` where an amount of the summary is not one that
/// `Money` can hold.
pub fn summarize(month: BudgetMonth, entries: Vec<(BudgetEntryWithCategory, Money)>) -> (r: Option<
    MonthSummary,
>)
    ensures
        summary_fits(entries@) ==> r is Some && r->0.is_summary_of(month, entries@),
        !summary_fits(entries@) ==> r is None,
{
    let ghost all = entries@;
    let mut categories: Vec<CategoryBudgetSummary> = Vec::new();
    let mut total_budgeted = Money::new(0);
    let mut total_paid = Money::new(0);
    let mut pending = reversed(entries);
    while pending.len() > 0
        invariant
            all == entries@,
            categories@.len() + pending@.len() == all.len(),
            forall|i: int|
                0 <= i < pending@.len() ==> #[trigger] pending@[i] == all[all.len() - 1 - i],
            forall|i: int|
                0 <= i < categories@.len() ==> (#[trigger] categories@[i]).is_line_of(
                    all[i].0,
                    all[i].1,
                ),
            forall|i: int|
                0 <= i < categories@.len() ==> fits((#[trigger] all[i]).0.budgeted@ - all[i].1@),
            forall|k: int|
                0 <= k <= categories@.len() ==> fits(#[trigger] entries_budgeted(all, k)),
            forall|k: int| 0 <= k <= categories@.len() ==> fits(#[trigger] entries_paid(all, k)),
            total_budgeted@ == entries_budgeted(all, categories@.len() as int),
            total_paid@ == entries_paid(all, categories@.len() as int),
            total_budgeted@ == budgeted_total(categories@, categories@.len() as int),
            total_paid@ == paid_total(categories@, categories@.len() as int),
        decreases pending@.len(),
    {
        let ghost done = categories@.len() as int;
        let ghost before = categories@;
        let (entry, paid) = pending.pop().unwrap();
        assert((entry, paid) == all[done]);
        let line = match CategoryBudgetSummary::of(entry, paid) {
            Some(line) => line,
            None => {
                assert(!fits(all[done].0.budgeted@ - all[done].1@));
                return None;
            },
        };
        total_budgeted = match total_budgeted.checked_add(line.budgeted) {
            Some(total) => total,
            None => {
                assert(!fits(entries_budgeted(all, done + 1)));
                return None;
            },
        };
        total_paid = match total_paid.checked_add(line.paid) {
            Some(total) => total,
            None => {
                assert(!fits(entries_paid(all, done + 1)));
                return None;
            },
        };
        categories.push(line);
        proof {
            lemma_totals_of_prefix(before, categories@, done);
            assert forall|k: int| 0 <= k <= categories@.len() implies fits(
                #[trigger] entries_budgeted(all, k),
            ) by {
                if k == done + 1 {
                } else {
                }
            }
            assert forall|k: int| 0 <= k <= categories@.len() implies fits(
                #[trigger] entries_paid(all, k),
            ) by {
                if k == done + 1 {
                } else {
                }
            }
        }
    }
    let remaining = match total_budgeted.checked_sub(total_paid) {
        Some(remaining) => remaining,
        None => {
            return None;
        },
    };
    Some(MonthSummary { month, total_budgeted, total_paid, remaining, categories })
}

/// Lines that are added behind do not change the totals of those before.
proof fn lemma_totals_of_prefix(
    before: Seq<CategoryBudgetSummary>,
    after: Seq<CategoryBudgetSummary>,
    n: int,
)
    requires
        0 <= n <= before.len() <= after.len(),
        forall|i: int| 0 <= i < before.len() ==> before[i] == after[i],
    ensures
        budgeted_total(before, n) == budgeted_total(after, n),
        paid_total(before, n) == paid_total(after, n),
    decreases n,
{
    if n > 0 {
        lemma_totals_of_prefix(before, after, n - 1);
    }
}

/// A month without entries has a summary, and all its amounts are zero.
pub proof fn lemma_empty_month_sums_to_zero()
    ensures
        summary_fits(Seq::<(BudgetEntryWithCategory, Money)>::empty()),
        entries_budgeted(Seq::<(BudgetEntryWithCategory, Money)>::empty(), 0) == 0,
        entries_paid(Seq::<(BudgetEntryWithCategory, Money)>::empty(), 0) == 0,
{
}

/// The month that was looked up, or the error that there is none.
pub fn month_or_not_found(found: Option<Month>) -> (r: Result<Month, MonthError>)
    ensures
        match found {
            Some(month) => r == Ok::<Month, MonthError>(month),
            None => r matches Err(MonthError::NotFound),
        },
{
    match found {
        Some(month) => Ok(month),
        None => Err(MonthError::NotFound),
    }
}

/// The error of a summary whose entries could not be listed.
pub fn listing_failure(cause: &EntryError) -> (e: MonthError)
    ensures
        e matches MonthError::Repository(text) && text@ == "Failed to list entries: "@
            + cause.text(),
{
    let cause_text = cause.to_string();
    MonthError::Repository(prefixed("Failed to list entries: ", cause_text.as_str()))
}

/// The error of a summary for which the payments of an entry could not be
/// summed.
pub fn summing_failure(cause: &TransactionError) -> (e: MonthError)
    ensures
        e matches MonthError::Repository(text) && text@ == "Failed to sum transactions: "@
            + cause.text(),
{
    let cause_text = cause.to_string();
    MonthError::Repository(prefixed("Failed to sum transactions: ", cause_text.as_str()))
}

/// The error of a summary with an amount that `Money` cannot hold.
pub open spec fn range_failure_text() -> Seq<char> {
    "Month totals exceed the range of amounts"@
}

/// The outcome of a summary once the month and the payments are known.
pub fn summary_outcome(month: BudgetMonth, entries: Vec<(BudgetEntryWithCategory, Money)>) -> (r:
    Result<MonthSummary, MonthError>)
    ensures
        is_summary_outcome(month, entries@, r),
        summary_fits(entries@) ==> r is Ok && r->Ok_0.is_summary_of(month, entries@),
        !summary_fits(entries@) ==> (r matches Err(MonthError::Repository(text)) && text@
            == range_failure_text()),
{
    match summarize(month, entries) {
        Some(summary) => Ok(summary),
        None => Err(MonthError::Repository("Month totals exceed the range of amounts".to_owned())),
    }
}

/// `failure` is the error of a summary whose entries could not be listed,
/// with the cause `cause`.
pub open spec fn is_listing_failure(failure: MonthError, cause: EntryError) -> bool {
    failure matches MonthError::Repository(text) && text@ == "Failed to list entries: "@
        + cause.text()
}

/// `failure` is the error of a summary for which the payments of an entry
/// could not be summed, with the cause `cause`.
pub open spec fn is_summing_failure(failure: MonthError, cause: TransactionError) -> bool {
    failure matches MonthError::Repository(text) && text@ == "Failed to sum transactions: "@
        + cause.text()
}

/// The entries, each with what was paid on it.
pub open spec fn paid_entries(entries: Seq<BudgetEntryWithCategory>, paid: Seq<Money>) -> Seq<
    (BudgetEntryWithCategory, Money),
> {
    Seq::new(entries.len(), |i: int| (entries[i], paid[i]))
}

/// `r` is the outcome of the summary of `month` from its entries with what
/// was paid on them: the summary, or the error of amounts that `Money`
/// cannot hold.
pub open spec fn is_summary_outcome(
    month: BudgetMonth,
    entries: Seq<(BudgetEntryWithCategory, Money)>,
    r: Result<MonthSummary, MonthError>,
) -> bool {
    if summary_fits(entries) {
        r is Ok && r->Ok_0.is_summary_of(month, entries)
    } else {
        r matches Err(MonthError::Repository(text)) && text@ == range_failure_text()
    }
}

/// Summaries of months.
pub struct SummaryService<E: BudgetEntryRepository, T: TransactionRepository, M: MonthRepository> {
    entry_repo: Arc<E>,
    transaction_repo: Arc<T>,
    month_repo: Arc<M>,
}

impl<E: BudgetEntryRepository, T: TransactionRepository, M: MonthRepository> SummaryService<
    E,
    T,
    M,
> {
    /// The repository of entries that the service asks.
    pub closed spec fn entry_repo(&self) -> E {
        *self.entry_repo
    }

    /// The repository of transactions that the service asks.
    pub closed spec fn transaction_repo(&self) -> T {
        *self.transaction_repo
    }

    /// The repository of months that the service asks.
    pub closed spec fn month_repo(&self) -> M {
        *self.month_repo
    }

    /// The repository answered that `paid` was paid on `entry`.
    pub open spec fn paid_on(&self, entry: BudgetEntryWithCategory, paid: Money) -> bool {
        payments_summed(self.transaction_repo(), entry.id, Ok::<Money, TransactionError>(paid))
    }

    /// The repository answered the sum of the payments on `entry`.
    pub open spec fn sum_succeeded(&self, entry: BudgetEntryWithCategory) -> bool {
        exists|paid: Money| #[trigger] self.paid_on(entry, paid)
    }

    /// The repository answered the request for the sum of the payments on
    /// `entry` with an error, and `r` reports it.
    pub open spec fn sum_failed(
        &self,
        entry: BudgetEntryWithCategory,
        r: Result<MonthSummary, MonthError>,
    ) -> bool {
        exists|answer: Result<Money, TransactionError>|
            #[trigger] payments_summed(self.transaction_repo(), entry.id, answer) && answer is Err
                && r is Err && is_summing_failure(r->Err_0, answer->Err_0)
    }

    /// The payments on the first `k` of `entries` were summed, the sum of
    /// the next was refused, and `r` reports that.
    pub open spec fn sums_stopped_at(
        &self,
        entries: Seq<BudgetEntryWithCategory>,
        k: int,
        r: Result<MonthSummary, MonthError>,
    ) -> bool {
        &&& 0 <= k < entries.len()
        &&& forall|i: int| 0 <= i < k ==> self.sum_succeeded(#[trigger] entries[i])
        &&& self.sum_failed(entries[k], r)
    }

    /// The repository answered for each of `entries` what `paid` holds at
    /// its place, and `r` is the outcome of the summary from that.
    pub open spec fn all_summed(
        &self,
        month: BudgetMonth,
        entries: Seq<BudgetEntryWithCategory>,
        paid: Seq<Money>,
        r: Result<MonthSummary, MonthError>,
    ) -> bool {
        &&& paid.len() == entries.len()
        &&& forall|i: int| 0 <= i < entries.len() ==> self.paid_on(#[trigger] entries[i], paid[i])
        &&& is_summary_outcome(month, paid_entries(entries, paid), r)
    }

    /// `r` is what the summary of `month` from its `entries` comes to: the
    /// repository is asked for the sum of the payments on each entry, in
    /// their order; either it answers all, and `r` is the outcome of the
    /// summary, or `r` reports the first request that it refused, and none
    /// is made after it.
    pub open spec fn summed(
        &self,
        month: BudgetMonth,
        entries: Seq<BudgetEntryWithCategory>,
        r: Result<MonthSummary, MonthError>,
    ) -> bool {
        ||| exists|paid: Seq<Money>| #[trigger] self.all_summed(month, entries, paid, r)
        ||| exists|k: int| #[trigger] self.sums_stopped_at(entries, k, r)
    }

    /// `r` is what the summary of the month `month`, stored under
    /// `month_id`, comes to: the entries under `month_id` are listed; a
    /// listing that failed is reported, and else the summary is made from
    /// the entries.
    pub open spec fn summary_outcome_of(
        &self,
        month_id: EntityId,
        month: BudgetMonth,
        r: Result<MonthSummary, MonthError>,
    ) -> bool {
        exists|listing: Result<Vec<BudgetEntryWithCategory>, EntryError>|
            #[trigger] entries_listed(self.entry_repo(), month_id, listing) && match listing {
                Ok(entries) => self.summed(month, entries@, r),
                Err(cause) => r is Err && is_listing_failure(r->Err_0, cause),
            }
    }

    pub fn new(entry_repo: Arc<E>, transaction_repo: Arc<T>, month_repo: Arc<M>) -> (s: Self)
        ensures
            s.entry_repo() == *entry_repo,
            s.transaction_repo() == *transaction_repo,
            s.month_repo() == *month_repo,
    {
        SummaryService { entry_repo, transaction_repo, month_repo }
    }

    /// The summary of a month: the month is looked up; a month that is
    /// missing is an error, a lookup that failed ends with its error, and
    /// else the result is that of `summary_of` for the id that was asked
    /// for and the calendar month that was found under it. Whatever the
    /// repositories answer, a summary that comes back is consistent.
    pub fn get_month_summary(&self, month_id: &EntityId) -> (r: Result<MonthSummary, MonthError>)
        ensures
            exists|found: Result<Option<Month>, MonthError>|
                #[trigger] month_found(self.month_repo(), *month_id, found) && match found {
                    Ok(Some(month)) => self.summary_outcome_of(*month_id, month.month, r),
                    Ok(None) => r matches Err(MonthError::NotFound),
                    Err(cause) => r == Err::<MonthSummary, MonthError>(cause),
                },
            r matches Ok(summary) ==> summary.is_consistent(),
    {
        let found = self.month_repo.find_by_id(month_id);
        assert(month_found(self.month_repo(), *month_id, found));
        match found {
            Ok(Some(month)) => self.summary_of(month_id, month.month),
            Ok(None) => Err(MonthError::NotFound),
            Err(cause) => Err(cause),
        }
    }

    /// The second part of a summary, once the month was found: lists the
    /// entries stored under `month_id`, asks for the sum of the payments of
    /// each, and puts the summary of `month` together with
    /// `summary_outcome`. Whatever the repositories answer, a summary that
    /// comes back is that of `month` and consistent.
    pub fn summary_of(&self, month_id: &EntityId, month: BudgetMonth) -> (r: Result<
        MonthSummary,
        MonthError,
    >)
        ensures
            self.summary_outcome_of(*month_id, month, r),
            r matches Ok(summary) ==> summary.month == month && summary.is_consistent(),
    {
        let listing = self.entry_repo.list_by_month(month_id);
        let ghost listed = listing;
        assert(entries_listed(self.entry_repo(), *month_id, listed));
        let entries = match listing {
            Ok(entries) => entries,
            Err(cause) => {
                return Err(listing_failure(&cause));
            },
        };
        let ghost all = entries@;
        let mut pending = reversed(entries);
        let mut with_payments: Vec<(BudgetEntryWithCategory, Money)> = Vec::new();
        let ghost mut paid: Seq<Money> = Seq::empty();
        while pending.len() > 0
            invariant
                entries_listed(self.entry_repo(), *month_id, listed),
                listed matches Ok(entries) && entries@ == all,
                with_payments@.len() + pending@.len() == all.len(),
                paid.len() == with_payments@.len(),
                forall|j: int|
                    0 <= j < pending@.len() ==> #[trigger] pending@[j] == all[all.len() - 1 - j],
                forall|i: int|
                    0 <= i < with_payments@.len() ==> #[trigger] with_payments@[i] == (
                        all[i],
                        paid[i],
                    ),
                forall|i: int|
                    0 <= i < with_payments@.len() ==> self.paid_on(#[trigger] all[i], paid[i]),
            decreases pending@.len(),
        {
            let ghost at = with_payments@.len() as int;
            let entry = pending.pop().unwrap();
            assert(entry == all[at]);
            let answer = self.transaction_repo.sum_by_entry(&entry.id);
            assert(payments_summed(self.transaction_repo(), all[at].id, answer));
            let sum = match answer {
                Ok(sum) => sum,
                Err(cause) => {
                    let r = Err(summing_failure(&cause));
                    proof {
                        assert(self.sum_failed(all[at], r));
                        assert forall|i: int| 0 <= i < at implies self.sum_succeeded(
                            #[trigger] all[i],
                        ) by {
                            assert(self.paid_on(all[i], paid[i]));
                        }
                        assert(self.sums_stopped_at(all, at, r));
                    }
                    return r;
                },
            };
            proof {
                assert(self.paid_on(all[at], sum));
                paid = paid.push(sum);
            }
            with_payments.push((entry, sum));
        }
        proof {
            assert(with_payments@ =~= paid_entries(all, paid));
        }
        let r = summary_outcome(month, with_payments);
        proof {
            assert(is_summary_outcome(month, paid_entries(all, paid), r));
            assert(self.all_summed(month, all, paid, r));
        }
        r
    }
}

} // verus!
