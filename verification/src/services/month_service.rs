//! Months, and the copying of the entries of an earlier month into a new one.

use crate::entities::{BudgetEntryWithCategory, Month, NewBudgetEntry, NewMonth};
use crate::errors::{prefixed, EntryError, MonthError};
use crate::ports::entry_repo::{entries_listed, entry_created};
use crate::ports::month_repo::{
    latest_other_month_found, month_created, month_found, months_listed,
};
use crate::ports::{BudgetEntryRepository, MonthRepository};
use crate::sequences::reversed;
use crate::services::summary_service::month_or_not_found;
use crate::types::{BudgetMonth, EntityId};
use std::sync::Arc;
use vstd::prelude::*;

verus! {

/// What the creation of a month does about entries.
#[derive(Debug, Clone, Copy, PartialEq, Eq, Structural)]
pub enum CopyPlan {
    /// The month stays without entries.
    Nothing,
    /// The month that the caller named has to be looked up first.
    LookUp(EntityId),
    /// The latest month other than the new one has to be looked up first.
    LookUpLatest,
}

/// The first step of the plan, from what the caller asked for: an empty
/// month copies nothing, a named source is looked up, and otherwise the
/// latest other month is.
pub open spec fn first_step(copy_from: Option<EntityId>, empty: bool) -> CopyPlan {
    if empty {
        CopyPlan::Nothing
    } else {
        match copy_from {
            Some(source) => CopyPlan::LookUp(source),
            None => CopyPlan::LookUpLatest,
        }
    }
}

pub fn plan_copy(copy_from: Option<&EntityId>, empty: bool) -> (plan: CopyPlan)
    ensures
        plan == first_step(
            match copy_from {
                Some(source) => Some(*source),
                None => None,
            },
            empty,
        ),
{
    if empty {
        CopyPlan::Nothing
    } else {
        match copy_from {
            Some(source) => CopyPlan::LookUp(*source),
            None => CopyPlan::LookUpLatest,
        }
    }
}

/// The source that the caller named, once it was looked up: it has to exist.
pub fn named_source(requested: EntityId, found: Option<Month>) -> (r: Result<EntityId, MonthError>)
    ensures
        found is Some ==> r == Ok::<EntityId, MonthError>(requested),
        found is None ==> r matches Err(MonthError::NotFound),
{
    match found {
        Some(_) => Ok(requested),
        None => Err(MonthError::NotFound),
    }
}

/// The source among the existing months, given the latest other month that
/// was found: that month, unless there is none or it is the new month
/// itself.
pub open spec fn latest_other(created: Month, latest: Option<Month>) -> Option<EntityId> {
    match latest {
        Some(month) => if month.id == created.id {
            None
        } else {
            Some(month.id)
        },
        None => None,
    }
}

/// The source among the existing months, once the latest was looked up: the
/// latest month, unless there is none or it is the new month itself.
pub fn latest_source(created: &Month, latest: Option<Month>) -> (r: Option<EntityId>)
    ensures
        r == latest_other(*created, latest),
        match latest {
            Some(month) => if month.id == created.id {
                r is None
            } else {
                r == Some(month.id)
            },
            None => r is None,
        },
        r matches Some(source) ==> source != created.id,
{
    match latest {
        Some(month) => if month.id.same(&created.id) {
            None
        } else {
            Some(month.id)
        },
        None => None,
    }
}

/// The copy of an entry into the month `target`: the same category, budget
/// and due day.
pub open spec fn is_copy_of(copy: NewBudgetEntry, target: EntityId, entry: BudgetEntryWithCategory)
    -> bool {
    &&& copy.month_id == target
    &&& copy.category_id == entry.category.id
    &&& copy.budgeted == entry.budgeted
    &&& copy.due_day == entry.due_day
}

/// The copy of `entry` into the month `target`.
pub open spec fn copy_into(target: EntityId, entry: BudgetEntryWithCategory) -> NewBudgetEntry {
    NewBudgetEntry {
        month_id: target,
        category_id: entry.category.id,
        budgeted: entry.budgeted,
        due_day: entry.due_day,
    }
}

pub fn copy_of(target: EntityId, entry: &BudgetEntryWithCategory) -> (copy: NewBudgetEntry)
    ensures
        copy == copy_into(target, *entry),
        is_copy_of(copy, target, *entry),
{
    NewBudgetEntry {
        month_id: target,
        category_id: entry.category.id,
        budgeted: entry.budgeted,
        due_day: entry.due_day,
    }
}

/// The entries to create in the month `target` so that it gets those of the
/// source: one copy per entry, in the order of the source.
pub fn copies_of(target: EntityId, entries: &Vec<BudgetEntryWithCategory>) -> (copies: Vec<
    NewBudgetEntry,
>)
    ensures
        copies@.len() == entries@.len(),
        forall|i: int|
            0 <= i < entries@.len() ==> #[trigger] copies@[i] == copy_into(target, entries@[i]),
        forall|i: int|
            0 <= i < entries@.len() ==> is_copy_of(#[trigger] copies@[i], target, entries@[i]),
{
    let mut copies: Vec<NewBudgetEntry> = Vec::new();
    let mut i: usize = 0;
    while i < entries.len()
        invariant
            i <= entries@.len(),
            copies@.len() == i,
            forall|k: int| 0 <= k < i ==> #[trigger] copies@[k] == copy_into(target, entries@[k]),
        decreases entries@.len() - i,
    {
        copies.push(copy_of(target, &entries[i]));
        i = i + 1;
    }
    copies
}

/// The error of a creation for which the entries of the source could not be
/// listed.
pub fn listing_failure(cause: &EntryError) -> (e: MonthError)
    ensures
        e matches MonthError::Repository(text) && text@ == "Failed to list entries for copy: "@
            + cause.text(),
{
    let cause_text = cause.to_string();
    MonthError::Repository(prefixed("Failed to list entries for copy: ", cause_text.as_str()))
}

/// The error of a creation for which an entry could not be copied.
pub fn copy_failure(cause: &EntryError) -> (e: MonthError)
    ensures
        e matches MonthError::Repository(text) && text@ == "Failed to copy entry: "@
            + cause.text(),
{
    let cause_text = cause.to_string();
    MonthError::Repository(prefixed("Failed to copy entry: ", cause_text.as_str()))
}

/// `failure` is the error of a creation for which the entries of the source
/// could not be listed, with the cause `cause`.
pub open spec fn is_listing_failure(failure: MonthError, cause: EntryError) -> bool {
    failure matches MonthError::Repository(text) && text@ == "Failed to list entries for copy: "@
        + cause.text()
}

/// `failure` is the error of a creation for which an entry could not be
/// copied, with the cause `cause`.
pub open spec fn is_copy_failure(failure: MonthError, cause: EntryError) -> bool {
    failure matches MonthError::Repository(text) && text@ == "Failed to copy entry: "@
        + cause.text()
}

/// The source that a caller named, if one was named.
pub open spec fn named(copy_from: Option<&EntityId>) -> Option<EntityId> {
    match copy_from {
        Some(source) => Some(*source),
        None => None,
    }
}

/// Months and their creation.
pub struct MonthService<M: MonthRepository, E: BudgetEntryRepository> {
    month_repo: Arc<M>,
    entry_repo: Arc<E>,
}

impl<M: MonthRepository, E: BudgetEntryRepository> MonthService<M, E> {
    /// The repository of months that the service asks.
    pub closed spec fn month_repo(&self) -> M {
        *self.month_repo
    }

    /// The repository of entries that the service asks.
    pub closed spec fn entry_repo(&self) -> E {
        *self.entry_repo
    }

    /// The repository answered the creation of the copy of `entry` in the
    /// month `target` with an entry.
    pub open spec fn copy_succeeded(&self, target: EntityId, entry: BudgetEntryWithCategory) -> bool {
        exists|answer: Result<BudgetEntryWithCategory, EntryError>|
            #[trigger] entry_created(self.entry_repo(), copy_into(target, entry), answer)
                && answer is Ok
    }

    /// The repository answered the creation of the copy of `entry` in the
    /// month `target` with an error, and `r` reports it.
    pub open spec fn copy_failed(
        &self,
        target: EntityId,
        entry: BudgetEntryWithCategory,
        r: Result<Month, MonthError>,
    ) -> bool {
        exists|answer: Result<BudgetEntryWithCategory, EntryError>|
            #[trigger] entry_created(self.entry_repo(), copy_into(target, entry), answer)
                && answer is Err && r is Err && is_copy_failure(r->Err_0, answer->Err_0)
    }

    /// The first `k` of `entries` were copied into the month `created`, the
    /// next was refused, and `r` reports that.
    pub open spec fn copies_stopped_at(
        &self,
        created: Month,
        entries: Seq<BudgetEntryWithCategory>,
        k: int,
        r: Result<Month, MonthError>,
    ) -> bool {
        &&& 0 <= k < entries.len()
        &&& forall|i: int| 0 <= i < k ==> self.copy_succeeded(created.id, #[trigger] entries[i])
        &&& self.copy_failed(created.id, entries[k], r)
    }

    /// `r` is what the copying of `entries` into the month `created` comes
    /// to: the copies are created one by one, in the order of the entries;
    /// either all are, and `r` is the month, or `r` reports the first that
    /// was refused, and none is created after it.
    pub open spec fn copies_written(
        &self,
        created: Month,
        entries: Seq<BudgetEntryWithCategory>,
        r: Result<Month, MonthError>,
    ) -> bool {
        ||| r == Ok::<Month, MonthError>(created) && forall|i: int|
            0 <= i < entries.len() ==> self.copy_succeeded(created.id, #[trigger] entries[i])
        ||| exists|k: int| self.copies_stopped_at(created, entries, k, r)
    }

    /// `r` is what the copying from the month `source` into the month
    /// `created` comes to: the entries of the source are listed; a listing
    /// that failed is reported, and else the entries are copied.
    pub open spec fn copied_from(
        &self,
        created: Month,
        source: EntityId,
        r: Result<Month, MonthError>,
    ) -> bool {
        exists|listing: Result<Vec<BudgetEntryWithCategory>, EntryError>|
            #[trigger] entries_listed(self.entry_repo(), source, listing) && match listing {
                Ok(entries) => self.copies_written(created, entries@, r),
                Err(cause) => r is Err && is_listing_failure(r->Err_0, cause),
            }
    }

    /// `r` is what the second part of a creation comes to. A month that is
    /// to stay empty is given back as it is. A source that was named is
    /// looked up: it has to exist, and is copied from. Else the latest
    /// other month is looked up: it is copied from if there is one, and the
    /// month is given back as it is if there is none. A lookup that failed
    /// ends the creation with its error.
    pub open spec fn copy_outcome(
        &self,
        created: Month,
        copy_from: Option<EntityId>,
        empty: bool,
        r: Result<Month, MonthError>,
    ) -> bool {
        match first_step(copy_from, empty) {
            CopyPlan::Nothing => r == Ok::<Month, MonthError>(created),
            CopyPlan::LookUp(requested) => exists|found: Result<Option<Month>, MonthError>|
                #[trigger] month_found(self.month_repo(), requested, found) && match found {
                    Ok(Some(_)) => self.copied_from(created, requested, r),
                    Ok(None) => r matches Err(MonthError::NotFound),
                    Err(cause) => r == Err::<Month, MonthError>(cause),
                },
            CopyPlan::LookUpLatest => exists|latest: Result<Option<Month>, MonthError>|
                #[trigger] latest_other_month_found(self.month_repo(), created.id, latest)
                    && match latest {
                    Ok(found) => match latest_other(created, found) {
                        Some(source) => self.copied_from(created, source, r),
                        None => r == Ok::<Month, MonthError>(created),
                    },
                    Err(cause) => r == Err::<Month, MonthError>(cause),
                },
        }
    }

    pub fn new(month_repo: Arc<M>, entry_repo: Arc<E>) -> (s: Self)
        ensures
            s.month_repo() == *month_repo,
            s.entry_repo() == *entry_repo,
    {
        MonthService { month_repo, entry_repo }
    }

    /// All months: gives what the repository answers to the listing.
    pub fn list_all(&self) -> (r: Result<Vec<Month>, MonthError>)
        ensures
            months_listed(self.month_repo(), r),
    {
        self.month_repo.list_all()
    }

    /// The month of an identifier: the month that the repository finds; a
    /// month that is missing is an error, and a lookup that failed ends
    /// with its error.
    pub fn find_by_id(&self, id: &EntityId) -> (r: Result<Month, MonthError>)
        ensures
            exists|found: Result<Option<Month>, MonthError>|
                #[trigger] month_found(self.month_repo(), *id, found) && match found {
                    Ok(Some(month)) => r == Ok::<Month, MonthError>(month),
                    Ok(None) => r matches Err(MonthError::NotFound),
                    Err(cause) => r == Err::<Month, MonthError>(cause),
                },
    {
        let found = self.month_repo.find_by_id(id);
        assert(month_found(self.month_repo(), *id, found));
        match found {
            Ok(found) => month_or_not_found(found),
            Err(cause) => Err(cause),
        }
    }

    /// Creates the month and, unless `empty` is set, copies into it the
    /// entries of a source month: the one named by `copy_from`, which has to
    /// exist, or else the latest other month, if there is one.
    ///
    /// The month is created first: a creation that the repository refuses
    /// ends with its error, and else the result is that of `copy_entries`.
    /// A failure after the creation leaves the month and the entries copied
    /// so far in the store; it is reported, never passed over.
    pub fn create(&self, month: BudgetMonth, copy_from: Option<&EntityId>, empty: bool) -> (r:
        Result<Month, MonthError>)
        ensures
            exists|answer: Result<Month, MonthError>|
                #[trigger] month_created(self.month_repo(), (NewMonth { month }), answer)
                    && match answer {
                    Ok(created) => self.copy_outcome(created, named(copy_from), empty, r),
                    Err(cause) => r == Err::<Month, MonthError>(cause),
                },
    {
        let answer = self.month_repo.create(NewMonth { month });
        assert(month_created(self.month_repo(), (NewMonth { month }), answer));
        match answer {
            Ok(created) => self.copy_entries(created, copy_from, empty),
            Err(cause) => Err(cause),
        }
    }

    /// The second part of a creation: copies into the month `created` the
    /// entries of its source, and gives the month back. Whatever the
    /// repositories answer, a month that comes back is `created`; and a
    /// month that is to stay empty comes back without the repositories
    /// being asked.
    pub fn copy_entries(&self, created: Month, copy_from: Option<&EntityId>, empty: bool) -> (r:
        Result<Month, MonthError>)
        ensures
            self.copy_outcome(created, named(copy_from), empty, r),
            r matches Ok(month) ==> month == created,
            empty ==> r is Ok,
    {
        match plan_copy(copy_from, empty) {
            CopyPlan::Nothing => Ok(created),
            CopyPlan::LookUp(requested) => {
                let found = self.month_repo.find_by_id(&requested);
                assert(month_found(self.month_repo(), requested, found));
                match found {
                    Ok(found) => match named_source(requested, found) {
                        Ok(source) => self.copy_from_source(created, source),
                        Err(e) => Err(e),
                    },
                    Err(cause) => Err(cause),
                }
            },
            CopyPlan::LookUpLatest => {
                let latest = self.month_repo.find_latest_excluding(&created.id);
                assert(latest_other_month_found(self.month_repo(), created.id, latest));
                match latest {
                    Ok(found) => match latest_source(&created, found) {
                        Some(source) => self.copy_from_source(created, source),
                        None => Ok(created),
                    },
                    Err(cause) => Err(cause),
                }
            },
        }
    }

    /// Copies the entries of the month `source` into the month `created`.
    fn copy_from_source(&self, created: Month, source: EntityId) -> (r: Result<Month, MonthError>)
        ensures
            self.copied_from(created, source, r),
            r matches Ok(month) ==> month == created,
    {
        let listing = self.entry_repo.list_by_month(&source);
        let ghost listed = listing;
        assert(entries_listed(self.entry_repo(), source, listed));
        let entries = match listing {
            Ok(entries) => entries,
            Err(cause) => {
                return Err(listing_failure(&cause));
            },
        };
        let copies = copies_of(created.id, &entries);
        let ghost planned = copies@;
        let mut pending = reversed(copies);
        while pending.len() > 0
            invariant
                entries_listed(self.entry_repo(), source, listed),
                listed == Ok::<Vec<BudgetEntryWithCategory>, EntryError>(entries),
                planned.len() == entries@.len(),
                pending@.len() <= planned.len(),
                forall|i: int|
                    0 <= i < planned.len() ==> #[trigger] planned[i] == copy_into(
                        created.id,
                        entries@[i],
                    ),
                forall|j: int|
                    0 <= j < pending@.len() ==> #[trigger] pending@[j] == planned[planned.len() - 1
                        - j],
                forall|i: int|
                    0 <= i < planned.len() - pending@.len() ==> self.copy_succeeded(
                        created.id,
                        #[trigger] entries@[i],
                    ),
            decreases pending@.len(),
        {
            let ghost at = planned.len() - pending@.len();
            let copy = pending.pop().unwrap();
            assert(copy == copy_into(created.id, entries@[at]));
            let answer = self.entry_repo.create(copy);
            assert(entry_created(self.entry_repo(), copy_into(created.id, entries@[at]), answer));
            match answer {
                Ok(_) => {
                    assert(self.copy_succeeded(created.id, entries@[at]));
                },
                Err(cause) => {
                    let r = Err(copy_failure(&cause));
                    assert(self.copy_failed(created.id, entries@[at], r));
                    assert(self.copies_stopped_at(created, entries@, at, r));
                    return r;
                },
            }
        }
        Ok(created)
    }
}

} // verus!
