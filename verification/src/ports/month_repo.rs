use crate::entities::{Month, NewMonth};
use crate::errors::MonthError;
use crate::types::{BudgetMonth, EntityId};
use vstd::prelude::*;

verus! {

pub trait MonthRepository: Send + Sync {
    fn list_all(&self) -> Result<Vec<Month>, MonthError>;

    fn find_by_id(&self, id: &EntityId) -> Result<Option<Month>, MonthError>;

    fn find_by_month(&self, month: &BudgetMonth) -> Result<Option<Month>, MonthError>;

    /// Fails with `AlreadyExists` where the calendar month has a record.
    fn create(&self, month: NewMonth) -> Result<Month, MonthError>;

    /// The record of the latest calendar month.
    fn find_latest(&self) -> Result<Option<Month>, MonthError>;

    /// The record of the latest calendar month among those with another
    /// identifier than `exclude_id`.
    fn find_latest_excluding(&self, exclude_id: &EntityId) -> Result<Option<Month>, MonthError>;
}

/// `answer` is what `repo` answered to `list_all`.
pub open spec fn months_listed<R: MonthRepository>(
    repo: R,
    answer: Result<Vec<Month>, MonthError>,
) -> bool {
    call_ensures(R::list_all, (&repo,), answer)
}

/// `answer` is what `repo` answered to `find_by_id`.
pub open spec fn month_found<R: MonthRepository>(
    repo: R,
    id: EntityId,
    answer: Result<Option<Month>, MonthError>,
) -> bool {
    call_ensures(R::find_by_id, (&repo, &id), answer)
}

/// `answer` is what `repo` answered to `create`.
pub open spec fn month_created<R: MonthRepository>(
    repo: R,
    month: NewMonth,
    answer: Result<Month, MonthError>,
) -> bool {
    call_ensures(R::create, (&repo, month), answer)
}

/// `answer` is what `repo` answered to `find_latest_excluding`.
pub open spec fn latest_other_month_found<R: MonthRepository>(
    repo: R,
    exclude_id: EntityId,
    answer: Result<Option<Month>, MonthError>,
) -> bool {
    call_ensures(R::find_latest_excluding, (&repo, &exclude_id), answer)
}

} // verus!
