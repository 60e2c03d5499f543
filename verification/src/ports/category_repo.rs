use crate::entities::{Category, FieldUpdate, NewCategory};
use crate::errors::CategoryError;
use crate::types::{CategoryName, EntityId};
use vstd::prelude::*;

verus! {

pub trait CategoryRepository: Send + Sync {
    /// All categories, by name ascending.
    fn list_all(&self) -> Result<Vec<Category>, CategoryError>;

    fn find_by_id(&self, id: &EntityId) -> Result<Option<Category>, CategoryError>;

    /// Fails with `NameAlreadyExists` where a category has the name.
    fn create(&self, category: NewCategory) -> Result<Category, CategoryError>;

    fn update_name(&self, id: &EntityId, name: CategoryName) -> Result<Category, CategoryError>;

    /// Changes the fields that are given and leaves the others.
    fn update(
        &self,
        id: &EntityId,
        name: Option<CategoryName>,
        label: FieldUpdate<String>,
    ) -> Result<Category, CategoryError>;
}

/// `answer` is what `repo` answered to `list_all`.
pub open spec fn categories_listed<R: CategoryRepository>(
    repo: R,
    answer: Result<Vec<Category>, CategoryError>,
) -> bool {
    call_ensures(R::list_all, (&repo,), answer)
}

/// `answer` is what `repo` answered to `find_by_id`.
pub open spec fn category_found<R: CategoryRepository>(
    repo: R,
    id: EntityId,
    answer: Result<Option<Category>, CategoryError>,
) -> bool {
    call_ensures(R::find_by_id, (&repo, &id), answer)
}

/// `answer` is what `repo` answered to `create`.
pub open spec fn category_created<R: CategoryRepository>(
    repo: R,
    category: NewCategory,
    answer: Result<Category, CategoryError>,
) -> bool {
    call_ensures(R::create, (&repo, category), answer)
}

/// `answer` is what `repo` answered to `update_name`.
pub open spec fn category_renamed<R: CategoryRepository>(
    repo: R,
    id: EntityId,
    name: CategoryName,
    answer: Result<Category, CategoryError>,
) -> bool {
    call_ensures(R::update_name, (&repo, &id, name), answer)
}

/// `answer` is what `repo` answered to `update`.
pub open spec fn category_updated<R: CategoryRepository>(
    repo: R,
    id: EntityId,
    name: Option<CategoryName>,
    label: FieldUpdate<String>,
    answer: Result<Category, CategoryError>,
) -> bool {
    call_ensures(R::update, (&repo, &id, name, label), answer)
}

} // verus!
