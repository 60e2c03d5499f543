//! Categories of spending.

use crate::entities::{Category, FieldUpdate, NewCategory};
use crate::errors::{CategoryError, DomainError};
use crate::ports::category_repo::{
    categories_listed, category_created, category_renamed, category_updated,
};
use crate::ports::CategoryRepository;
use crate::types::category_name::{is_category_name, is_rejection_reason};
use crate::types::{CategoryName, EntityId};
use std::sync::Arc;
use vstd::prelude::*;

verus! {

/// The error of a category whose name was refused.
pub fn invalid_name(cause: &DomainError) -> (e: CategoryError)
    ensures
        e matches CategoryError::InvalidNameFormat { reason } && reason@ == cause.text(),
{
    CategoryError::InvalidNameFormat { reason: cause.to_string() }
}

/// `reason` is the text of the rejection of `name` as a category name.
pub open spec fn is_name_rejection(name: Seq<char>, reason: Seq<char>) -> bool {
    exists|why: Seq<char>|
        #[trigger] is_rejection_reason(name, why) && reason == "Invalid category name: "@ + why
}

/// The name of a category from the text that a caller gave.
pub fn checked_name(text: &str) -> (r: Result<CategoryName, CategoryError>)
    ensures
        is_category_name(text@) ==> r is Ok && r->Ok_0@ == text@,
        !is_category_name(text@) ==> (r matches Err(CategoryError::InvalidNameFormat { reason })
            && is_name_rejection(text@, reason@)),
{
    match CategoryName::new(text) {
        Ok(name) => Ok(name),
        Err(cause) => Err(invalid_name(&cause)),
    }
}

/// Categories.
pub struct CategoryService<R: CategoryRepository> {
    repo: Arc<R>,
}

impl<R: CategoryRepository> CategoryService<R> {
    /// The repository that the service asks.
    pub closed spec fn repo(&self) -> R {
        *self.repo
    }

    pub fn new(repo: Arc<R>) -> (s: Self)
        ensures
            s.repo() == *repo,
    {
        CategoryService { repo }
    }

    /// All categories, as the repository lists them: by name ascending.
    pub fn list_all(&self) -> (r: Result<Vec<Category>, CategoryError>)
        ensures
            categories_listed(self.repo(), r),
    {
        self.repo.list_all()
    }

    /// Creates a category of the name: gives what the repository answers,
    /// which refuses a name that is taken.
    pub fn create(&self, name: CategoryName) -> (r: Result<Category, CategoryError>)
        ensures
            category_created(self.repo(), (NewCategory { name }), r),
    {
        self.repo.create(NewCategory { name })
    }

    /// Gives what the repository answers to the change of the name.
    pub fn rename(&self, id: &EntityId, name: CategoryName) -> (r: Result<Category, CategoryError>)
        ensures
            category_renamed(self.repo(), *id, name, r),
    {
        self.repo.update_name(id, name)
    }

    /// Changes the name where one is given, and the label as the update
    /// says: gives what the repository answers to the update.
    pub fn update(&self, id: &EntityId, name: Option<CategoryName>, label: FieldUpdate<String>) -> (r:
        Result<Category, CategoryError>)
        ensures
            category_updated(self.repo(), *id, name, label, r),
    {
        self.repo.update(id, name, label)
    }
}

} // verus!
