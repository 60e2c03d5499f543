use crate::types::{CategoryName, EntityId, Timestamp};
use vstd::prelude::*;

verus! {

/// A category of spending. Names are unique among categories.
#[derive(Debug, Clone)]
pub struct Category {
    pub id: EntityId,
    pub name: CategoryName,
    pub label: Option<String>,
    pub created_at: Timestamp,
    pub updated_at: Timestamp,
}

/// What is needed to create a category.
#[derive(Debug, Clone)]
pub struct NewCategory {
    pub name: CategoryName,
}

} // verus!
