use crate::types::{EntityId, Money, Timestamp, TransactionDate};
use vstd::prelude::*;

verus! {

/// The largest number of characters of a transaction's title.
pub const MAX_TITLE_LENGTH: usize = 50;

/// A payment booked on a budget entry.
#[derive(Debug, Clone)]
pub struct Transaction {
    pub id: EntityId,
    pub entry_id: EntityId,
    pub amount: Money,
    pub date: TransactionDate,
    pub title: Option<String>,
    pub created_at: Timestamp,
    pub updated_at: Timestamp,
}

/// What is needed to create a transaction.
#[derive(Debug, Clone)]
pub struct NewTransaction {
    pub entry_id: EntityId,
    pub amount: Money,
    pub date: TransactionDate,
    pub title: Option<String>,
}

} // verus!
