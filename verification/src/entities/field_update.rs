//! What an update does to an optional field.

use vstd::prelude::*;

verus! {

/// The three things that an update can do to an optional field: leave it as
/// it is, empty it, or give it a value.
#[derive(Clone, Debug, PartialEq, Eq)]
pub enum FieldUpdate<T> {
    Keep,
    Clear,
    SetTo(T),
}

impl<T> FieldUpdate<T> {
    /// The field after the update, given the field before it.
    pub open spec fn applied(self, before: Option<T>) -> Option<T> {
        match self {
            FieldUpdate::Keep => before,
            FieldUpdate::Clear => None,
            FieldUpdate::SetTo(value) => Some(value),
        }
    }

    /// Carries out the update on a field.
    pub fn apply(self, before: Option<T>) -> (after: Option<T>)
        ensures
            after == self.applied(before),
    {
        match self {
            FieldUpdate::Keep => before,
            FieldUpdate::Clear => None,
            FieldUpdate::SetTo(value) => Some(value),
        }
    }

    /// Whether the update leaves the field as it is.
    pub fn is_keep(&self) -> (r: bool)
        ensures
            r == (self is Keep),
    {
        match self {
            FieldUpdate::Keep => true,
            _ => false,
        }
    }

    /// The update that a doubly optional value stands for: nothing keeps the
    /// field, an empty value clears it, a value sets it.
    pub fn from_nested(nested: Option<Option<T>>) -> (r: Self)
        ensures
            r == match nested {
                None => FieldUpdate::Keep,
                Some(None) => FieldUpdate::Clear,
                Some(Some(value)) => FieldUpdate::SetTo(value),
            },
    {
        match nested {
            None => FieldUpdate::Keep,
            Some(None) => FieldUpdate::Clear,
            Some(Some(value)) => FieldUpdate::SetTo(value),
        }
    }
}

} // verus!
