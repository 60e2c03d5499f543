//! Identifiers of entities: 128-bit values that sort by creation time, written
//! as 26 characters of Crockford base 32.

use vstd::prelude::*;

verus! {

/// What `ulid::Ulid::from_string` makes of a text: the 128-bit value that it
/// writes, or the text of the decoding error.
pub uninterp spec fn ulid_decoded(text: Seq<char>) -> Result<u128, Seq<char>>;

/// The text that `ulid::Ulid::to_string` writes for a 128-bit value.
pub uninterp spec fn ulid_encoded(value: u128) -> Seq<char>;

/// Calls `ulid::Ulid::from_string`. The contract claims only that the outcome
/// is a function of the text: the value of the identifier on success, the
/// displayed decoding error otherwise.
#[verifier::external_body]
fn ulid_from_string(text: &str) -> (r: Result<u128, String>)
    ensures
        match r {
            Ok(value) => ulid_decoded(text@) == Ok::<u128, Seq<char>>(value),
            Err(cause) => ulid_decoded(text@) == Err::<u128, Seq<char>>(cause@),
        },
{
    match ulid::Ulid::from_string(text) {
        Ok(id) => Ok(id.0),
        Err(e) => Err(e.to_string()),
    }
}

/// Calls `ulid::Ulid::to_string`. The contract claims only that the text is a
/// function of the value.
#[verifier::external_body]
fn ulid_to_string(value: u128) -> (s: String)
    ensures
        s@ == ulid_encoded(value),
{
    ulid::Ulid(value).to_string()
}

/// The identifier of a category, month, budget entry or transaction.
#[derive(Clone, Copy, Debug, PartialEq, Eq, Hash, PartialOrd, Ord, Structural)]
pub struct EntityId(u128);

impl View for EntityId {
    type V = u128;

    closed spec fn view(&self) -> u128 {
        self.0
    }
}

impl EntityId {
    pub fn new(value: u128) -> (id: Self)
        ensures
            id@ == value,
    {
        EntityId(value)
    }

    pub fn value(&self) -> (v: u128)
        ensures
            v == self@,
    {
        self.0
    }

    /// Whether two identifiers are the same.
    pub fn same(&self, other: &EntityId) -> (r: bool)
        ensures
            r == (self@ == other@),
            r == (*self == *other),
    {
        self.0 == other.0
    }

    /// The identifier that a decoding gave, or the error of the decoding.
    pub fn from_decoded(decoded: Result<u128, String>) -> (r: Result<Self, String>)
        ensures
            match decoded {
                Ok(value) => r is Ok && r->Ok_0@ == value,
                Err(cause) => r == Err::<Self, String>(cause),
            },
    {
        match decoded {
            Ok(value) => Ok(EntityId(value)),
            Err(cause) => Err(cause),
        }
    }

    /// Reads an identifier from its 26-character text.
    pub fn from_string(text: &str) -> (r: Result<Self, String>)
        ensures
            match ulid_decoded(text@) {
                Ok(value) => r is Ok && r->Ok_0@ == value,
                Err(cause) => r is Err && r->Err_0@ == cause,
            },
    {
        EntityId::from_decoded(ulid_from_string(text))
    }

    /// The 26-character text of the identifier.
    pub fn to_string(&self) -> (s: String)
        ensures
            s@ == ulid_encoded(self@),
    {
        ulid_to_string(self.0)
    }
}

} // verus!
