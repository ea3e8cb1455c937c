//! Person identity: the marker and stable-identity records a person carries,
//! and the identity step of spawning one.

use vstd::prelude::*;

use crate::entity::{successor_raw, EntityId, EntityIdAllocator};
use crate::text::decimal_text;
use vstd::string::StringExecFns;

verus! {

/// Marker: this runtime entity is a person.
#[derive(Clone, Copy, Debug, PartialEq, Eq, Structural)]
pub struct Person;

/// The persistent domain identity carried by a person: the only identity
/// used by events, snapshots and client views.
#[derive(Clone, Copy, Debug, PartialEq, Eq, Structural)]
pub struct StableEntityId(pub EntityId);

/// Failures from person runtime operations.
#[derive(Clone, Copy, Debug, PartialEq, Eq, Structural)]
pub enum PersonError {
    /// The stable identity space was exhausted before a handle was bound.
    IdentityExhausted,
    /// No person with this stable identity exists in the runtime.
    UnknownPerson {
        /// The identity that was not found.
        id: EntityId,
    },
}

/// Allocates the stable identity of a person about to be spawned; an
/// exhausted allocator is reported as [`PersonError::IdentityExhausted`] and
/// left as it was.
pub fn allocate_person_id(allocator: &mut EntityIdAllocator) -> (id: Result<EntityId, PersonError>)
    ensures
        match id {
            Ok(id) => {
                &&& old(allocator)@ != 0
                &&& id@ == old(allocator)@
                &&& final(allocator)@ == successor_raw(old(allocator)@)
            },
            Err(error) => {
                &&& error == PersonError::IdentityExhausted
                &&& old(allocator)@ == 0
                &&& final(allocator)@ == 0
            },
        },
{
    match allocator.allocate() {
        Ok(id) => Ok(id),
        Err(_) => Err(PersonError::IdentityExhausted),
    }
}

/// The message of a person runtime failure.
pub open spec fn person_error_text(error: PersonError) -> Seq<char> {
    match error {
        PersonError::IdentityExhausted => "stable identity space is exhausted"@,
        PersonError::UnknownPerson { id } => "no person with stable identity "@ + decimal_text(
            id@ as nat,
        ),
    }
}

impl PersonError {
    /// The message of this failure.
    pub fn to_string(&self) -> (text: String)
        ensures
            text@ == person_error_text(*self),
    {
        match self {
            PersonError::IdentityExhausted => "stable identity space is exhausted".to_owned(),
            PersonError::UnknownPerson { id } => {
                "no person with stable identity ".to_owned().concat(id.to_string().as_str())
            },
        }
    }
}

} // verus!
