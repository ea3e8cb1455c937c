//! Stable identity primitives for persistent simulation entities.
//!
//! [`EntityId`] is the only entity identity allowed to cross persistence,
//! event, snapshot, or client boundaries.

use vstd::prelude::*;

use crate::text::{decimal_text, parse_decimal_u64, u64_from_decimal, u64_to_decimal};

verus! {

/// Stable, persistent identity for a simulation-domain entity.
///
/// Zero is reserved as an invalid/sentinel value.
#[derive(Clone, Copy, Debug, PartialEq, Eq, Structural, PartialOrd, Ord, Hash)]
pub struct EntityId(u64);

impl EntityId {
    /// An identity is never zero.
    #[verifier::type_invariant]
    closed spec fn non_zero(self) -> bool {
        self.0 != 0
    }
}

impl View for EntityId {
    type V = u64;

    closed spec fn view(&self) -> u64 {
        self.0
    }
}

/// Two identities with the same number are the same identity.
pub broadcast proof fn lemma_entity_view_injective(a: EntityId, b: EntityId)
    ensures
        #[trigger] a@ == #[trigger] b@ ==> a == b,
{
}

impl EntityId {
    /// Lowest valid persistent entity ID.
    pub fn first() -> (id: EntityId)
        ensures
            id@ == 1,
    {
        EntityId(1)
    }

    /// Highest valid persistent entity ID.
    pub fn last() -> (id: EntityId)
        ensures
            id@ == u64::MAX,
    {
        EntityId(u64::MAX)
    }

    /// Creates an ID when `raw` is non-zero.
    pub fn new(raw: u64) -> (id: Option<EntityId>)
        ensures
            match id {
                Some(id) => raw != 0 && id@ == raw,
                None => raw == 0,
            },
    {
        if raw == 0 {
            None
        } else {
            Some(EntityId(raw))
        }
    }

    /// Returns the stable numeric representation.
    pub fn get(self) -> (raw: u64)
        ensures
            raw == self@,
            raw != 0,
    {
        proof {
            use_type_invariant(&self);
        }
        self.0
    }

    /// The decimal text of the numeric identity.
    pub fn to_string(&self) -> (text: String)
        ensures
            text@ == decimal_text(self@ as nat),
    {
        u64_to_decimal(self.get())
    }

    /// Converts a raw number into an identity, rejecting the reserved zero.
    pub fn try_from_raw(raw: u64) -> (id: Result<EntityId, InvalidEntityId>)
        ensures
            match id {
                Ok(id) => raw != 0 && id@ == raw,
                Err(_) => raw == 0,
            },
    {
        match EntityId::new(raw) {
            Some(id) => Ok(id),
            None => Err(InvalidEntityId),
        }
    }

    /// Parses the decimal text of a non-zero identity.
    pub fn parse(text: &str) -> (id: Result<EntityId, ParseEntityIdError>)
        ensures
            match id {
                Ok(id) => parse_decimal_u64(text@) == Some(id@) && id@ != 0,
                Err(ParseEntityIdError::ReservedZero) => parse_decimal_u64(text@) == Some(0u64),
                Err(ParseEntityIdError::InvalidInteger(_)) => parse_decimal_u64(text@) is None,
            },
    {
        match u64_from_decimal(text) {
            Ok(raw) => match EntityId::new(raw) {
                Some(id) => Ok(id),
                None => Err(ParseEntityIdError::ReservedZero),
            },
            Err(error) => Err(ParseEntityIdError::InvalidInteger(error)),
        }
    }
}

impl core::str::FromStr for EntityId {
    type Err = ParseEntityIdError;

    fn from_str(value: &str) -> (id: Result<EntityId, ParseEntityIdError>)
        ensures
            match id {
                Ok(id) => parse_decimal_u64(value@) == Some(id@) && id@ != 0,
                Err(ParseEntityIdError::ReservedZero) => parse_decimal_u64(value@) == Some(0u64),
                Err(ParseEntityIdError::InvalidInteger(_)) => parse_decimal_u64(value@) is None,
            },
    {
        EntityId::parse(value)
    }
}

/// Error returned when constructing an [`EntityId`] from zero.
#[derive(Clone, Copy, Debug, PartialEq, Eq, Structural)]
pub struct InvalidEntityId;

/// Error returned when parsing an [`EntityId`] from text.
#[derive(Debug)]
pub enum ParseEntityIdError {
    /// The input is not an unsigned 64-bit integer.
    InvalidInteger(std::num::ParseIntError),
    /// The input is zero, which is reserved.
    ReservedZero,
}

/// Every identity written as text parses back to the same identity.
pub proof fn law_entity_text_round_trip(id: EntityId)
    requires
        id@ != 0,
    ensures
        parse_decimal_u64(decimal_text(id@ as nat)) == Some(id@),
{
    crate::text::law_decimal_round_trip(id@);
}

/// Monotonic allocator for stable entity IDs.
///
/// A `next_raw` value of zero represents permanent exhaustion.
#[derive(Clone, Debug, PartialEq, Eq, Structural)]
pub struct EntityIdAllocator {
    next_raw: u64,
}

impl View for EntityIdAllocator {
    type V = u64;

    /// The raw value of the next identity to hand out; zero once exhausted.
    closed spec fn view(&self) -> u64 {
        self.next_raw
    }
}

/// The raw counter after handing out `raw`: the successor, or the exhausted
/// marker zero after the highest identity.
pub open spec fn successor_raw(raw: u64) -> u64 {
    if raw == u64::MAX { 0 } else { (raw + 1) as u64 }
}

impl Default for EntityIdAllocator {
    /// An allocator whose first identity is the lowest valid one.
    fn default() -> (allocator: EntityIdAllocator)
        ensures
            allocator@ == 1,
    {
        EntityIdAllocator { next_raw: 1 }
    }
}

impl EntityIdAllocator {
    /// Creates an allocator whose next allocation is `next`.
    pub fn from_next(next: EntityId) -> (allocator: EntityIdAllocator)
        ensures
            allocator@ == next@,
    {
        EntityIdAllocator { next_raw: next.get() }
    }

    /// Restores an allocator from its raw counter, as persisted: zero is the
    /// exhausted allocator.
    pub fn from_next_raw(next_raw: u64) -> (allocator: EntityIdAllocator)
        ensures
            allocator@ == next_raw,
    {
        EntityIdAllocator { next_raw }
    }

    /// The raw counter, as persisted: the next identity, or zero once the
    /// identity space is exhausted.
    pub fn next_raw(&self) -> (next_raw: u64)
        ensures
            next_raw == self@,
    {
        self.next_raw
    }

    /// Returns the next ID without allocating it, or `None` after exhaustion.
    pub fn next(&self) -> (next: Option<EntityId>)
        ensures
            match next {
                Some(id) => self@ != 0 && id@ == self@,
                None => self@ == 0,
            },
    {
        EntityId::new(self.next_raw)
    }

    /// Allocates the next stable ID.
    ///
    /// The allocator becomes exhausted after returning the highest identity;
    /// an exhausted allocator returns [`EntityIdAllocationError`] and stays
    /// exhausted.
    pub fn allocate(&mut self) -> (allocated: Result<EntityId, EntityIdAllocationError>)
        ensures
            match allocated {
                Ok(id) => {
                    &&& old(self)@ != 0
                    &&& id@ == old(self)@
                    &&& final(self)@ == successor_raw(old(self)@)
                },
                Err(_) => old(self)@ == 0 && final(self)@ == 0,
            },
    {
        let id = match self.next() {
            Some(id) => id,
            None => return Err(EntityIdAllocationError),
        };
        self.next_raw = match self.next_raw.checked_add(1) {
            Some(next) => next,
            None => 0,
        };
        Ok(id)
    }

    /// Advances allocation beyond an ID restored from persistent state.
    pub fn advance_past(&mut self, existing: EntityId)
        ensures
            final(self)@ == if old(self)@ != 0 && old(self)@ <= existing@ {
                successor_raw(existing@)
            } else {
                old(self)@
            },
    {
        let behind = match self.next() {
            Some(next) => next.get() <= existing.get(),
            None => false,
        };
        if behind {
            self.next_raw = match existing.get().checked_add(1) {
                Some(next) => next,
                None => 0,
            };
        }
    }
}

/// Error returned after all valid entity IDs have been allocated.
#[derive(Clone, Copy, Debug, PartialEq, Eq, Structural)]
pub struct EntityIdAllocationError;

/// Identities are handed out in strictly increasing order and never reused:
/// if two successive allocations both succeed, the second is larger.
pub proof fn law_allocation_is_strictly_increasing(before: u64, first: u64, between: u64, second: u64)
    requires
        before != 0,
        first == before,
        between == successor_raw(before),
        between != 0,
        second == between,
    ensures
        first < second,
{
}

impl InvalidEntityId {
    /// The message of this failure.
    pub fn to_string(&self) -> (text: String)
        ensures
            text@ == "entity ID zero is reserved"@,
    {
        "entity ID zero is reserved".to_owned()
    }
}

impl EntityIdAllocationError {
    /// The message of this failure.
    pub fn to_string(&self) -> (text: String)
        ensures
            text@ == "entity ID space is exhausted"@,
    {
        "entity ID space is exhausted".to_owned()
    }
}

} // verus!
