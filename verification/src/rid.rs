//! `Rid`: opaque handles to resources held by Godot's servers.

use vstd::prelude::*;

use crate::text::{decimal, push_decimal};

verus! {

/// A resource ID that is never zero.
#[derive(Copy, Clone, Eq, PartialEq, Ord, PartialOrd, Hash, Debug)]
pub struct RidId {
    id: u64,
}

impl RidId {
    /// The numeric value of the ID.
    pub closed spec fn value(self) -> u64 {
        self.id
    }

    #[verifier::type_invariant]
    closed spec fn nonzero(self) -> bool {
        self.id != 0
    }

    /// The ID with value `id`, or `None` if `id` is zero.
    pub fn new(id: u64) -> (r: Option<Self>)
        ensures
            r is None <==> id == 0,
            r matches Some(n) ==> n.value() == id,
    {
        if id == 0 {
            None
        } else {
            Some(RidId { id })
        }
    }

    /// The numeric value of the ID.
    pub fn get(self) -> (r: u64)
        ensures
            r == self.value(),
            r != 0,
    {
        proof {
            use_type_invariant(&self);
        }
        self.id
    }
}

/// A RID ("resource ID") is an opaque handle that refers to a Godot `Resource`.
///
/// RIDs do not grant access to the resource itself. Instead, they can be used in lower-level
/// resource APIs such as the servers.
#[derive(Copy, Clone, Eq, PartialEq, Ord, PartialOrd, Hash, Debug)]
pub enum Rid {
    /// A valid RID may refer to some resource, but is not guaranteed to do so.
    Valid(RidId),
    /// An invalid RID will never refer to a resource. Internally it is represented as a 0.
    Invalid,
}

impl Rid {
    /// The numeric ID of the RID; `0` for an invalid one.
    pub open spec fn spec_id(self) -> u64 {
        match self {
            Rid::Valid(id) => id.value(),
            Rid::Invalid => 0,
        }
    }

    /// The RID with the numeric ID `id`: invalid exactly when `id` is zero.
    pub closed spec fn spec_new(id: u64) -> Rid {
        if id == 0 {
            Rid::Invalid
        } else {
            Rid::Valid(RidId { id })
        }
    }

    /// Create a new RID.
    pub fn new(id: u64) -> (r: Self)
        ensures
            r == Self::spec_new(id),
    {
        match RidId::new(id) {
            Some(id) => Rid::Valid(id),
            None => Rid::Invalid,
        }
    }

    /// Convert this RID into a `u64`. Returns 0 if it is invalid.
    pub fn to_u64(self) -> (r: u64)
        ensures
            r == self.spec_id(),
    {
        match self {
            Rid::Valid(id) => id.get(),
            Rid::Invalid => 0,
        }
    }

    /// Convert this RID into a `u64` if it is valid. Otherwise, return `None`.
    pub fn to_valid_u64(self) -> (r: Option<u64>)
        ensures
            r == (if self is Valid { Some(self.spec_id()) } else { None::<u64> }),
    {
        match self {
            Rid::Valid(id) => Some(id.get()),
            Rid::Invalid => None,
        }
    }

    /// The text of the RID as Godot prints it, such as `RID(1)`; an invalid RID prints as `RID(0)`.
    pub open spec fn spec_to_string(self) -> Seq<char> {
        seq!['R', 'I', 'D', '('] + decimal(self.spec_id() as nat) + seq![')']
    }

    /// Formats the RID like Godot: `RID(id)`.
    pub fn to_string(&self) -> (r: String)
        ensures
            r@ == self.spec_to_string(),
    {
        proof {
            reveal_strlit("RID(");
            reveal_strlit(")");
        }
        let mut s = String::new();
        s.append("RID(");
        push_decimal(&mut s, self.to_u64());
        s.append(")");
        proof {
            assert(s@ =~= self.spec_to_string());
        }
        s
    }

    /// Returns `true` if this is a valid RID.
    pub fn is_valid(&self) -> (r: bool)
        ensures
            r == self is Valid,
    {
        matches!(self, Rid::Valid(_))
    }

    /// Returns `true` if this is an invalid RID.
    pub fn is_invalid(&self) -> (r: bool)
        ensures
            r == self is Invalid,
    {
        matches!(self, Rid::Invalid)
    }
}

/// The RID of a physics server resource, which is always valid.
#[derive(Copy, Clone, Eq, PartialEq, Ord, PartialOrd)]
pub struct PhysicsRid {
    id: RidId,
}

/// Creating a RID from a number and converting it back gives the number; the RID is valid
/// exactly when the number is not zero.
pub proof fn lemma_new_roundtrip(id: u64)
    ensures
        Rid::spec_new(id).spec_id() == id,
        Rid::spec_new(id) is Valid <==> id != 0,
{
}

/// Creating a RID from the numeric ID of a RID gives back that RID.
pub proof fn lemma_id_roundtrip(r: Rid)
    requires
        r is Valid ==> r.spec_id() != 0,
    ensures
        Rid::spec_new(r.spec_id()) == r,
{
}

} // verus!
