use vstd::prelude::*;

verus! {

/// Number of parts that make up a whole `Permill` (one million).
pub const PERMILL_ACCURACY: u32 = 1_000_000;

/// A share of a whole, counted in parts per million, in `0 ..= 1_000_000`.
pub struct Permill {
    parts: u32,
}

impl Permill {
    /// Every value holds at most `PERMILL_ACCURACY` parts.
    #[verifier::type_invariant]
    spec fn inv(self) -> bool {
        self.parts <= PERMILL_ACCURACY
    }
}

impl View for Permill {
    type V = nat;

    /// The number of parts per million.
    closed spec fn view(&self) -> nat {
        self.parts as nat
    }
}

/// The number of parts that `from_parts(parts)` keeps: `parts`, capped at one million.
pub open spec fn saturated_parts(parts: u32) -> nat {
    if parts <= PERMILL_ACCURACY {
        parts as nat
    } else {
        PERMILL_ACCURACY as nat
    }
}

impl Permill {
    /// The empty share.
    pub fn zero() -> (r: Permill)
        ensures
            r@ == 0,
    {
        Permill { parts: 0 }
    }

    /// The share of `parts` per million; more than a million parts saturate at the whole.
    pub fn from_parts(parts: u32) -> (r: Permill)
        ensures
            r@ == saturated_parts(parts),
    {
        let capped: u32 = if parts <= PERMILL_ACCURACY {
            parts
        } else {
            PERMILL_ACCURACY
        };
        Permill { parts: capped }
    }

    /// The number of parts per million.
    pub fn deconstruct(&self) -> (r: u32)
        ensures
            r as nat == self@,
            r <= PERMILL_ACCURACY,
    {
        proof {
            use_type_invariant(self);
        }
        self.parts
    }
}

/// `from_parts` keeps every count of parts up to a whole and caps larger counts at a
/// whole, so `deconstruct` after `from_parts(parts)` gives `parts` back exactly when it
/// fits, and never more than a whole.
pub proof fn lemma_from_parts_round_trip(parts: u32)
    ensures
        saturated_parts(parts) <= PERMILL_ACCURACY,
        parts <= PERMILL_ACCURACY ==> saturated_parts(parts) == parts,
        parts > PERMILL_ACCURACY ==> saturated_parts(parts) == PERMILL_ACCURACY,
{
}

} // verus!
