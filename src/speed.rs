//! The shared speed index and the multipliers it selects.
use vstd::prelude::*;

verus! {

/// Number of allowed heartbeat speeds.
pub const SPEED_COUNT: u32 = 3;

/// The allowed speed multipliers, in index order: 1, 2 and 4.
pub open spec fn spec_multiplier(idx: nat) -> nat {
    if idx == 0 {
        1
    } else if idx == 1 {
        2
    } else {
        4
    }
}

/// The index that follows `idx` when the button is pressed.
pub open spec fn spec_next_index(idx: nat) -> nat {
    (idx + 1) % (SPEED_COUNT as nat)
}

/// The index reached from index 0 after `presses` confirmed presses.
pub open spec fn index_after(presses: nat) -> nat
    decreases presses,
{
    if presses == 0 {
        0
    } else {
        spec_next_index(index_after((presses - 1) as nat))
    }
}

/// A valid index into the list of allowed speed multipliers.
#[derive(Clone, Copy, Debug, PartialEq, Eq, Structural)]
pub struct SpeedIndex {
    idx: u32,
}

impl View for SpeedIndex {
    type V = nat;

    closed spec fn view(&self) -> nat {
        self.idx as nat
    }
}

impl SpeedIndex {
    #[verifier::type_invariant]
    spec fn in_range(self) -> bool {
        self.idx < SPEED_COUNT
    }

    /// The index every process starts with: the slowest speed.
    pub fn new() -> (r: Self)
        ensures
            r@ == 0,
            r@ < SPEED_COUNT,
    {
        SpeedIndex { idx: 0 }
    }

    /// Reads a raw stored index back; `None` when it is not a valid index.
    pub fn from_raw(raw: u32) -> (r: Option<Self>)
        ensures
            r.is_some() <==> raw < SPEED_COUNT,
            r matches Some(s) ==> s@ == raw as nat && s@ < SPEED_COUNT,
    {
        if raw < SPEED_COUNT {
            Some(SpeedIndex { idx: raw })
        } else {
            None
        }
    }

    /// The raw value to store in a shared cell.
    pub fn raw(&self) -> (r: u32)
        ensures
            r as nat == self@,
            r < SPEED_COUNT,
    {
        proof {
            use_type_invariant(self);
        }
        self.idx
    }

    /// The index after one confirmed press, wrapping to the first speed.
    pub fn next(&self) -> (r: Self)
        ensures
            r@ == spec_next_index(self@),
            r@ < SPEED_COUNT,
    {
        proof {
            use_type_invariant(self);
        }
        SpeedIndex { idx: (self.idx + 1) % SPEED_COUNT }
    }

    /// The multiplier this index selects.
    pub fn multiplier(&self) -> (r: u64)
        ensures
            r as nat == spec_multiplier(self@),
            r >= 1,
    {
        proof {
            use_type_invariant(self);
        }
        if self.idx == 0 {
            1
        } else if self.idx == 1 {
            2
        } else {
            4
        }
    }
}

/// After `k` confirmed presses from the initial index, the index is
/// `k mod SPEED_COUNT`.
pub proof fn lemma_presses_wrap(k: nat)
    ensures
        index_after(k) == k % (SPEED_COUNT as nat),
    decreases k,
{
    if k > 0 {
        lemma_presses_wrap((k - 1) as nat);
    }
}

} // verus!
