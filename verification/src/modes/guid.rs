//! Identity of a DAW track.
use vstd::prelude::*;

verus! {

/// The 128 bits of a track's GUID.
#[derive(Clone, Copy, PartialEq, Eq, Debug, Hash, Structural)]
pub struct TrackGuid {
    pub bits: u128,
}

/// Whether no track sits on two of the hardware channels `hw`.
pub open spec fn assigned_once(hw: Seq<Option<TrackGuid>>) -> bool {
    forall|i: int, j: int|
        0 <= i < j < hw.len() && (#[trigger] hw[i]) is Some ==> hw[i] != #[trigger] hw[j]
}

/// The hardware channel track `g` sits on, if any.
pub open spec fn slot_of(hw: Seq<Option<TrackGuid>>, g: TrackGuid) -> Option<int> {
    if exists|i: int| 0 <= i < hw.len() && hw[i] == Some(g) {
        Some(choose|i: int| 0 <= i < hw.len() && hw[i] == Some(g))
    } else {
        None
    }
}

/// The hardware channel track `g` sits on, if any.
pub fn find_slot(hw: &Vec<Option<TrackGuid>>, g: TrackGuid) -> (r: Option<usize>)
    requires
        assigned_once(hw@),
    ensures
        r is Some <==> slot_of(hw@, g) is Some,
        r matches Some(i) ==> slot_of(hw@, g) == Some(i as int) && i < hw@.len(),
{
    let mut i: usize = 0;
    while i < hw.len()
        invariant
            0 <= i <= hw.len(),
            assigned_once(hw@),
            forall|j: int| 0 <= j < i ==> hw@[j] != Some(g),
        decreases hw.len() - i,
    {
        if hw[i] == Some(g) {
            proof {
                let s = hw@;
                let c = choose|c: int| 0 <= c < s.len() && s[c] == Some(g);
                if c < i {
                    assert(s[c] != s[i as int]);
                } else if c > i {
                    assert(s[i as int] != s[c]);
                }
            }
            return Some(i);
        }
        i = i + 1;
    }
    None
}

} // verus!
