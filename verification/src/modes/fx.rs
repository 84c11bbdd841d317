//! Markers for the plugins that REAPER ships with.
use vstd::prelude::*;

verus! {

pub struct ReaEQ {}

pub struct ReaComp {}

} // verus!
