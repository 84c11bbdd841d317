//! A latching on/off button.
use vstd::prelude::*;

verus! {

#[derive(Clone, Copy, PartialEq, Eq, Debug, Structural)]
pub struct Button {
    state: bool,
}

impl View for Button {
    type V = bool;

    /// Whether the button is on.
    closed spec fn view(&self) -> bool {
        self.state
    }
}

impl Button {
    pub fn new() -> (r: Self)
        ensures
            r@ == false,
    {
        Button { state: false }
    }

    pub fn is_on(&self) -> (r: bool)
        ensures
            r == self@,
    {
        self.state
    }

    pub fn set(&mut self, new_state: bool)
        ensures
            final(self)@ == new_state,
    {
        self.state = new_state;
    }

    /// Flip the button and return its new state.
    pub fn toggle(&mut self) -> (r: bool)
        ensures
            final(self)@ == !old(self)@,
            r == final(self)@,
    {
        self.state = !self.state;
        self.state
    }
}

impl Default for Button {
    fn default() -> (r: Self)
        ensures
            r@ == false,
    {
        Self::new()
    }
}

} // verus!
