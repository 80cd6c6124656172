//! The hello world actor's state, which holds nothing.

use vstd::prelude::*;

verus! {

/// The state of the hello world actor.
#[derive(Clone, Debug, PartialEq, Eq)]
pub struct State {}

impl State {
    /// The one state there is.
    pub fn new() -> (st: State)
        ensures
            st == (State {  }),
    {
        State {  }
    }
}

} // verus!
