//! The raw capture buffer of a session.

use vstd::prelude::*;

verus! {

/// What a session has captured, and nothing else.
pub struct State {
    /// Every captured line, in arrival order.
    pub outpub_buffer: Vec<String>,
}

impl Default for State {
    /// A state that has captured nothing.
    fn default() -> (state: Self)
        ensures
            state.outpub_buffer@ == Seq::<String>::empty(),
    {
        Self { outpub_buffer: Vec::new() }
    }
}

} // verus!
