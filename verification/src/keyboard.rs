//! The keyboard state: which keys are held down.

use vstd::prelude::*;

verus! {

/// The number of scancodes SDL tracks.
pub const NUM_SCANCODES: usize = 512;

/// A view of SDL's table of pressed keys, indexed by scancode.
#[derive(Clone, Copy)]
pub struct KeyboardState<'a> {
    state: &'a [bool; 512],
}

impl<'a> KeyboardState<'a> {
    /// The pressed state of every scancode, in scancode order.
    pub closed spec fn keys(&self) -> Seq<bool> {
        self.state@
    }

    /// A keyboard state backed by the table `state`.
    pub fn from_table(state: &'a [bool; 512]) -> (k: Self)
        ensures
            k.keys() == state@,
    {
        KeyboardState { state }
    }

    /// Whether the key with scancode `sc` was down at the last event pump.
    pub fn pressed(self, sc: i32) -> (r: bool)
        requires
            0 <= sc < NUM_SCANCODES,
        ensures
            r == self.keys()[sc as int],
    {
        self.state[sc as usize]
    }
}

} // verus!
