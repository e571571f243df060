//! Types that help using the library with `winit`. The messenger that asks a window to be
//! redrawn is the application's, since it is a call to the windowing system and nothing more.

use vstd::prelude::*;

verus! {

/// Converts `winit` events into user events of the library.
#[derive(Debug)]
pub struct WinitInputHandler {}

impl Default for WinitInputHandler {
    fn default() -> (r: Self)
        ensures
            r == (WinitInputHandler {  }),
    {
        WinitInputHandler {  }
    }
}

} // verus!
