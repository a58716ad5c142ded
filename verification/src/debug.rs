//! Debugging and diagnostic tools

use vstd::prelude::*;

verus! {

pub struct DebugController;

impl DebugController {
    pub fn new() -> (c: Self) {
        DebugController
    }
}

impl Default for DebugController {
    fn default() -> (c: Self) {
        DebugController::new()
    }
}

} // verus!
