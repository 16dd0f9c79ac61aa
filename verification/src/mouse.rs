//! Mouse stub: claims its register window and does nothing.

use vstd::prelude::*;

verus! {

pub struct Mouse {}

impl Mouse {
    pub fn new() -> (m: Mouse) {
        Mouse {  }
    }
}

} // verus!
