use vstd::prelude::*;

verus! {

/// Held for as long as logging is set up.
#[must_use]
pub struct LogHandle(());

impl LogHandle {
    pub fn new() -> LogHandle {
        LogHandle(())
    }
}

} // verus!
