//! Ctrl+C state as a count of received interrupts.

use vstd::prelude::*;

use crate::error::Error;

verus! {

/// Stop the current operation if an interrupt has been received: `count` is the number of
/// interrupts received by this process.
pub fn check(count: usize) -> (result: Result<(), Error>)
    ensures
        result is Ok <==> count == 0,
        result matches Err(e) ==> e is Interrupted,
{
    if count == 0 {
        Ok(())
    } else {
        Err(Error::Interrupted)
    }
}

} // verus!
