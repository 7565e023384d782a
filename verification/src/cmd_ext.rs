//! An extension hook for process builders: a launcher configures child
//! creation so that no extraneous console window pops up beside the
//! parent on platforms that would otherwise open one. The trait promises
//! only that the returned borrow is the same builder, so an
//! implementation is free to configure it; on every platform where the
//! concern does not exist, leaving the builder untouched is correct,
//! which is what the blanket implementation does.

use vstd::prelude::*;

verus! {

/// Process-builder extension: suppress the extraneous console window
/// some platforms open for a newly created child process.
pub trait CommandExt: Sized {
    /// Configures the builder so that spawning opens no extra console
    /// window, and hands the same builder back for further chained
    /// configuration.
    fn with_no_window(&mut self) -> (r: &mut Self)
        ensures
            *final(self) == *final(r),
    ;
}

impl<T> CommandExt for T {
    fn with_no_window(&mut self) -> (r: &mut Self)
        ensures
            *final(self) == *final(r),
    {
        self
    }
}

} // verus!
