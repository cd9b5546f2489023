use vstd::prelude::*;

verus! {

/// Marks a region of code that must not be left abnormally; unlike
/// [`crate::abort_on_panic::AbortOnSuddenDrop`] it carries no state; being
/// consumed by [`ExitOnSuddenDrop::done`] is what disarms it.
///
/// Ending the process when foreign code unwinds through an undisarmed guard
/// is left to the program that embeds this library.
#[derive(Debug)]
pub struct ExitOnSuddenDrop;

impl ExitOnSuddenDrop {
    /// An armed guard.
    pub fn new() -> Self {
        ExitOnSuddenDrop
    }

    /// Consumes the guard, disarming it.
    pub fn done(self) {
    }
}

/// Calls `f` inside a guarded region and returns its result.
pub fn exit_on_panic<R, F: FnOnce() -> R>(f: F) -> (r: R)
    requires
        f.requires(()),
    ensures
        f.ensures((), r),
{
    let exiter = ExitOnSuddenDrop::new();
    let result = f();
    exiter.done();
    result
}

} // verus!
