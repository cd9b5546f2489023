use vstd::prelude::*;

verus! {

/// Marks a region of code that must not be left abnormally.
///
/// The guard is armed when made and disarmed by [`AbortOnSuddenDrop::done`],
/// which consumes it. Ending the process when foreign code unwinds through an
/// armed guard is left to the program that embeds this library; code verified
/// here never leaves such a region abnormally.
#[derive(Debug)]
pub struct AbortOnSuddenDrop {
    finished: bool,
}

impl AbortOnSuddenDrop {
    /// Whether the guard has been disarmed.
    pub closed spec fn is_finished(&self) -> bool {
        self.finished
    }

    /// An armed guard.
    pub fn new() -> (r: Self)
        ensures
            !r.is_finished(),
    {
        AbortOnSuddenDrop { finished: false }
    }

    /// Consumes the guard, disarming it.
    pub fn done(self) {
        let mut this = self;
        this.finished = true;
    }
}

/// Calls `f` inside a guarded region and returns its result.
pub fn abort_on_panic<R, F: FnOnce() -> R>(f: F) -> (r: R)
    requires
        f.requires(()),
    ensures
        f.ensures((), r),
{
    let aborter = AbortOnSuddenDrop::new();
    let result = f();
    aborter.done();
    result
}

} // verus!
