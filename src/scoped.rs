use vstd::prelude::*;

use crate::slot::Slot;

verus! {

/// A dynamic extent in which several slots may be emptied at once.
///
/// The scope counts the holes it has handed out and that have not been
/// discharged yet. [`scope`] opens one with no open hole and, when its body
/// returns, reports success only if the count is back at zero.
pub struct Scope {
    active_holes: usize,
}

/// Returned by [`scope`] when its body left holes unfilled: the slots they
/// borrowed are empty.
#[derive(Debug, PartialEq, Eq, Structural)]
pub struct UnfilledHoles {
    /// How many holes were still open when the scope closed.
    pub count: usize,
}

/// The recovery parameter of a hole made by [`Scope::take`]: such a hole has
/// no recovery producer, so it cannot be recovered, only filled.
pub struct NoRecovery;

/// The debt of refilling one slot emptied by [`Scope::take`] or
/// [`Scope::take_and_recover`].
///
/// A hole is discharged exactly once, by [`Hole::fill`] or [`Hole::recover`],
/// both of which consume it. A hole that is dropped instead leaves its slot
/// empty and its scope unbalanced, which [`scope`] reports.
#[verifier::reject_recursive_types(T)]
pub struct Hole<'m, T, F> {
    hole: &'m mut Slot<T>,
    recovery: Option<F>,
}

impl Scope {
    /// The number of holes handed out and not discharged yet.
    pub closed spec fn open_holes(&self) -> nat {
        self.active_holes as nat
    }

    /// Empties `mut_ref` and returns its value with a hole that must refill
    /// it; `recovery` is bound to the hole, for [`Hole::recover`].
    pub fn take_and_recover<'m, T, F: FnOnce() -> T>(&mut self, mut_ref: &'m mut Slot<T>, recovery: F) -> (r: (T, Hole<'m, T, F>))
        requires
            old(self).open_holes() < usize::MAX,
            old(mut_ref)@ is Some,
        ensures
            Some(r.0) == old(mut_ref)@,
            final(self).open_holes() == old(self).open_holes() + 1,
            r.1.target()@ is None,
            *final(mut_ref) == *final(r.1.target()),
            r.1.recovery() == Some(recovery),
    {
        self.active_holes = self.active_holes + 1;
        let t = mut_ref.move_out();
        (t, Hole { hole: mut_ref, recovery: Some(recovery) })
    }

    /// Empties `mut_ref` and returns its value with a hole that must refill
    /// it. The hole has no recovery: only [`Hole::fill`] discharges it.
    pub fn take<'m, T>(&mut self, mut_ref: &'m mut Slot<T>) -> (r: (T, Hole<'m, T, NoRecovery>))
        requires
            old(self).open_holes() < usize::MAX,
            old(mut_ref)@ is Some,
        ensures
            Some(r.0) == old(mut_ref)@,
            final(self).open_holes() == old(self).open_holes() + 1,
            r.1.target()@ is None,
            *final(mut_ref) == *final(r.1.target()),
            r.1.recovery() is None,
    {
        self.active_holes = self.active_holes + 1;
        let t = mut_ref.move_out();
        (t, Hole { hole: mut_ref, recovery: None })
    }
}

impl<'m, T, F> Hole<'m, T, F> {
    /// The emptied slot this hole borrows.
    pub closed spec fn target(&self) -> &'m mut Slot<T> {
        self.hole
    }

    /// The recovery producer bound to this hole, if any.
    pub closed spec fn recovery(&self) -> Option<F> {
        self.recovery
    }

    /// Puts `t` into the emptied slot and discharges the hole in `scope`.
    pub fn fill(self, scope: &mut Scope, t: T)
        requires
            old(scope).open_holes() > 0,
        ensures
            final(self.target())@ == Some(t),
            final(scope).open_holes() == old(scope).open_holes() - 1,
    {
        self.hole.move_in(t);
        scope.active_holes = scope.active_holes - 1;
    }
}

impl<'m, T, F: FnOnce() -> T> Hole<'m, T, F> {
    /// Puts the value of the bound recovery producer into the emptied slot and
    /// discharges the hole in `scope`.
    pub fn recover(self, scope: &mut Scope)
        requires
            old(scope).open_holes() > 0,
            self.recovery() is Some,
            self.recovery()->0.requires(()),
        ensures
            final(self.target())@ is Some,
            self.recovery()->0.ensures((), final(self.target())@->0),
            final(scope).open_holes() == old(scope).open_holes() - 1,
    {
        let Hole { hole, recovery } = self;
        let producer = recovery.unwrap();
        let t = producer();
        hole.move_in(t);
        scope.active_holes = scope.active_holes - 1;
    }
}

/// Runs `f` with a fresh scope and checks, once `f` has returned, that every
/// hole taken in it has been discharged.
///
/// Returns `Ok` with `f`'s result exactly when no hole is left open; otherwise
/// `f`'s result is dropped and the number of open holes is reported.
pub fn scope<R, F: FnOnce(&mut Scope) -> R>(f: F) -> (r: Result<R, UnfilledHoles>)
    requires
        forall|s: &mut Scope| s.open_holes() == 0 ==> #[trigger] f.requires((s,)),
    ensures
        match r {
            Ok(v) => exists|s: &mut Scope|
                {
                    &&& s.open_holes() == 0
                    &&& #[trigger] f.ensures((s,), v)
                    &&& final(s).open_holes() == 0
                },
            Err(e) => e.count > 0 && exists|s: &mut Scope, v: R|
                {
                    &&& s.open_holes() == 0
                    &&& #[trigger] f.ensures((s,), v)
                    &&& final(s).open_holes() == e.count
                },
        },
{
    let mut this = Scope { active_holes: 0 };
    let sr = &mut this;
    let result = f(sr);
    if this.active_holes == 0 {
        let out: Result<R, UnfilledHoles> = Ok(result);
        assert(out matches Ok(v) && v == result);
        out
    } else {
        Err(UnfilledHoles { count: this.active_holes })
    }
}

} // verus!
