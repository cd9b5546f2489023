//! Move a value out of a location, compute its replacement with code that owns
//! it, and put the replacement back: the location holds a value of its type
//! again whenever control returns to its owner.
//!
//! A location is a [`Slot`]. [`take`] runs a computation that cannot fail;
//! [`take_or_recover`] runs one that may fail, repairs the slot with a fallback
//! value on failure and hands the failure on. A [`Scope`] empties several slots
//! at once, each tracked by a [`Hole`] that must be filled before the scope
//! closes.
pub mod abort_on_panic;
pub mod exit_on_panic;
pub mod multi;
pub mod scoped;
pub mod slot;

pub use abort_on_panic::{abort_on_panic, AbortOnSuddenDrop};
pub use exit_on_panic::{exit_on_panic, ExitOnSuddenDrop};
pub use multi::{take_multi_2, take_multi_3, take_multi_4, take_multi_5};
pub use scoped::{scope, Hole, NoRecovery, Scope, UnfilledHoles};
pub use slot::Slot;

use vstd::prelude::*;

verus! {

/// `after` is what a take with `closure` may leave in a slot that held `before`:
/// a value, and one that `closure` may return for the old one.
pub open spec fn took<T, F: FnOnce(T) -> T>(closure: F, before: Option<T>, after: Option<T>) -> bool {
    &&& after is Some
    &&& closure.ensures((before->0,), after->0)
}

/// `after` and `r` are what a take-or-recover with `closure` and `recover` may
/// leave in a slot that held `before` and hand back: the computation's value and
/// `Ok` when it succeeds; when it fails with `e`, a value of `recover` and `Err(e)`.
pub open spec fn took_or_recovered<T, E, F: FnOnce(T) -> Result<T, E>, R: FnOnce() -> T>(
    closure: F,
    recover: R,
    before: Option<T>,
    after: Option<T>,
    r: Result<(), E>,
) -> bool {
    &&& after is Some
    &&& match r {
        Ok(()) => closure.ensures((before->0,), Ok(after->0)),
        Err(e) => {
            &&& closure.ensures((before->0,), Err(e))
            &&& recover.ensures((), after->0)
        },
    }
}

/// Replaces the value in `mut_ref` with what `closure` makes of it.
///
/// The closure owns the old value: it may drop it, move it or consume it.
pub fn take<T, F: FnOnce(T) -> T>(mut_ref: &mut Slot<T>, closure: F)
    requires
        old(mut_ref)@ is Some,
        closure.requires((old(mut_ref)@->0,)),
    ensures
        took(closure, old(mut_ref)@, final(mut_ref)@),
{
    let old_t = mut_ref.move_out();
    let new_t = closure(old_t);
    mut_ref.move_in(new_t);
}

/// Like [`take`], for a computation that may fail.
///
/// When `closure` returns `Err(e)`, the slot is repaired with the value that
/// `recover` produces and `Err(e)` is handed back to the caller: the failure
/// is passed on, never swallowed, and the slot still holds a value.
pub fn take_or_recover<T, E, F, R>(mut_ref: &mut Slot<T>, recover: R, closure: F) -> (r: Result<(), E>)
    where
        F: FnOnce(T) -> Result<T, E>,
        R: FnOnce() -> T,
    requires
        old(mut_ref)@ is Some,
        closure.requires((old(mut_ref)@->0,)),
        recover.requires(()),
    ensures
        took_or_recovered(closure, recover, old(mut_ref)@, final(mut_ref)@, r),
{
    let old_t = mut_ref.move_out();
    match closure(old_t) {
        Ok(new_t) => {
            mut_ref.move_in(new_t);
            Ok(())
        },
        Err(e) => {
            let r = recover();
            mut_ref.move_in(r);
            Err(e)
        },
    }
}

} // verus!

verus! {

/// A take whose computation hands its argument back leaves the slot holding
/// the value it held.
pub proof fn lemma_take_identity<T, F: FnOnce(T) -> T>(closure: F, before: Option<T>, after: Option<T>)
    requires
        before is Some,
        forall|x: T, y: T| #[trigger] closure.ensures((x,), y) ==> y == x,
        took(closure, before, after),
    ensures
        after == before,
{
    assert(closure.ensures((before->0,), after->0));
}

/// A take whose computation always returns `w` leaves the slot holding `w`,
/// whatever it held.
pub proof fn lemma_take_replaces<T, F: FnOnce(T) -> T>(closure: F, w: T, before: Option<T>, after: Option<T>)
    requires
        before is Some,
        forall|x: T, y: T| #[trigger] closure.ensures((x,), y) ==> y == w,
        took(closure, before, after),
    ensures
        after == Some(w),
{
    assert(closure.ensures((before->0,), after->0));
}

/// When the computation of a take-or-recover fails, the failure reaches the
/// caller and the slot holds the recovery value: with a producer that always
/// returns `w`, the slot holds `w`.
pub proof fn lemma_recover_on_failure<T, E, F: FnOnce(T) -> Result<T, E>, R: FnOnce() -> T>(
    closure: F,
    recover: R,
    w: T,
    before: Option<T>,
    after: Option<T>,
    r: Result<(), E>,
)
    requires
        before is Some,
        forall|x: T, y: Result<T, E>| #[trigger] closure.ensures((x,), y) ==> y is Err,
        forall|y: T| #[trigger] recover.ensures((), y) ==> y == w,
        took_or_recovered(closure, recover, before, after, r),
    ensures
        r is Err,
        after == Some(w),
{
    if r is Ok {
        assert(closure.ensures((before->0,), Ok(after->0)));
    } else {
        assert(recover.ensures((), after->0));
    }
}

} // verus!
