use vstd::prelude::*;

use crate::slot::Slot;
use crate::took;

verus! {

/// Each pair is what one of two slots held before and after a multi-slot
/// take with `f`: every slot holds a value after, and together they are one
/// outcome of `f` on the values they held before.
pub open spec fn took_2<T1, T2, F: FnOnce(T1, T2) -> (T1, T2)>(
    f: F,
    a: (Option<T1>, Option<T1>),
    b: (Option<T2>, Option<T2>),
) -> bool {
    &&& a.1 is Some
    &&& b.1 is Some
    &&& f.ensures((a.0->0, b.0->0), (a.1->0, b.1->0))
}

/// Replaces the values of two slots at once with what `f` makes of them,
/// as two nested single-slot takes would: the first slot is taken first and
/// refilled last.
pub fn take_multi_2<T1, T2, F: FnOnce(T1, T2) -> (T1, T2)>(a: &mut Slot<T1>, b: &mut Slot<T2>, f: F)
    requires
        old(a)@ is Some,
        old(b)@ is Some,
        f.requires((old(a)@->0, old(b)@->0)),
    ensures
        took_2(f, (old(a)@, final(a)@), (old(b)@, final(b)@)),
{
    let a_old = a.move_out();
    let b_old = b.move_out();
    let (a_new, b_new) = f(a_old, b_old);
    b.move_in(b_new);
    a.move_in(a_new);
}

/// When `f` acts on each slot on its own, as `f1` and `f2` do, a
/// take of two slots has exactly the outcomes of two single-slot takes with
/// those computations.
pub proof fn lemma_multi_2_is_nested<
    T1,
    T2,
    F: FnOnce(T1, T2) -> (T1, T2),
    F1: FnOnce(T1) -> T1,
    F2: FnOnce(T2) -> T2,
>(
    f: F,
    f1: F1,
    f2: F2,
    a: (Option<T1>, Option<T1>),
    b: (Option<T2>, Option<T2>),
)
    requires
        a.0 is Some,
        b.0 is Some,
        forall|x1: T1, x2: T2, y1: T1, y2: T2|
            #[trigger] f.ensures((x1, x2), (y1, y2)) <==> f1.ensures((x1,), y1) && f2.ensures((x2,), y2),
    ensures
        took_2(f, a, b) <==> {
        &&& took(f1, a.0, a.1)
        &&& took(f2, b.0, b.1)
        },
{
    assert(f.ensures((a.0->0, b.0->0), (a.1->0, b.1->0)) <==> f1.ensures((a.0->0,), a.1->0) && f2.ensures((b.0->0,), b.1->0));
}

/// Each pair is what one of three slots held before and after a multi-slot
/// take with `f`: every slot holds a value after, and together they are one
/// outcome of `f` on the values they held before.
pub open spec fn took_3<T1, T2, T3, F: FnOnce(T1, T2, T3) -> (T1, T2, T3)>(
    f: F,
    a: (Option<T1>, Option<T1>),
    b: (Option<T2>, Option<T2>),
    c: (Option<T3>, Option<T3>),
) -> bool {
    &&& a.1 is Some
    &&& b.1 is Some
    &&& c.1 is Some
    &&& f.ensures((a.0->0, b.0->0, c.0->0), (a.1->0, b.1->0, c.1->0))
}

/// Replaces the values of three slots at once with what `f` makes of them,
/// as three nested single-slot takes would: the first slot is taken first and
/// refilled last.
pub fn take_multi_3<T1, T2, T3, F: FnOnce(T1, T2, T3) -> (T1, T2, T3)>(a: &mut Slot<T1>, b: &mut Slot<T2>, c: &mut Slot<T3>, f: F)
    requires
        old(a)@ is Some,
        old(b)@ is Some,
        old(c)@ is Some,
        f.requires((old(a)@->0, old(b)@->0, old(c)@->0)),
    ensures
        took_3(f, (old(a)@, final(a)@), (old(b)@, final(b)@), (old(c)@, final(c)@)),
{
    let a_old = a.move_out();
    let b_old = b.move_out();
    let c_old = c.move_out();
    let (a_new, b_new, c_new) = f(a_old, b_old, c_old);
    c.move_in(c_new);
    b.move_in(b_new);
    a.move_in(a_new);
}

/// When `f` acts on each slot on its own, as `f1` to `f3` do, a
/// take of three slots has exactly the outcomes of three single-slot takes with
/// those computations.
pub proof fn lemma_multi_3_is_nested<
    T1,
    T2,
    T3,
    F: FnOnce(T1, T2, T3) -> (T1, T2, T3),
    F1: FnOnce(T1) -> T1,
    F2: FnOnce(T2) -> T2,
    F3: FnOnce(T3) -> T3,
>(
    f: F,
    f1: F1,
    f2: F2,
    f3: F3,
    a: (Option<T1>, Option<T1>),
    b: (Option<T2>, Option<T2>),
    c: (Option<T3>, Option<T3>),
)
    requires
        a.0 is Some,
        b.0 is Some,
        c.0 is Some,
        forall|x1: T1, x2: T2, x3: T3, y1: T1, y2: T2, y3: T3|
            #[trigger] f.ensures((x1, x2, x3), (y1, y2, y3)) <==> f1.ensures((x1,), y1) && f2.ensures((x2,), y2) && f3.ensures((x3,), y3),
    ensures
        took_3(f, a, b, c) <==> {
        &&& took(f1, a.0, a.1)
        &&& took(f2, b.0, b.1)
        &&& took(f3, c.0, c.1)
        },
{
    assert(f.ensures((a.0->0, b.0->0, c.0->0), (a.1->0, b.1->0, c.1->0)) <==> f1.ensures((a.0->0,), a.1->0) && f2.ensures((b.0->0,), b.1->0) && f3.ensures((c.0->0,), c.1->0));
}

/// Each pair is what one of four slots held before and after a multi-slot
/// take with `f`: every slot holds a value after, and together they are one
/// outcome of `f` on the values they held before.
pub open spec fn took_4<T1, T2, T3, T4, F: FnOnce(T1, T2, T3, T4) -> (T1, T2, T3, T4)>(
    f: F,
    a: (Option<T1>, Option<T1>),
    b: (Option<T2>, Option<T2>),
    c: (Option<T3>, Option<T3>),
    d: (Option<T4>, Option<T4>),
) -> bool {
    &&& a.1 is Some
    &&& b.1 is Some
    &&& c.1 is Some
    &&& d.1 is Some
    &&& f.ensures((a.0->0, b.0->0, c.0->0, d.0->0), (a.1->0, b.1->0, c.1->0, d.1->0))
}

/// Replaces the values of four slots at once with what `f` makes of them,
/// as four nested single-slot takes would: the first slot is taken first and
/// refilled last.
pub fn take_multi_4<T1, T2, T3, T4, F: FnOnce(T1, T2, T3, T4) -> (T1, T2, T3, T4)>(a: &mut Slot<T1>, b: &mut Slot<T2>, c: &mut Slot<T3>, d: &mut Slot<T4>, f: F)
    requires
        old(a)@ is Some,
        old(b)@ is Some,
        old(c)@ is Some,
        old(d)@ is Some,
        f.requires((old(a)@->0, old(b)@->0, old(c)@->0, old(d)@->0)),
    ensures
        took_4(f, (old(a)@, final(a)@), (old(b)@, final(b)@), (old(c)@, final(c)@), (old(d)@, final(d)@)),
{
    let a_old = a.move_out();
    let b_old = b.move_out();
    let c_old = c.move_out();
    let d_old = d.move_out();
    let (a_new, b_new, c_new, d_new) = f(a_old, b_old, c_old, d_old);
    d.move_in(d_new);
    c.move_in(c_new);
    b.move_in(b_new);
    a.move_in(a_new);
}

/// When `f` acts on each slot on its own, as `f1` to `f4` do, a
/// take of four slots has exactly the outcomes of four single-slot takes with
/// those computations.
pub proof fn lemma_multi_4_is_nested<
    T1,
    T2,
    T3,
    T4,
    F: FnOnce(T1, T2, T3, T4) -> (T1, T2, T3, T4),
    F1: FnOnce(T1) -> T1,
    F2: FnOnce(T2) -> T2,
    F3: FnOnce(T3) -> T3,
    F4: FnOnce(T4) -> T4,
>(
    f: F,
    f1: F1,
    f2: F2,
    f3: F3,
    f4: F4,
    a: (Option<T1>, Option<T1>),
    b: (Option<T2>, Option<T2>),
    c: (Option<T3>, Option<T3>),
    d: (Option<T4>, Option<T4>),
)
    requires
        a.0 is Some,
        b.0 is Some,
        c.0 is Some,
        d.0 is Some,
        forall|x1: T1, x2: T2, x3: T3, x4: T4, y1: T1, y2: T2, y3: T3, y4: T4|
            #[trigger] f.ensures((x1, x2, x3, x4), (y1, y2, y3, y4)) <==> f1.ensures((x1,), y1) && f2.ensures((x2,), y2) && f3.ensures((x3,), y3) && f4.ensures((x4,), y4),
    ensures
        took_4(f, a, b, c, d) <==> {
        &&& took(f1, a.0, a.1)
        &&& took(f2, b.0, b.1)
        &&& took(f3, c.0, c.1)
        &&& took(f4, d.0, d.1)
        },
{
    assert(f.ensures((a.0->0, b.0->0, c.0->0, d.0->0), (a.1->0, b.1->0, c.1->0, d.1->0)) <==> f1.ensures((a.0->0,), a.1->0) && f2.ensures((b.0->0,), b.1->0) && f3.ensures((c.0->0,), c.1->0) && f4.ensures((d.0->0,), d.1->0));
}

/// Each pair is what one of five slots held before and after a multi-slot
/// take with `f`: every slot holds a value after, and together they are one
/// outcome of `f` on the values they held before.
pub open spec fn took_5<T1, T2, T3, T4, T5, F: FnOnce(T1, T2, T3, T4, T5) -> (T1, T2, T3, T4, T5)>(
    f: F,
    a: (Option<T1>, Option<T1>),
    b: (Option<T2>, Option<T2>),
    c: (Option<T3>, Option<T3>),
    d: (Option<T4>, Option<T4>),
    e: (Option<T5>, Option<T5>),
) -> bool {
    &&& a.1 is Some
    &&& b.1 is Some
    &&& c.1 is Some
    &&& d.1 is Some
    &&& e.1 is Some
    &&& f.ensures((a.0->0, b.0->0, c.0->0, d.0->0, e.0->0), (a.1->0, b.1->0, c.1->0, d.1->0, e.1->0))
}

/// Replaces the values of five slots at once with what `f` makes of them,
/// as five nested single-slot takes would: the first slot is taken first and
/// refilled last.
pub fn take_multi_5<T1, T2, T3, T4, T5, F: FnOnce(T1, T2, T3, T4, T5) -> (T1, T2, T3, T4, T5)>(a: &mut Slot<T1>, b: &mut Slot<T2>, c: &mut Slot<T3>, d: &mut Slot<T4>, e: &mut Slot<T5>, f: F)
    requires
        old(a)@ is Some,
        old(b)@ is Some,
        old(c)@ is Some,
        old(d)@ is Some,
        old(e)@ is Some,
        f.requires((old(a)@->0, old(b)@->0, old(c)@->0, old(d)@->0, old(e)@->0)),
    ensures
        took_5(f, (old(a)@, final(a)@), (old(b)@, final(b)@), (old(c)@, final(c)@), (old(d)@, final(d)@), (old(e)@, final(e)@)),
{
    let a_old = a.move_out();
    let b_old = b.move_out();
    let c_old = c.move_out();
    let d_old = d.move_out();
    let e_old = e.move_out();
    let (a_new, b_new, c_new, d_new, e_new) = f(a_old, b_old, c_old, d_old, e_old);
    e.move_in(e_new);
    d.move_in(d_new);
    c.move_in(c_new);
    b.move_in(b_new);
    a.move_in(a_new);
}

/// When `f` acts on each slot on its own, as `f1` to `f5` do, a
/// take of five slots has exactly the outcomes of five single-slot takes with
/// those computations.
pub proof fn lemma_multi_5_is_nested<
    T1,
    T2,
    T3,
    T4,
    T5,
    F: FnOnce(T1, T2, T3, T4, T5) -> (T1, T2, T3, T4, T5),
    F1: FnOnce(T1) -> T1,
    F2: FnOnce(T2) -> T2,
    F3: FnOnce(T3) -> T3,
    F4: FnOnce(T4) -> T4,
    F5: FnOnce(T5) -> T5,
>(
    f: F,
    f1: F1,
    f2: F2,
    f3: F3,
    f4: F4,
    f5: F5,
    a: (Option<T1>, Option<T1>),
    b: (Option<T2>, Option<T2>),
    c: (Option<T3>, Option<T3>),
    d: (Option<T4>, Option<T4>),
    e: (Option<T5>, Option<T5>),
)
    requires
        a.0 is Some,
        b.0 is Some,
        c.0 is Some,
        d.0 is Some,
        e.0 is Some,
        forall|x1: T1, x2: T2, x3: T3, x4: T4, x5: T5, y1: T1, y2: T2, y3: T3, y4: T4, y5: T5|
            #[trigger] f.ensures((x1, x2, x3, x4, x5), (y1, y2, y3, y4, y5)) <==> f1.ensures((x1,), y1) && f2.ensures((x2,), y2) && f3.ensures((x3,), y3) && f4.ensures((x4,), y4) && f5.ensures((x5,), y5),
    ensures
        took_5(f, a, b, c, d, e) <==> {
        &&& took(f1, a.0, a.1)
        &&& took(f2, b.0, b.1)
        &&& took(f3, c.0, c.1)
        &&& took(f4, d.0, d.1)
        &&& took(f5, e.0, e.1)
        },
{
    assert(f.ensures((a.0->0, b.0->0, c.0->0, d.0->0, e.0->0), (a.1->0, b.1->0, c.1->0, d.1->0, e.1->0)) <==> f1.ensures((a.0->0,), a.1->0) && f2.ensures((b.0->0,), b.1->0) && f3.ensures((c.0->0,), c.1->0) && f4.ensures((d.0->0,), d.1->0) && f5.ensures((e.0->0,), e.1->0));
}

} // verus!
