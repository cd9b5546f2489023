use std::cell::Cell;
use std::rc::Rc;

use take_mut::{
    abort_on_panic, exit_on_panic, scope, take, take_multi_2, take_multi_3, take_multi_4,
    take_multi_5, take_or_recover, AbortOnSuddenDrop, ExitOnSuddenDrop, Slot, UnfilledHoles,
};

/// Counts how many times values of this type are dropped.
struct Counted {
    id: u32,
    drops: Rc<Cell<u32>>,
}

impl Drop for Counted {
    fn drop(&mut self) {
        self.drops.set(self.drops.get() + 1);
    }
}

#[test]
fn identity_take_keeps_value() {
    let mut slot = Slot::new(vec![1u8, 2, 3]);
    take(&mut slot, |v| v);
    assert_eq!(slot.get(), &vec![1u8, 2, 3]);
}

#[test]
fn constant_take_replaces_and_drops_old_once() {
    let old_drops = Rc::new(Cell::new(0));
    let new_drops = Rc::new(Cell::new(0));
    let mut slot = Slot::new(Counted { id: 1, drops: old_drops.clone() });
    let w = Counted { id: 2, drops: new_drops.clone() };
    take(&mut slot, move |_| w);
    assert_eq!(slot.get().id, 2);
    assert_eq!(old_drops.get(), 1);
    assert_eq!(new_drops.get(), 0);
}

#[test]
fn take_moves_old_value_into_computation() {
    let mut slot = Slot::new(String::from("ab"));
    take(&mut slot, |mut s| {
        s.push('c');
        s
    });
    assert_eq!(slot.into_inner(), "abc");
}

#[test]
fn recover_on_failure_installs_fallback_and_reports() {
    let mut slot = Slot::new(10u32);
    let r: Result<(), String> = take_or_recover(&mut slot, || 99, |_| Err(String::from("bad")));
    assert_eq!(r, Err(String::from("bad")));
    assert_eq!(*slot.get(), 99);
}

#[test]
fn recover_not_called_on_success() {
    let called = Cell::new(false);
    let mut slot = Slot::new(10u32);
    let r: Result<(), ()> = take_or_recover(
        &mut slot,
        || {
            called.set(true);
            0
        },
        |x| Ok(x * 2),
    );
    assert_eq!(r, Ok(()));
    assert_eq!(*slot.get(), 20);
    assert!(!called.get());
}

#[test]
fn scope_with_all_holes_filled_returns_body_result() {
    let mut a = Slot::new(1u32);
    let mut b = Slot::new(String::from("x"));
    let r = scope(|s| {
        let (x, ha) = s.take(&mut a);
        let (y, hb) = s.take(&mut b);
        hb.fill(s, format!("{}{}", y, x));
        ha.fill(s, x + 1);
        7u8
    });
    assert_eq!(r, Ok(7));
    assert_eq!(*a.get(), 2);
    assert_eq!(b.get(), "x1");
}

#[test]
fn scope_with_unfilled_hole_reports_it() {
    let mut a = Slot::new(1u32);
    let mut b = Slot::new(2u32);
    let r = scope(|s| {
        let (x, ha) = s.take(&mut a);
        let (_y, hb) = s.take(&mut b);
        ha.fill(s, x);
        drop(hb);
    });
    assert_eq!(r, Err(UnfilledHoles { count: 1 }));
    assert_eq!(*a.get(), 1);
    assert!(!b.is_filled());
}

#[test]
fn scope_counts_every_unfilled_hole() {
    let mut a = Slot::new(1u32);
    let mut b = Slot::new(2u32);
    let r = scope(|s| {
        let (_x, ha) = s.take(&mut a);
        let (_y, hb) = s.take(&mut b);
        drop((ha, hb));
        3u8
    });
    assert_eq!(r, Err(UnfilledHoles { count: 2 }));
    assert!(!a.is_filled());
    assert!(!b.is_filled());
}

#[test]
fn scope_recovers_hole_with_bound_producer() {
    let mut a = Slot::new(1u32);
    let mut b = Slot::new(2u32);
    let r = scope(|s| {
        let (x, ha) = s.take(&mut a);
        let (_y, hb) = s.take_and_recover(&mut b, || 40);
        ha.fill(s, x + 10);
        hb.recover(s);
    });
    assert_eq!(r, Ok(()));
    assert_eq!(*a.get(), 11);
    assert_eq!(*b.get(), 40);
}

#[test]
fn scope_hole_with_recovery_can_still_be_filled() {
    let mut a = Slot::new(1u32);
    let r = scope(|s| {
        let (x, ha) = s.take_and_recover(&mut a, || 0);
        ha.fill(s, x + 5);
    });
    assert_eq!(r, Ok(()));
    assert_eq!(*a.get(), 6);
}

#[test]
fn multi_take_two_matches_nested_takes() {
    let mut a = Slot::new(3u32);
    let mut b = Slot::new(String::from("q"));
    take_multi_2(&mut a, &mut b, |x, y| (x * 2, format!("{}{}", y, y)));

    let mut c = Slot::new(3u32);
    let mut d = Slot::new(String::from("q"));
    take(&mut c, |x| {
        take(&mut d, |y| format!("{}{}", y, y));
        x * 2
    });
    assert_eq!(a.get(), c.get());
    assert_eq!(b.get(), d.get());
    assert_eq!(*a.get(), 6);
    assert_eq!(b.get(), "qq");
}

#[test]
fn multi_take_swaps_values() {
    let mut a = Slot::new(1u8);
    let mut b = Slot::new(2u8);
    take_multi_2(&mut a, &mut b, |x, y| (y, x));
    assert_eq!((*a.get(), *b.get()), (2, 1));
}

#[test]
fn multi_take_three_to_five() {
    let mut a = Slot::new(1u8);
    let mut b = Slot::new(2u16);
    let mut c = Slot::new(3u32);
    let mut d = Slot::new(4u64);
    let mut e = Slot::new(String::from("e"));
    take_multi_3(&mut a, &mut b, &mut c, |x, y, z| (x + 1, y + 1, z + 1));
    assert_eq!((*a.get(), *b.get(), *c.get()), (2, 3, 4));
    take_multi_4(&mut a, &mut b, &mut c, &mut d, |x, y, z, w| (x * 2, y * 2, z * 2, w * 2));
    assert_eq!((*a.get(), *b.get(), *c.get(), *d.get()), (4, 6, 8, 8));
    take_multi_5(&mut a, &mut b, &mut c, &mut d, &mut e, |x, y, z, w, v| {
        (x, y, z, w + 1, format!("{}!", v))
    });
    assert_eq!((*a.get(), *b.get(), *c.get(), *d.get()), (4, 6, 8, 9));
    assert_eq!(e.get(), "e!");
}

#[test]
fn guards_return_the_call_result() {
    assert_eq!(abort_on_panic(|| 3 + 4), 7);
    assert_eq!(exit_on_panic(|| String::from("done")), "done");
    AbortOnSuddenDrop::new().done();
    ExitOnSuddenDrop::new().done();
}
