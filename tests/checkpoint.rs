use std::ops::ControlFlow;

use sjlj2::{catch_long_jump, establish_checkpoint, long_jump, route_outcome, JumpPoint, LongJump};

#[test]
fn payload_round_trip() {
    for v in [0usize, 1, 7, 99, 1 << 20, usize::MAX - 1, usize::MAX] {
        let r = establish_checkpoint(|cp| ControlFlow::Break(long_jump(cp, v)), |v2| v2);
        assert_eq!(r, v);
        let c = catch_long_jump(|cp| ControlFlow::<_, u8>::Break(cp.long_jump(v)));
        assert_eq!(c, ControlFlow::Break(v));
    }
}

#[test]
fn zero_payload_is_a_jump() {
    let c = catch_long_jump(|cp| ControlFlow::<_, usize>::Break(cp.long_jump(0)));
    assert_eq!(c, ControlFlow::Break(0));
    assert!(c.is_break());
}

#[test]
fn no_jump_passes_through() {
    let t = String::from("unchanged");
    let r = establish_checkpoint(|_| ControlFlow::Continue(t.clone()), |_| unreachable!());
    assert_eq!(r, "unchanged");
    let c = catch_long_jump(|_| ControlFlow::Continue(vec![1u8, 2, 3]));
    assert_eq!(c, ControlFlow::Continue(vec![1u8, 2, 3]));
    let c = catch_long_jump(|_| ControlFlow::Continue(()));
    assert!(c.is_continue());
}

#[test]
fn write_before_jump_is_seen_by_lander() {
    let mut x = 42;
    let r = establish_checkpoint(
        |cp| {
            x = 13;
            ControlFlow::Break(cp.long_jump(99))
        },
        |v| v,
    );
    assert_eq!(x, 13);
    assert_eq!(r, 99);
}

#[test]
fn write_before_jump_is_seen_after_many_runs() {
    for i in 0..1000usize {
        let mut x = 42usize;
        let r = catch_long_jump(|cp| {
            x = i;
            ControlFlow::<_, ()>::Break(cp.long_jump(i + 1))
        });
        assert_eq!(r, ControlFlow::Break(i + 1));
        assert_eq!(x, i);
    }
}

#[test]
fn nested_jump_to_outer_skips_inner_lander() {
    let mut inner_landed = false;
    let mut outer_landed_with = None;
    let r = establish_checkpoint(
        |a| {
            let j = establish_checkpoint(
                |_b| ControlFlow::Continue(a.long_jump(42)),
                |_| {
                    inner_landed = true;
                    a.long_jump(0)
                },
            );
            ControlFlow::Break(j)
        },
        |v| {
            outer_landed_with = Some(v);
            v
        },
    );
    assert_eq!(r, 42);
    assert_eq!(outer_landed_with, Some(42));
    assert!(!inner_landed);
}

#[test]
fn nested_jump_to_inner_lands_there() {
    let r = catch_long_jump(|_a| {
        let inner = catch_long_jump(|b| ControlFlow::<_, u32>::Break(b.long_jump(5)));
        ControlFlow::Continue(inner)
    });
    assert_eq!(r, ControlFlow::Continue(ControlFlow::Break(5)));
}

fn deep(a: JumpPoint<'_>, depth: u32) -> LongJump<'_> {
    if depth == 0 {
        a.long_jump(usize::MAX)
    } else {
        let r = catch_long_jump(|_| ControlFlow::Continue(deep(a, depth - 1)));
        match r {
            ControlFlow::Continue(j) => j,
            ControlFlow::Break(_) => unreachable!(),
        }
    }
}

#[test]
fn jump_through_many_levels() {
    let r = catch_long_jump(|a| ControlFlow::<_, ()>::Break(deep(a, 16)));
    assert_eq!(r, ControlFlow::Break(usize::MAX));
}

#[test]
fn raw_word_round_trip() {
    for w in [0usize, 1, 0x1000, usize::MAX] {
        let jp: JumpPoint<'_> = JumpPoint::from_raw(w);
        assert_eq!(jp.as_raw(), w);
        let again = JumpPoint::from_raw(jp.as_raw());
        assert_eq!(again.as_raw(), w);
    }
}

#[test]
fn jump_keeps_payload() {
    let jp: JumpPoint<'_> = JumpPoint::from_raw(8);
    assert_eq!(jp.long_jump(17).data(), 17);
    assert_eq!(long_jump(jp, 0).data(), 0);
}

#[test]
fn route_landed_payload() {
    assert_eq!(route_outcome::<u32>(Some(5), None), ControlFlow::Break(5));
    assert_eq!(route_outcome::<u32>(Some(0), None), ControlFlow::Break(0));
}

#[test]
fn route_returned_value() {
    assert_eq!(route_outcome(None, Some(7u32)), ControlFlow::Continue(7));
    assert_eq!(
        route_outcome(None, Some(String::from("t"))),
        ControlFlow::Continue(String::from("t"))
    );
}
