use vstd::prelude::*;

use crate::checkpoint::{caught, landing, settled};
use crate::point::{JumpPoint, LongJump};
use core::ops::ControlFlow;

verus! {

/// A payload comes back unchanged through a jump: where the ordinary computation
/// jumps to its own checkpoint with `v` and the lander returns what it receives,
/// the two-closure form returns `v` and the explicit form reports `Break(v)`.
pub proof fn law_payload_round_trip<F, L>(ordinary: F, lander: L, v: usize)
    where
        F: for <'a> FnOnce(JumpPoint<'a>) -> ControlFlow<LongJump<'a>, usize>,
        L: FnOnce(usize) -> usize,
    requires
        forall|jp: JumpPoint, o: ControlFlow<LongJump, usize>|
            #[trigger] ordinary.ensures((jp,), o) ==> (o matches ControlFlow::Break(b) && b.target()
                == jp && b.payload() == v),
        forall|x: usize, y: usize| #[trigger] lander.ensures((x,), y) ==> y == x,
    ensures
        forall|r: usize| #[trigger] settled(ordinary, lander, r) ==> r == v,
        forall|c: ControlFlow<usize, usize>|
            #[trigger] caught(ordinary, c) ==> c == ControlFlow::<usize, usize>::Break(v),
{
}

/// Without a jump the ordinary path is a pure pass-through: where the ordinary
/// computation returns `t`, the two-closure form returns `t`, whatever the lander,
/// and the explicit form reports `Continue(t)`.
pub proof fn law_no_jump_passes_through<T, F, L>(ordinary: F, lander: L, t: T)
    where
        F: for <'a> FnOnce(JumpPoint<'a>) -> ControlFlow<LongJump<'a>, T>,
        L: FnOnce(usize) -> T,
    requires
        forall|jp: JumpPoint, o: ControlFlow<LongJump, T>|
            #[trigger] ordinary.ensures((jp,), o) ==> o == ControlFlow::<LongJump, T>::Continue(t),
    ensures
        forall|r: T| #[trigger] settled(ordinary, lander, r) ==> r == t,
        forall|c: ControlFlow<usize, T>|
            #[trigger] caught(ordinary, c) ==> c == ControlFlow::<usize, T>::Continue(t),
{
}

/// A jump aimed at an outer checkpoint passes through an inner one without landing
/// there: where the inner ordinary computation hands on the outer's jump `j`, the
/// inner checkpoint returns `j` itself, so the inner lander never runs, and the
/// outer checkpoint then lands with the payload of `j`.
pub proof fn law_outer_jump_skips_inner<'a, G, L>(inner: G, inner_lander: L, j: LongJump<'a>)
    where
        G: for <'b> FnOnce(JumpPoint<'b>) -> ControlFlow<LongJump<'b>, LongJump<'a>>,
        L: FnOnce(usize) -> LongJump<'a>,
    requires
        forall|jp: JumpPoint, o: ControlFlow<LongJump, LongJump<'a>>|
            #[trigger] inner.ensures((jp,), o) ==> o == ControlFlow::<LongJump, LongJump<'a>>::Continue(j),
    ensures
        forall|r: LongJump<'a>| #[trigger] settled(inner, inner_lander, r) ==> {
            &&& r == j
            &&& landing(ControlFlow::<LongJump<'a>, usize>::Break(r))
                == ControlFlow::<usize, usize>::Break(j.payload())
        },
        forall|c: ControlFlow<usize, LongJump<'a>>|
            #[trigger] caught(inner, c) ==> c == ControlFlow::<usize, LongJump<'a>>::Continue(j),
{
}

} // verus!
