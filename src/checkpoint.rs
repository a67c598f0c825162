use vstd::prelude::*;

use crate::point::{JumpPoint, LongJump};
use core::ops::ControlFlow;

verus! {

/// What a checkpoint reports for the outcome `o` of its ordinary computation:
/// a normal return passes through, a jump lands with its payload.
pub open spec fn landing<'a, T>(o: ControlFlow<LongJump<'a>, T>) -> ControlFlow<usize, T> {
    match o {
        ControlFlow::Continue(t) => ControlFlow::Continue(t),
        ControlFlow::Break(j) => ControlFlow::Break(j.payload()),
    }
}

/// `r` is what `catch_long_jump(f)` may return: the landing of some outcome of `f`
/// on the handle of the checkpoint.
pub open spec fn caught<T, F>(f: F, r: ControlFlow<usize, T>) -> bool
    where
        F: for <'a> FnOnce(JumpPoint<'a>) -> ControlFlow<LongJump<'a>, T>,
{
    exists|jp: JumpPoint, o: ControlFlow<LongJump, T>| f.ensures((jp,), o) && r == landing(o)
}

/// `r` is what `establish_checkpoint(ordinary, lander)` may return: the value of a
/// normal return of `ordinary`, or, where `ordinary` jumped, what `lander` returns
/// on the jump's payload.
pub open spec fn settled<T, F, L>(ordinary: F, lander: L, r: T) -> bool
    where
        F: for <'a> FnOnce(JumpPoint<'a>) -> ControlFlow<LongJump<'a>, T>,
        L: FnOnce(usize) -> T,
{
    exists|jp: JumpPoint, o: ControlFlow<LongJump, T>|
        ordinary.ensures((jp,), o) && match o {
            ControlFlow::Continue(t) => r == t,
            ControlFlow::Break(j) => lander.ensures((j.payload(),), r),
        }
}

/// Invokes `f` with a jump checkpoint.
///
/// Returns `Continue` with the value of `f` if `f` returns normally. If `f` jumps to
/// the checkpoint, that is, returns `Break` with a jump made from its argument,
/// `Break` is returned with the jump's payload.
///
/// Checkpoints nest: inside `f` another checkpoint may be established, and a jump
/// aimed at this one passes through the inner one as that one's normal result,
/// without landing there.
pub fn catch_long_jump<T, F>(f: F) -> (r: ControlFlow<usize, T>)
    where
        F: for <'a> FnOnce(JumpPoint<'a>) -> ControlFlow<LongJump<'a>, T>,
    requires
        forall|jp: JumpPoint| f.requires((jp,)),
    ensures
        caught(f, r),
{
    // The checkpoint keeps no machine state, so its handle carries the word zero.
    let jp = JumpPoint::from_raw(0);
    let o = f(jp);
    match o {
        ControlFlow::Continue(t) => ControlFlow::Continue(t),
        ControlFlow::Break(j) => ControlFlow::Break(j.data()),
    }
}

/// Invokes `ordinary` with a jump checkpoint, and `lander` on the payload if
/// `ordinary` jumped to it.
///
/// The value of a normal return of `ordinary` is returned unchanged; after a jump,
/// what `lander` returns. `lander` runs at most once, and only after a jump.
pub fn establish_checkpoint<T, F, L>(ordinary: F, lander: L) -> (r: T)
    where
        F: for <'a> FnOnce(JumpPoint<'a>) -> ControlFlow<LongJump<'a>, T>,
        L: FnOnce(usize) -> T,
    requires
        forall|jp: JumpPoint| ordinary.requires((jp,)),
        forall|v: usize| lander.requires((v,)),
    ensures
        settled(ordinary, lander, r),
{
    match catch_long_jump(ordinary) {
        ControlFlow::Continue(t) => t,
        ControlFlow::Break(v) => lander(v),
    }
}

/// Routes the result of a checkpoint whose ordinary computation ran at machine
/// level, with its value and a jump's payload kept apart.
///
/// `landed` holds the payload if a jump landed, and `slot` the value if the
/// computation returned normally; exactly one of the two is ever produced.
pub fn route_outcome<T>(landed: Option<usize>, slot: Option<T>) -> (r: ControlFlow<usize, T>)
    requires
        landed is Some <==> slot is None,
    ensures
        match landed {
            Some(v) => r == ControlFlow::<usize, T>::Break(v),
            None => r == ControlFlow::<usize, T>::Continue(slot->Some_0),
        },
{
    match landed {
        Some(v) => ControlFlow::Break(v),
        None => ControlFlow::Continue(slot.unwrap()),
    }
}

} // verus!
