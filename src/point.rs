use vstd::prelude::*;

verus! {

/// A jump checkpoint that an ordinary computation can go back to.
///
/// It consists of a single machine word, the form in which a checkpoint is handed
/// across a plain C calling convention, and a brand: the lifetime `'a` is invariant
/// and names one checkpoint, so handles of two nested checkpoints have distinct
/// types. The handle can be neither sent to nor shared with another thread.
#[derive(Debug, Clone, Copy)]
pub struct JumpPoint<'a> {
    raw: usize,
    // `&'a mut &'a ()` keeps `'a` invariant; `Rc` takes away `Send` and `Sync`.
    brand: core::marker::PhantomData<std::rc::Rc<&'a mut &'a ()>>,
}

impl<'a> View for JumpPoint<'a> {
    type V = usize;

    /// The machine word of the handle.
    closed spec fn view(&self) -> usize {
        self.raw
    }
}

/// A jump in flight: the checkpoint it is aimed at and the payload it carries.
///
/// A value of this type can only be produced by [`JumpPoint::long_jump`] or
/// [`long_jump`], and it is handed back as the `Break` of the ordinary computation
/// whose checkpoint it targets.
#[derive(Debug)]
pub struct LongJump<'a> {
    target: JumpPoint<'a>,
    data: usize,
}

impl<'a> LongJump<'a> {
    /// The checkpoint that the jump transfers control to.
    pub closed spec fn target(self) -> JumpPoint<'a> {
        self.target
    }

    /// The payload that the checkpoint's lander receives.
    pub closed spec fn payload(self) -> usize {
        self.data
    }

    /// The payload of the jump.
    pub fn data(&self) -> (r: usize)
        ensures
            r == self.payload(),
    {
        self.data
    }
}

impl<'a> JumpPoint<'a> {
    /// Rebuilds a handle from the word that [`JumpPoint::as_raw`] gave.
    ///
    /// The brand `'a` must be that of the checkpoint the word was taken from: a
    /// jump is routed by its brand, and the word is what an engine that keeps the
    /// checkpoint in machine registers reads back.
    pub fn from_raw(raw: usize) -> (r: JumpPoint<'a>)
        ensures
            r@ == raw,
    {
        JumpPoint { raw, brand: core::marker::PhantomData }
    }

    /// The underlying machine word.
    #[must_use]
    pub fn as_raw(self) -> (r: usize)
        ensures
            r == self@,
    {
        self.raw
    }

    /// Alias of [`long_jump`].
    pub fn long_jump(self, data: usize) -> (r: LongJump<'a>)
        ensures
            r.target() == self,
            r.payload() == data,
    {
        long_jump(self, data)
    }
}

/// Requests a jump to the checkpoint `point`, carrying `data`.
///
/// Zero is a payload like any other: a jump with `0` makes the checkpoint report
/// `Break(0)`. The jump takes effect when the ordinary computation of `point`
/// returns it as its `Break`; every frame in between hands it on untouched.
pub fn long_jump<'a>(point: JumpPoint<'a>, data: usize) -> (r: LongJump<'a>)
    ensures
        r.target() == point,
        r.payload() == data,
{
    LongJump { target: point, data }
}

} // verus!
