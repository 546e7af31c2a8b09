//! Binding of a widget to the storage of the value it edits.
//!
//! A widget does not own its value: it is handed a callable that answers an
//! [`Operation`], returning the current value for a read and taking the new
//! one for a write.
use vstd::prelude::*;

use crate::util::get_set::Operation;

verus! {

/// Reads the current value through `operator`.
pub fn get<T, GetSet>(operator: &mut GetSet) -> (r: T) where
    GetSet: FnMut(Operation<T>) -> T,

    requires
        call_requires(*old(operator), (Operation::Get,)),
    ensures
        call_ensures(*old(operator), (Operation::Get,), r),
{
    operator(Operation::Get)
}

/// Writes `value` through `operator`; what it answers is dropped.
pub fn set<T, GetSet>(operator: &mut GetSet, value: T) where
    GetSet: FnMut(Operation<T>) -> T,

    requires
        call_requires(*old(operator), (Operation::Put(value),)),
    ensures
        exists|out: T| call_ensures(*old(operator), (Operation::Put(value),), out),
{
    operator(Operation::Put(value));
}

/// What a slider does in one frame about the edit gesture that it reports to
/// the host: whether it opens one, whether it closes one, and whether one is
/// open once the frame is done.
#[derive(Clone, Copy, Debug, PartialEq, Eq)]
pub struct GestureStep {
    pub begin: bool,
    pub end: bool,
    pub open: bool,
}

/// The slider's gesture rule for one frame. `open` says whether a gesture is
/// open from an earlier frame, `pressed` whether the pointer drags the slider
/// in this frame, `released` whether the primary button was let go in this
/// frame. A gesture opens on the first frame of a drag and closes on the
/// release that ends it, so openings and closings alternate.
pub fn slider_gesture(open: bool, pressed: bool, released: bool) -> (r: GestureStep)
    ensures
        r.begin == (pressed && !open),
        r.end == (released && (open || pressed)),
        r.open == ((open || pressed) && !released),
        r.begin ==> !open,
        r.end ==> open || r.begin,
{
    let begin = pressed && !open;
    let active = open || pressed;
    GestureStep { begin, end: released && active, open: active && !released }
}

} // verus!
