//! The playback state machine, as a pure mathematical transition function.
//!
//! One step advances an animation's cursor through its frame-index range,
//! moves the externally displayed frame index, and compensates the external
//! position by subtracting the old frame's offset and adding the new one,
//! each scaled componentwise. The executable stepping operations promise to
//! realize exactly this transition.

use vstd::prelude::*;

use crate::offsets::Vec2I;

verus! {

/// The abstract state one step acts on: the animation's cursor and flags,
/// the externally displayed frame index, and the external position.
pub struct PlaybackState {
    pub cursor: int,
    pub advanced: bool,
    pub finished: bool,
    pub frame: int,
    pub px: int,
    pub py: int,
}

/// The cursor sits at (or past) the last frame of the range.
pub open spec fn at_end(ir: Seq<usize>, cursor: int) -> bool {
    cursor >= ir.len() - 1
}

/// The cursor after one step: wrap to 0 at the end of a looped range, hold at
/// the end of a non-looped one, hold once on the very first step after
/// activation, and otherwise advance by one.
pub open spec fn step_cursor(ir: Seq<usize>, looped: bool, advanced: bool, cursor: int) -> int {
    if at_end(ir, cursor) {
        if looped {
            0
        } else {
            cursor
        }
    } else {
        if advanced {
            cursor + 1
        } else {
            cursor
        }
    }
}

/// A step of a non-looped animation at the end of its range only marks it
/// finished; everything else is untouched.
pub open spec fn step_is_noop(ir: Seq<usize>, looped: bool, cursor: int) -> bool {
    at_end(ir, cursor) && !looped
}

/// One position component after a subtract-old/add-new compensation.
pub open spec fn comp(p: int, old_off: int, new_off: int, s: int) -> int {
    p - old_off * s + new_off * s
}

/// One step of the playback machine over range `ir` with offset table `offs`
/// and scale `(sx, sy)`.
pub open spec fn spec_step(
    ir: Seq<usize>,
    looped: bool,
    offs: Seq<Vec2I>,
    sx: int,
    sy: int,
    st: PlaybackState,
) -> PlaybackState {
    if step_is_noop(ir, looped, st.cursor) {
        PlaybackState { finished: true, ..st }
    } else {
        let nc = step_cursor(ir, looped, st.advanced, st.cursor);
        let nf = ir[nc] as int;
        PlaybackState {
            cursor: nc,
            advanced: if at_end(ir, st.cursor) {
                st.advanced
            } else {
                true
            },
            finished: st.finished,
            frame: nf,
            px: comp(st.px, offs[st.frame].x as int, offs[nf].x as int, sx),
            py: comp(st.py, offs[st.frame].y as int, offs[nf].y as int, sy),
        }
    }
}

/// `n` consecutive steps.
pub open spec fn spec_step_n(
    ir: Seq<usize>,
    looped: bool,
    offs: Seq<Vec2I>,
    sx: int,
    sy: int,
    st: PlaybackState,
    n: nat,
) -> PlaybackState
    decreases n,
{
    if n == 0 {
        st
    } else {
        spec_step(ir, looped, offs, sx, sy, spec_step_n(ir, looped, offs, sx, sy, st, (n - 1) as nat))
    }
}

/// A value representable as an `i64`.
pub open spec fn in_i64(v: int) -> bool {
    i64::MIN <= v <= i64::MAX
}

/// Every intermediate of `comp(p, a, b, s)`, evaluated left to right, stays
/// representable.
pub open spec fn comp_fits(p: int, a: int, b: int, s: int) -> bool {
    &&& in_i64(a * s)
    &&& in_i64(b * s)
    &&& in_i64(p - a * s)
    &&& in_i64(p - a * s + b * s)
}

/// The machine arithmetic of one step stays representable.
pub open spec fn step_fits(
    ir: Seq<usize>,
    looped: bool,
    offs: Seq<Vec2I>,
    sx: int,
    sy: int,
    st: PlaybackState,
) -> bool {
    step_is_noop(ir, looped, st.cursor) || {
        let nf = ir[step_cursor(ir, looped, st.advanced, st.cursor)] as int;
        &&& comp_fits(st.px, offs[st.frame].x as int, offs[nf].x as int, sx)
        &&& comp_fits(st.py, offs[st.frame].y as int, offs[nf].y as int, sy)
    }
}

/// The machine arithmetic of `n` consecutive steps stays representable.
pub open spec fn steps_fit(
    ir: Seq<usize>,
    looped: bool,
    offs: Seq<Vec2I>,
    sx: int,
    sy: int,
    st: PlaybackState,
    n: nat,
) -> bool
    decreases n,
{
    n == 0 || {
        &&& step_fits(ir, looped, offs, sx, sy, st)
        &&& steps_fit(ir, looped, offs, sx, sy, spec_step(ir, looped, offs, sx, sy, st), (n - 1) as nat)
    }
}

} // verus!
