//! Laws of the playback machine, proved once over the abstract transition
//! function and inherited by every stepping operation through its contract.

use vstd::arithmetic::div_mod::lemma_add_mod_noop;
use vstd::arithmetic::div_mod::lemma_mod_add_multiples_vanish;
use vstd::arithmetic::div_mod::lemma_mod_bound;
use vstd::arithmetic::div_mod::lemma_small_mod;
use vstd::prelude::*;

use crate::engine::spec_advance;
use crate::offsets::Vec2I;
use crate::parse::PartialRec;
use crate::parse::spec_finish;
use crate::playback::PlaybackState;
use crate::playback::comp;
use crate::playback::spec_step;
use crate::playback::spec_step_n;

verus! {

/// A step of a looped animation after its first hold advances the cursor
/// cyclically — next position, wrapping from the last frame to the first,
/// never skipping and never out of order — sets the frame to the range entry
/// at the new cursor, and never finishes the animation.
pub proof fn lemma_looped_step_cycles(
    ir: Seq<usize>,
    offs: Seq<Vec2I>,
    sx: int,
    sy: int,
    st: PlaybackState,
)
    requires
        ir.len() >= 1,
        0 <= st.cursor < ir.len(),
        st.advanced,
    ensures
        ({
            let st2 = spec_step(ir, true, offs, sx, sy, st);
            &&& st2.cursor == (st.cursor + 1) % (ir.len() as int)
            &&& st2.frame == ir[st2.cursor] as int
            &&& st2.advanced
            &&& st2.finished == st.finished
        }),
{
    let len = ir.len() as int;
    if st.cursor >= len - 1 {
        assert(st.cursor == len - 1);
        assert((st.cursor + 1) % len == 0) by (nonlinear_arith)
            requires
                st.cursor + 1 == len,
                len >= 1,
        ;
    } else {
        assert((st.cursor + 1) % len == st.cursor + 1) by (nonlinear_arith)
            requires
                0 <= st.cursor + 1 < len,
        ;
    }
}

/// A step of a non-looped animation whose cursor sits at the end of its
/// range only marks it finished: cursor, frame, and position are unchanged;
/// and stepping again from that state changes nothing but re-asserts the
/// flag, so all further steps are no-ops.
pub proof fn lemma_nonlooped_terminal(
    ir: Seq<usize>,
    offs: Seq<Vec2I>,
    sx: int,
    sy: int,
    st: PlaybackState,
)
    requires
        ir.len() >= 1,
        st.cursor >= ir.len() - 1,
    ensures
        spec_step(ir, false, offs, sx, sy, st) == (PlaybackState { finished: true, ..st }),
        spec_step(ir, false, offs, sx, sy, spec_step(ir, false, offs, sx, sy, st)) == (
        PlaybackState { finished: true, ..st }),
{
}

/// After `k` steps of a looped animation that starts in sync (the displayed
/// frame is the range entry at the cursor, the first hold already taken),
/// the cursor has moved `k` positions around the cycle, the frame is the
/// range entry there, and the whole position change telescopes to the new
/// frame's offset minus the starting frame's offset, scaled.
pub proof fn lemma_loop_cycle_aux(
    ir: Seq<usize>,
    offs: Seq<Vec2I>,
    sx: int,
    sy: int,
    st: PlaybackState,
    k: nat,
)
    requires
        ir.len() >= 1,
        0 <= st.cursor < ir.len(),
        st.advanced,
        st.frame == ir[st.cursor] as int,
    ensures
        ({
            let stk = spec_step_n(ir, true, offs, sx, sy, st, k);
            &&& stk.cursor == (st.cursor + k) % (ir.len() as int)
            &&& stk.frame == ir[stk.cursor] as int
            &&& stk.advanced
            &&& stk.finished == st.finished
            &&& stk.px == st.px - offs[st.frame].x * sx + offs[stk.frame].x * sx
            &&& stk.py == st.py - offs[st.frame].y * sy + offs[stk.frame].y * sy
        }),
    decreases k,
{
    let len = ir.len() as int;
    if k == 0 {
        lemma_small_mod(st.cursor as nat, ir.len());
    } else {
        lemma_loop_cycle_aux(ir, offs, sx, sy, st, (k - 1) as nat);
        let stp = spec_step_n(ir, true, offs, sx, sy, st, (k - 1) as nat);
        lemma_mod_bound(st.cursor + k - 1, len);
        lemma_looped_step_cycles(ir, offs, sx, sy, stp);
        if len == 1 {
            lemma_mod_bound(stp.cursor + 1, len);
            lemma_mod_bound(st.cursor + k, len);
        } else {
            lemma_small_mod(1nat, ir.len());
            lemma_add_mod_noop(st.cursor + k - 1, 1, len);
        }
    }
}

/// Over one full loop cycle — exactly `len(frame_indices)` consecutive steps
/// of a looped animation that starts in sync — each frame's offset is
/// subtracted and re-added exactly once, so the net position delta is zero
/// and cursor and frame return to their starting values.
pub proof fn lemma_loop_cycle_net_zero(
    ir: Seq<usize>,
    offs: Seq<Vec2I>,
    sx: int,
    sy: int,
    st: PlaybackState,
)
    requires
        ir.len() >= 1,
        0 <= st.cursor < ir.len(),
        st.advanced,
        st.frame == ir[st.cursor] as int,
    ensures
        ({
            let stn = spec_step_n(ir, true, offs, sx, sy, st, ir.len());
            &&& stn.cursor == st.cursor
            &&& stn.frame == st.frame
            &&& stn.advanced
            &&& stn.finished == st.finished
            &&& stn.px == st.px
            &&& stn.py == st.py
        }),
{
    let len = ir.len() as int;
    lemma_loop_cycle_aux(ir, offs, sx, sy, st, ir.len());
    lemma_mod_add_multiples_vanish(st.cursor, len);
    lemma_small_mod(st.cursor as nat, ir.len());
}

/// A looped animation never finishes: any number of steps, from any state,
/// leaves the finished flag exactly as it was.
pub proof fn lemma_looped_never_finishes(
    ir: Seq<usize>,
    offs: Seq<Vec2I>,
    sx: int,
    sy: int,
    st: PlaybackState,
    n: nat,
)
    ensures
        spec_step_n(ir, true, offs, sx, sy, st, n).finished == st.finished,
    decreases n,
{
    if n > 0 {
        lemma_looped_never_finishes(ir, offs, sx, sy, st, (n - 1) as nat);
    }
}

/// Once a non-looped animation stands at the end of its range, any number
/// of further steps leaves cursor, frame, and position unchanged and the
/// finished flag set: the terminal state absorbs every later step.
pub proof fn lemma_nonlooped_terminal_stays(
    ir: Seq<usize>,
    offs: Seq<Vec2I>,
    sx: int,
    sy: int,
    st: PlaybackState,
    n: nat,
)
    requires
        ir.len() >= 1,
        st.cursor >= ir.len() - 1,
        n >= 1,
    ensures
        spec_step_n(ir, false, offs, sx, sy, st, n) == (PlaybackState { finished: true, ..st }),
    decreases n,
{
    assert(spec_step_n(ir, false, offs, sx, sy, st, 0) == st);
    if n > 1 {
        lemma_nonlooped_terminal_stays(ir, offs, sx, sy, st, (n - 1) as nat);
    }
}

/// A record carrying the five required fields closes successfully even
/// when every frame attribute was omitted, and the omitted frame offset
/// and size then default to 0.
pub proof fn lemma_missing_frame_fields_default(p: PartialRec)
    requires
        p.name is Some,
        p.x is Some,
        p.y is Some,
        p.width is Some,
        p.height is Some,
        p.frame_x is None,
        p.frame_y is None,
        p.frame_width is None,
        p.frame_height is None,
    ensures
        spec_finish(p) matches Some(r) && r.frame_x == 0 && r.frame_y == 0 && r.frame_width == 0
            && r.frame_height == 0,
{
}

/// An animation-agnostic advance over an offset table with a single entry
/// is degenerate: the frame index wraps to itself and the compensation
/// subtracts and re-adds the same offset, a net-zero position delta, on
/// every call.
pub proof fn lemma_advance_single_entry(offs: Seq<Vec2I>, sx: int, sy: int, f: int, px: int, py: int)
    requires
        offs.len() == 1,
        0 <= f < 1,
    ensures
        spec_advance(offs.len() as int, f) == f,
        comp(px, offs[f].x as int, offs[spec_advance(offs.len() as int, f)].x as int, sx) == px,
        comp(py, offs[f].y as int, offs[spec_advance(offs.len() as int, f)].y as int, sy) == py,
{
}

} // verus!
