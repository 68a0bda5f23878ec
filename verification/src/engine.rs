//! The animation engine: prefix-range registry, activation, and the per-tick
//! frame-advance state machine with subtract-old/add-new compensation.
//!
//! An engine owns one offset table and one list of registered animations for
//! one animated entity. The externally owned frame index and transform are
//! borrowed for the duration of a single operation and never stored.

use vstd::prelude::*;

use crate::bytes::is_prefix_of;
use crate::bytes::starts_with;
use crate::manifest::SubTexRec;
use crate::manifest::XML;
use crate::offsets::Offsets;
use crate::offsets::Transform2;
use crate::offsets::Vec2I;
use crate::offsets::spec_offset_of;
use crate::playback::PlaybackState;
use crate::playback::comp;
use crate::playback::comp_fits;
use crate::playback::in_i64;
use crate::playback::spec_step;
use crate::playback::spec_step_n;
use crate::playback::step_fits;
use crate::playback::steps_fit;

verus! {

/// Errors of the registry and playback operations.
#[derive(Debug, PartialEq, Eq)]
pub enum EngineError {
    /// No manifest entry, or no registered animation, matches the prefix.
    AnimationNotFound,
    /// A cursor reset was requested while no animation is active.
    NoActiveAnimation,
}

/// Nanoseconds in one second; an animation's frame interval is this divided
/// by its frames-per-second rate.
pub const NANOS_PER_SEC: u64 = 1_000_000_000;

/// One registered animation: a named, ordered list of manifest indices and
/// its playback state.
pub struct XAnimation {
    /// The name prefix the animation was registered under.
    pub name: Vec<u8>,
    /// Current position within `idx_range`.
    pub idx: usize,
    /// Manifest/offset-table indices of the animation's frames, in manifest
    /// order.
    pub idx_range: Vec<usize>,
    /// Whether the animation wraps to its first frame after the last.
    pub looped: bool,
    /// False until the first step after activation: the first step holds on
    /// the current frame instead of advancing.
    pub should_go: bool,
    /// True once a non-looped animation has exhausted its range.
    pub finished: bool,
    /// The repeating timer interval, in nanoseconds.
    pub interval_nanos: u64,
    /// Time accumulated toward the next interval crossing, in nanoseconds.
    pub elapsed_nanos: u64,
}

impl XAnimation {
    /// Well-formedness relative to an offset table of length `n_offsets`:
    /// the range is non-empty, the cursor and every frame index are in
    /// bounds, and the timer interval is positive.
    pub open spec fn wf(&self, n_offsets: int) -> bool {
        &&& self.idx_range@.len() >= 1
        &&& (self.idx as int) < self.idx_range@.len()
        &&& forall|k: int|
            0 <= k < self.idx_range@.len() ==> (self.idx_range@[k] as int) < n_offsets
        &&& self.interval_nanos >= 1
        &&& self.elapsed_nanos < self.interval_nanos
    }
}

/// Identity fields of an animation, untouched by stepping: name, frame
/// range, loop flag, and timer interval.
pub open spec fn same_anim_identity(a: XAnimation, b: XAnimation) -> bool {
    &&& a.name@ == b.name@
    &&& a.idx_range@ == b.idx_range@
    &&& a.looped == b.looped
    &&& a.interval_nanos == b.interval_nanos
}

/// The abstract playback state formed by an animation, the external frame
/// index, and the external transform.
pub open spec fn pb_state(a: XAnimation, frame: int, t: Transform2) -> PlaybackState {
    PlaybackState {
        cursor: a.idx as int,
        advanced: a.should_go,
        finished: a.finished,
        frame: frame,
        px: t.translation.x as int,
        py: t.translation.y as int,
    }
}

/// The indices of the first `n` manifest records whose name starts with
/// `prefix`, in manifest order.
pub open spec fn match_indices_upto(s: Seq<SubTexRec>, prefix: Seq<u8>, n: int) -> Seq<usize>
    decreases n,
{
    if n <= 0 {
        Seq::empty()
    } else {
        let pre = match_indices_upto(s, prefix, n - 1);
        if is_prefix_of(prefix, s[n - 1].name) {
            pre.push((n - 1) as usize)
        } else {
            pre
        }
    }
}

/// The indices of all manifest records whose name starts with `prefix`, in
/// manifest order.
pub open spec fn match_indices(s: Seq<SubTexRec>, prefix: Seq<u8>) -> Seq<usize> {
    match_indices_upto(s, prefix, s.len() as int)
}

/// The matched indices are exactly the positions of the prefix-matching
/// records — every listed index matches, every matching index is listed —
/// and they are strictly increasing, so manifest order is preserved.
pub proof fn lemma_match_indices_props(s: Seq<SubTexRec>, prefix: Seq<u8>, n: int)
    requires
        0 <= n <= s.len(),
        s.len() <= usize::MAX,
    ensures
        ({
            let mi = match_indices_upto(s, prefix, n);
            &&& forall|t: int|
                0 <= t < mi.len() ==> (mi[t] as int) < n && is_prefix_of(
                    prefix,
                    s[mi[t] as int].name,
                )
            &&& forall|j: int|
                0 <= j < n && is_prefix_of(prefix, s[j].name) ==> mi.contains(j as usize)
            &&& forall|t1: int, t2: int| 0 <= t1 < t2 < mi.len() ==> mi[t1] < mi[t2]
        }),
    decreases n,
{
    if n > 0 {
        lemma_match_indices_props(s, prefix, n - 1);
        let pre = match_indices_upto(s, prefix, n - 1);
        let mi = match_indices_upto(s, prefix, n);
        if is_prefix_of(prefix, s[n - 1].name) {
            assert(mi == pre.push((n - 1) as usize));
            assert forall|j: int|
                0 <= j < n && is_prefix_of(prefix, s[j].name) implies mi.contains(
                j as usize,
            ) by {
                if j < n - 1 {
                    let t = choose|t: int| 0 <= t < pre.len() && pre[t] == j as usize;
                    assert(mi[t] == j as usize);
                } else {
                    assert(mi[mi.len() - 1] == j as usize);
                }
            }
            assert forall|t1: int, t2: int| 0 <= t1 < t2 < mi.len() implies mi[t1] < mi[t2] by {
                if t2 == mi.len() - 1 {
                    assert(mi[t1] == pre[t1]);
                    assert((pre[t1] as int) < n - 1);
                } else {
                    assert(mi[t1] == pre[t1]);
                    assert(mi[t2] == pre[t2]);
                }
            }
        } else {
            assert(mi == pre);
        }
    }
}

/// `lemma_match_indices_props` stated over a whole manifest.
pub proof fn lemma_match_indices_characterization(s: Seq<SubTexRec>, prefix: Seq<u8>)
    requires
        s.len() <= usize::MAX,
    ensures
        ({
            let mi = match_indices(s, prefix);
            &&& forall|t: int|
                0 <= t < mi.len() ==> (mi[t] as int) < s.len() && is_prefix_of(
                    prefix,
                    s[mi[t] as int].name,
                )
            &&& forall|j: int|
                0 <= j < s.len() && is_prefix_of(prefix, s[j].name) ==> mi.contains(j as usize)
            &&& forall|t1: int, t2: int| 0 <= t1 < t2 < mi.len() ==> mi[t1] < mi[t2]
        }),
{
    lemma_match_indices_props(s, prefix, s.len() as int);
}

/// Scans the manifest in order and collects the indices of every record
/// whose name starts with `name_prefix`; duplicates by name are kept
/// separately by index. Errs exactly when no record matches.
pub fn find_frame_range(xml: &XML, name_prefix: &Vec<u8>) -> (r: Result<Vec<usize>, EngineError>)
    ensures
        match r {
            Ok(v) => v@ == match_indices(xml@, name_prefix@) && v@.len() >= 1,
            Err(e) => e == EngineError::AnimationNotFound && match_indices(
                xml@,
                name_prefix@,
            ).len() == 0,
        },
{
    let mut v: Vec<usize> = Vec::new();
    let mut i: usize = 0;
    while i < xml.subtexture.len()
        invariant
            i <= xml.subtexture.len(),
            v@ == match_indices_upto(xml@, name_prefix@, i as int),
        decreases xml.subtexture.len() - i,
    {
        proof {
            assert(xml@[i as int] == xml.subtexture@[i as int]@);
        }
        if starts_with(&xml.subtexture[i].name, name_prefix) {
            v.push(i);
        }
        i += 1;
    }
    if v.len() >= 1 {
        Ok(v)
    } else {
        Err(EngineError::AnimationNotFound)
    }
}

/// `k` is the position of the first registered animation whose name starts
/// with `prefix`.
pub open spec fn is_first_match(anims: Seq<XAnimation>, prefix: Seq<u8>, k: int) -> bool {
    &&& 0 <= k < anims.len()
    &&& is_prefix_of(prefix, anims[k].name@)
    &&& forall|j: int| 0 <= j < k ==> !is_prefix_of(prefix, anims[j].name@)
}

/// The frame index after one animation-agnostic advance over a table of
/// length `len`: wrap to 0 from the last entry, else move forward by one.
pub open spec fn spec_advance(len: int, f: int) -> int {
    if f >= len - 1 {
        0
    } else {
        f + 1
    }
}

/// The animation engine for one entity: offset table, manifest, registered
/// animations, and the index of the active one.
pub struct SpriteXML {
    pub offsets: Offsets,
    pub xml: XML,
    pub animations: Vec<XAnimation>,
    pub cur_anim: Option<usize>,
}

impl SpriteXML {
    /// Well-formedness: the offset table is aligned 1:1 with the manifest,
    /// every registered animation is well-formed against it, and the active
    /// index, if set, is in bounds.
    pub open spec fn wf(&self) -> bool {
        &&& self.offsets.offsets_vec@.len() == self.xml@.len()
        &&& forall|k: int|
            0 <= k < self.animations@.len() ==> self.animations@[k].wf(
                self.offsets.offsets_vec@.len() as int,
            )
        &&& match self.cur_anim {
            Some(i) => (i as int) < self.animations@.len(),
            None => true,
        }
    }

    /// Builds an engine from a parsed manifest: the offset table is derived
    /// entry by entry, no animations are registered, none is active.
    pub fn from_xml(xml: XML) -> (r: SpriteXML)
        ensures
            r.wf(),
            r.xml == xml,
            r.offsets.offsets_vec@.len() == xml@.len(),
            forall|i: int|
                0 <= i < xml@.len() ==> r.offsets.offsets_vec@[i] == spec_offset_of(
                    xml@[i].frame_x,
                    xml@[i].frame_y,
                ),
            r.animations@ =~= Seq::<XAnimation>::empty(),
            r.cur_anim is None,
    {
        let offsets = Offsets::from_xml(&xml);
        SpriteXML { offsets, xml, animations: Vec::new(), cur_anim: None }
    }

    /// Registers an animation: collects the manifest indices matching the
    /// prefix, and appends a fresh animation with cursor 0 and a repeating
    /// interval of `1/fps` seconds. Errs, leaving the engine unchanged,
    /// exactly when no manifest record matches.
    pub fn add_anim_from_prefix(
        &mut self,
        animationtoadd: Vec<u8>,
        looped: bool,
        fps: u16,
    ) -> (r: Result<(), EngineError>)
        requires
            old(self).wf(),
            fps >= 1,
        ensures
            final(self).wf(),
            final(self).offsets == old(self).offsets,
            final(self).xml == old(self).xml,
            final(self).cur_anim == old(self).cur_anim,
            match r {
                Ok(()) => ({
                    let mi = match_indices(old(self).xml@, animationtoadd@);
                    &&& mi.len() >= 1
                    &&& final(self).animations@.len() == old(self).animations@.len() + 1
                    &&& forall|k: int|
                        0 <= k < old(self).animations@.len() ==> final(self).animations@[k]
                            == old(self).animations@[k]
                    &&& ({
                        let a = final(self).animations@.last();
                        &&& a.name@ == animationtoadd@
                        &&& a.idx_range@ == mi
                        &&& a.idx == 0
                        &&& a.looped == looped
                        &&& !a.should_go
                        &&& !a.finished
                        &&& a.interval_nanos == NANOS_PER_SEC / (fps as u64)
                        &&& a.elapsed_nanos == 0
                    })
                }),
                Err(e) => ({
                    &&& e == EngineError::AnimationNotFound
                    &&& match_indices(old(self).xml@, animationtoadd@).len() == 0
                    &&& final(self).animations@ == old(self).animations@
                }),
            },
    {
        match find_frame_range(&self.xml, &animationtoadd) {
            Ok(idx_rng) => {
                let interval: u64 = NANOS_PER_SEC / (fps as u64);
                let n_entries: usize = self.xml.subtexture.len();
                proof {
                    assert(self.xml@.len() == n_entries);
                    assert(interval >= 1) by (nonlinear_arith)
                        requires
                            1 <= fps <= 65535,
                            interval == 1_000_000_000 as u64 / (fps as u64),
                    ;
                    lemma_match_indices_characterization(self.xml@, animationtoadd@);
                }
                self.animations.push(
                    XAnimation {
                        name: animationtoadd,
                        idx: 0,
                        idx_range: idx_rng,
                        looped,
                        should_go: false,
                        finished: false,
                        interval_nanos: interval,
                        elapsed_nanos: 0,
                    },
                );
                Ok(())
            },
            Err(e) => Err(e),
        }
    }

    /// Activates the first registered animation whose name starts with the
    /// prefix (registration order, first match wins). With `startatzero`,
    /// the external frame index is overwritten with the animation's first
    /// frame; the matching visual offset is not applied here — call
    /// `apply_offsets` once afterwards. Errs, changing nothing, exactly when
    /// no registered animation matches.
    pub fn set_anim(
        &mut self,
        animationtoset: Vec<u8>,
        sprite_index: &mut usize,
        startatzero: bool,
    ) -> (r: Result<(), EngineError>)
        requires
            old(self).wf(),
        ensures
            final(self).wf(),
            final(self).offsets == old(self).offsets,
            final(self).xml == old(self).xml,
            final(self).animations@ == old(self).animations@,
            match r {
                Ok(()) => final(self).cur_anim matches Some(k) && is_first_match(
                    old(self).animations@,
                    animationtoset@,
                    k as int,
                ) && (if startatzero {
                    *final(sprite_index) == old(self).animations@[k as int].idx_range@[0]
                } else {
                    *final(sprite_index) == *old(sprite_index)
                }),
                Err(e) => ({
                    &&& e == EngineError::AnimationNotFound
                    &&& forall|j: int|
                        0 <= j < old(self).animations@.len() ==> !is_prefix_of(
                            animationtoset@,
                            old(self).animations@[j].name@,
                        )
                    &&& final(self).cur_anim == old(self).cur_anim
                    &&& *final(sprite_index) == *old(sprite_index)
                }),
            },
    {
        let mut k: usize = 0;
        while k < self.animations.len()
            invariant
                self == old(self),
                old(self).wf(),
                *sprite_index == *old(sprite_index),
                k <= self.animations@.len(),
                forall|j: int|
                    0 <= j < k ==> !is_prefix_of(animationtoset@, self.animations@[j].name@),
            decreases self.animations.len() - k,
        {
            if starts_with(&self.animations[k].name, &animationtoset) {
                self.cur_anim = Some(k);
                if startatzero {
                    *sprite_index = self.animations[k].idx_range[0];
                }
                return Ok(());
            }
            k += 1;
        }
        Err(EngineError::AnimationNotFound)
    }

    /// Resets the active animation's cursor to 0. The advanced/finished
    /// flags, the external frame index, and the transform are untouched.
    /// Errs, changing nothing, exactly when no animation is active.
    pub fn reset_anim_idx(&mut self) -> (r: Result<(), EngineError>)
        requires
            old(self).wf(),
        ensures
            final(self).wf(),
            final(self).offsets == old(self).offsets,
            final(self).xml == old(self).xml,
            final(self).cur_anim == old(self).cur_anim,
            match r {
                Ok(()) => old(self).cur_anim matches Some(ci) && ({
                    let a0 = old(self).animations@[ci as int];
                    let a1 = final(self).animations@[ci as int];
                    &&& final(self).animations@.len() == old(self).animations@.len()
                    &&& forall|j: int|
                        0 <= j < old(self).animations@.len() && j != ci as int ==> final(
                            self).animations@[j] == old(self).animations@[j]
                    &&& same_anim_identity(a0, a1)
                    &&& a1.idx == 0
                    &&& a1.should_go == a0.should_go
                    &&& a1.finished == a0.finished
                    &&& a1.elapsed_nanos == a0.elapsed_nanos
                }),
                Err(e) => ({
                    &&& e == EngineError::NoActiveAnimation
                    &&& old(self).cur_anim is None
                    &&& final(self).animations@ == old(self).animations@
                }),
            },
    {
        match self.cur_anim {
            Some(ci) => {
                let mut a = self.animations.remove(ci);
                a.idx = 0;
                self.animations.insert(ci, a);
                Ok(())
            },
            None => Err(EngineError::NoActiveAnimation),
        }
    }

    /// Adds (never replaces) the compensation vector of the currently
    /// displayed frame, scaled componentwise, to the transform position.
    /// Call exactly once before the first step whenever the frame index was
    /// set directly — stepping assumes the displayed frame's offset is
    /// already reflected in the position.
    pub fn apply_offsets(&self, sprite_index: usize, translation: &mut Transform2)
        requires
            sprite_index < self.offsets.offsets_vec@.len(),
            ({
                let off = self.offsets.offsets_vec@[sprite_index as int];
                let t0 = *old(translation);
                &&& in_i64(off.x * t0.scale.x)
                &&& in_i64(t0.translation.x + off.x * t0.scale.x)
                &&& in_i64(off.y * t0.scale.y)
                &&& in_i64(t0.translation.y + off.y * t0.scale.y)
            }),
        ensures
            ({
                let off = self.offsets.offsets_vec@[sprite_index as int];
                let t0 = *old(translation);
                &&& final(translation).translation.x == t0.translation.x + off.x * t0.scale.x
                &&& final(translation).translation.y == t0.translation.y + off.y * t0.scale.y
                &&& final(translation).scale == t0.scale
            }),
    {
        let off = self.offsets.offsets_vec[sprite_index];
        translation.translation.x = translation.translation.x + off.x * translation.scale.x;
        translation.translation.y = translation.translation.y + off.y * translation.scale.y;
    }

    /// Advances the frame index through the whole offset table as one
    /// looping sequence — forward by one, wrapping from the last entry to
    /// the first — and compensates the position by subtracting the old
    /// frame's offset and adding the new one, each scaled.
    pub fn get_next_frame(&self, sprite_index: &mut usize, translation: &mut Transform2)
        requires
            self.offsets.offsets_vec@.len() >= 1,
            *old(sprite_index) < self.offsets.offsets_vec@.len(),
            ({
                let offs = self.offsets.offsets_vec@;
                let nf = spec_advance(offs.len() as int, *old(sprite_index) as int);
                let t0 = *old(translation);
                &&& comp_fits(
                    t0.translation.x as int,
                    offs[*old(sprite_index) as int].x as int,
                    offs[nf].x as int,
                    t0.scale.x as int,
                )
                &&& comp_fits(
                    t0.translation.y as int,
                    offs[*old(sprite_index) as int].y as int,
                    offs[nf].y as int,
                    t0.scale.y as int,
                )
            }),
        ensures
            ({
                let offs = self.offsets.offsets_vec@;
                let last = *old(sprite_index) as int;
                let nf = spec_advance(offs.len() as int, last);
                let t0 = *old(translation);
                &&& *final(sprite_index) == nf
                &&& *final(sprite_index) < offs.len()
                &&& final(translation).translation.x == comp(
                    t0.translation.x as int,
                    offs[last].x as int,
                    offs[nf].x as int,
                    t0.scale.x as int,
                )
                &&& final(translation).translation.y == comp(
                    t0.translation.y as int,
                    offs[last].y as int,
                    offs[nf].y as int,
                    t0.scale.y as int,
                )
                &&& final(translation).scale == t0.scale
            }),
    {
        let total_frames: usize = self.offsets.offsets_vec.len();
        let last_index: usize = *sprite_index;
        *sprite_index = last_index + 1;
        if last_index >= total_frames - 1 {
            *sprite_index = 0;
        }
        let old_off = self.offsets.offsets_vec[last_index];
        let new_off = self.offsets.offsets_vec[*sprite_index];
        apply_comp(translation, old_off, new_off);
    }

    /// One step of animation `anim_idx`: realizes exactly the abstract
    /// transition `spec_step` on the animation's cursor and flags, the
    /// external frame index, and the external position — wrap or finish at
    /// the end of the range, hold once on the first step after activation,
    /// advance otherwise, compensating the position on every frame change.
    /// Everything else of the engine is untouched.
    pub fn get_next_frame_of_anim(
        &mut self,
        sprite_index: &mut usize,
        translation: &mut Transform2,
        anim_idx: usize,
    )
        requires
            old(self).wf(),
            anim_idx < old(self).animations@.len(),
            *old(sprite_index) < old(self).offsets.offsets_vec@.len(),
            ({
                let a0 = old(self).animations@[anim_idx as int];
                step_fits(
                    a0.idx_range@,
                    a0.looped,
                    old(self).offsets.offsets_vec@,
                    old(translation).scale.x as int,
                    old(translation).scale.y as int,
                    pb_state(a0, *old(sprite_index) as int, *old(translation)),
                )
            }),
        ensures
            final(self).wf(),
            final(self).offsets == old(self).offsets,
            final(self).xml == old(self).xml,
            final(self).cur_anim == old(self).cur_anim,
            final(self).animations@.len() == old(self).animations@.len(),
            forall|j: int|
                0 <= j < old(self).animations@.len() && j != anim_idx as int ==> final(
                    self).animations@[j] == old(self).animations@[j],
            *final(sprite_index) < old(self).offsets.offsets_vec@.len(),
            ({
                let a0 = old(self).animations@[anim_idx as int];
                let a1 = final(self).animations@[anim_idx as int];
                let st1 = spec_step(
                    a0.idx_range@,
                    a0.looped,
                    old(self).offsets.offsets_vec@,
                    old(translation).scale.x as int,
                    old(translation).scale.y as int,
                    pb_state(a0, *old(sprite_index) as int, *old(translation)),
                );
                &&& same_anim_identity(a0, a1)
                &&& a1.elapsed_nanos == a0.elapsed_nanos
                &&& pb_state(a1, *final(sprite_index) as int, *final(translation)) == st1
                &&& final(translation).scale == old(translation).scale
            }),
    {
        let mut a = self.animations.remove(anim_idx);
        let ir_len: usize = a.idx_range.len();
        if a.idx >= ir_len - 1 {
            if a.looped {
                let last: usize = *sprite_index;
                a.idx = 0;
                let nf: usize = a.idx_range[0];
                *sprite_index = nf;
                let old_off = self.offsets.offsets_vec[last];
                let new_off = self.offsets.offsets_vec[nf];
                apply_comp(translation, old_off, new_off);
            } else {
                a.finished = true;
            }
        } else {
            let last: usize = *sprite_index;
            if a.should_go {
                a.idx = a.idx + 1;
            } else {
                a.should_go = true;
            }
            let nf: usize = a.idx_range[a.idx];
            *sprite_index = nf;
            let old_off = self.offsets.offsets_vec[last];
            let new_off = self.offsets.offsets_vec[nf];
            apply_comp(translation, old_off, new_off);
        }
        self.animations.insert(anim_idx, a);
    }

    /// One external tick for this entity. With no active animation nothing
    /// changes. Otherwise the elapsed time moves the active animation's
    /// repeating timer: the step operation fires once per full interval
    /// crossed (possibly several times for one call), and the remainder is
    /// kept toward the next crossing.
    pub fn tick(&mut self, delta_nanos: u64, sprite_index: &mut usize, translation: &mut Transform2)
        requires
            old(self).wf(),
            match old(self).cur_anim {
                Some(ci) => ({
                    let a0 = old(self).animations@[ci as int];
                    &&& *old(sprite_index) < old(self).offsets.offsets_vec@.len()
                    &&& a0.elapsed_nanos + delta_nanos <= u64::MAX
                    &&& steps_fit(
                        a0.idx_range@,
                        a0.looped,
                        old(self).offsets.offsets_vec@,
                        old(translation).scale.x as int,
                        old(translation).scale.y as int,
                        pb_state(a0, *old(sprite_index) as int, *old(translation)),
                        ((a0.elapsed_nanos + delta_nanos) / (a0.interval_nanos as int)) as nat,
                    )
                }),
                None => true,
            },
        ensures
            final(self).wf(),
            final(self).offsets == old(self).offsets,
            final(self).xml == old(self).xml,
            final(self).cur_anim == old(self).cur_anim,
            match old(self).cur_anim {
                None => ({
                    &&& final(self).animations@ == old(self).animations@
                    &&& *final(sprite_index) == *old(sprite_index)
                    &&& *final(translation) == *old(translation)
                }),
                Some(ci) => ({
                    let a0 = old(self).animations@[ci as int];
                    let fires = ((a0.elapsed_nanos + delta_nanos) / (
                    a0.interval_nanos as int)) as nat;
                    let st_n = spec_step_n(
                        a0.idx_range@,
                        a0.looped,
                        old(self).offsets.offsets_vec@,
                        old(translation).scale.x as int,
                        old(translation).scale.y as int,
                        pb_state(a0, *old(sprite_index) as int, *old(translation)),
                        fires,
                    );
                    &&& final(self).animations@.len() == old(self).animations@.len()
                    &&& forall|j: int|
                        0 <= j < old(self).animations@.len() && j != ci as int ==> final(
                            self).animations@[j] == old(self).animations@[j]
                    &&& ({
                        let a1 = final(self).animations@[ci as int];
                        &&& same_anim_identity(a0, a1)
                        &&& a1.elapsed_nanos == (a0.elapsed_nanos + delta_nanos) % (
                        a0.interval_nanos as int)
                        &&& pb_state(a1, *final(sprite_index) as int, *final(translation)) == st_n
                    })
                    &&& *final(sprite_index) < old(self).offsets.offsets_vec@.len()
                    &&& final(translation).scale == old(translation).scale
                }),
            },
    {
        match self.cur_anim {
            None => {},
            Some(ci) => {
                let ghost a0 = self.animations@[ci as int];
                let ghost offs = self.offsets.offsets_vec@;
                let ghost sx = translation.scale.x as int;
                let ghost sy = translation.scale.y as int;
                let ghost st0 = pb_state(a0, *sprite_index as int, *translation);
                let mut a = self.animations.remove(ci);
                let total: u64 = a.elapsed_nanos + delta_nanos;
                let fires: u64 = total / a.interval_nanos;
                a.elapsed_nanos = total % a.interval_nanos;
                self.animations.insert(ci, a);
                let mut done: u64 = 0;
                while done < fires
                    invariant
                        done <= fires,
                        self.wf(),
                        (ci as int) < self.animations@.len(),
                        self.cur_anim == Some(ci),
                        self.offsets == old(self).offsets,
                        self.xml == old(self).xml,
                        offs == old(self).offsets.offsets_vec@,
                        self.animations@.len() == old(self).animations@.len(),
                        forall|j: int|
                            0 <= j < old(self).animations@.len() && j != ci as int
                                ==> self.animations@[j] == old(self).animations@[j],
                        a0 == old(self).animations@[ci as int],
                        same_anim_identity(a0, self.animations@[ci as int]),
                        self.animations@[ci as int].elapsed_nanos == (a0.elapsed_nanos
                            + delta_nanos) % (a0.interval_nanos as int),
                        *sprite_index < offs.len(),
                        translation.scale == old(translation).scale,
                        sx == old(translation).scale.x as int,
                        sy == old(translation).scale.y as int,
                        st0 == pb_state(a0, *old(sprite_index) as int, *old(translation)),
                        pb_state(
                            self.animations@[ci as int],
                            *sprite_index as int,
                            *translation,
                        ) == spec_step_n(a0.idx_range@, a0.looped, offs, sx, sy, st0, done as nat),
                        steps_fit(
                            a0.idx_range@,
                            a0.looped,
                            offs,
                            sx,
                            sy,
                            spec_step_n(a0.idx_range@, a0.looped, offs, sx, sy, st0, done as nat),
                            (fires - done) as nat,
                        ),
                    decreases fires - done,
                {
                    self.get_next_frame_of_anim(sprite_index, translation, ci);
                    done += 1;
                }
            },
        }
    }
}

/// Applies one subtract-old/add-new compensation to both axes of the
/// position, each scaled by the matching scale component.
fn apply_comp(t: &mut Transform2, old_off: Vec2I, new_off: Vec2I)
    requires
        comp_fits(
            old(t).translation.x as int,
            old_off.x as int,
            new_off.x as int,
            old(t).scale.x as int,
        ),
        comp_fits(
            old(t).translation.y as int,
            old_off.y as int,
            new_off.y as int,
            old(t).scale.y as int,
        ),
    ensures
        final(t).translation.x == comp(
            old(t).translation.x as int,
            old_off.x as int,
            new_off.x as int,
            old(t).scale.x as int,
        ),
        final(t).translation.y == comp(
            old(t).translation.y as int,
            old_off.y as int,
            new_off.y as int,
            old(t).scale.y as int,
        ),
        final(t).scale == old(t).scale,
{
    let sub_x: i64 = old_off.x * t.scale.x;
    let add_x: i64 = new_off.x * t.scale.x;
    let sub_y: i64 = old_off.y * t.scale.y;
    let add_y: i64 = new_off.y * t.scale.y;
    t.translation.x = t.translation.x - sub_x + add_x;
    t.translation.y = t.translation.y - sub_y + add_y;
}

} // verus!
