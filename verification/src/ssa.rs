//! The SSA playback engine: data model, state machine, draw planning.
//!
//! Time is measured in integer ticks (the loader picks the tick length;
//! one microsecond is a natural choice).  A motion's `cycle` is the
//! duration of one frame in ticks, the reciprocal of its playback rate;
//! `update` advances the current frame by whole elapsed cycles and keeps
//! the residue.

pub mod blend_type;
pub mod frame_data;
pub mod laws;

use vstd::arithmetic::div_mod::{
    lemma_add_mod_noop, lemma_mod_add_multiples_vanish, lemma_small_mod,
};
use vstd::prelude::*;

pub use blend_type::BlendType;
pub use blend_type::RenderBlend;
pub use blend_type::spec_blend_state;
pub use frame_data::FrameData;

verus! {

/// Errors reported by the playback core.
///
/// `NotFound` is reserved for the loader (a source path that is not a
/// regular file); `ParseError` covers a malformed document, including a
/// blend-type code outside the accepted range and invalid playback
/// parameters; `InvalidIndex` reports an out-of-range motion, frame or
/// image index at draw-planning time.
#[derive(Copy, Clone, Debug, PartialEq, Eq, Structural)]
pub enum SsaError {
    NotFound,
    ParseError,
    InvalidIndex,
}

/// Playback parameters and frame data of one motion.
#[derive(Clone, Debug)]
pub struct Animation {
    /// Duration of one frame in ticks: the reciprocal of the playback
    /// rate.  A valid document yields `cycle >= 1`; the loader rejects a
    /// rate that is zero or negative.
    pub cycle: u64,
    /// Reference frame width, used only for host window sizing.
    pub canvas_width: i64,
    /// Reference frame height, used only for host window sizing.
    pub canvas_height: i64,
    /// Reference frame origin offset, passed through for the caller.
    pub margin_width: i64,
    /// Reference frame origin offset, passed through for the caller.
    pub margin_height: i64,
    /// Names of the parts appearing in the animation (informational).
    pub parts: Vec<String>,
    /// The frames, each an ordered list of parts drawn in list order.
    pub ssa: Vec<Vec<FrameData>>,
}

impl Animation {
    /// A playable animation has a positive cycle and at least one frame.
    pub open spec fn valid(self) -> bool {
        self.cycle >= 1 && self.ssa.len() >= 1
    }
}

/// One named animation unit: an image list and an animation body.
#[derive(Clone, Debug)]
pub struct Motion {
    /// Relative image paths; their order defines index-based lookup.
    pub images: Vec<String>,
    /// Display name of the motion.
    pub name: String,
    /// The animation body.
    pub animation: Animation,
}

impl Motion {
    pub open spec fn valid(self) -> bool {
        self.animation.valid()
    }
}

/// The three playback states: looping, playing once, stopped.
#[derive(Copy, Clone, Debug, PartialEq, Eq, Structural)]
pub enum PlayStatus {
    Loop,
    Nonloop,
    Stop,
}

/// The playback state machine's state, as mathematical integers.
pub ghost struct PlaybackView {
    pub frame: int,
    pub frame_count: int,
    pub time_elapsed: int,
    pub cycle: int,
    pub play_status: PlayStatus,
}

/// What `play_once` does: rewind to the first frame and play once.
pub open spec fn spec_play_once(s: PlaybackView) -> PlaybackView {
    PlaybackView { frame: 0, play_status: PlayStatus::Nonloop, ..s }
}

/// What `play_looped` does: rewind to the first frame and loop.
pub open spec fn spec_play_looped(s: PlaybackView) -> PlaybackView {
    PlaybackView { frame: 0, play_status: PlayStatus::Loop, ..s }
}

/// What `pause` does: freeze in place, keeping frame and residue.
pub open spec fn spec_pause(s: PlaybackView) -> PlaybackView {
    PlaybackView { play_status: PlayStatus::Stop, ..s }
}

/// What `stop` does: halt and rewind to the first frame.
pub open spec fn spec_stop(s: PlaybackView) -> PlaybackView {
    PlaybackView { frame: 0, play_status: PlayStatus::Stop, ..s }
}

/// What one `update(dt)` tick does.
///
/// While stopped, time does not accumulate.  Otherwise the elapsed
/// residue grows by `dt`, every whole cycle contained in it advances the
/// frame by one, and the residue keeps the remainder.  A frame index
/// running past the end wraps around when looping, and rewinds to the
/// first frame and stops when playing once.
pub open spec fn spec_step(s: PlaybackView, dt: int) -> PlaybackView {
    if s.play_status is Stop {
        s
    } else {
        let t = s.time_elapsed + dt;
        let advance = t / s.cycle;
        let residue = t % s.cycle;
        let total = s.frame + advance;
        if s.play_status is Loop {
            PlaybackView { frame: total % s.frame_count, time_elapsed: residue, ..s }
        } else if total >= s.frame_count {
            PlaybackView {
                frame: 0,
                time_elapsed: residue,
                play_status: PlayStatus::Stop,
                ..s
            }
        } else {
            PlaybackView { frame: total, time_elapsed: residue, ..s }
        }
    }
}

/// `n` ticks of `dt` each, applied in order.
pub open spec fn spec_step_n(s: PlaybackView, dt: int, n: nat) -> PlaybackView
    decreases n,
{
    if n == 0 {
        s
    } else {
        spec_step(spec_step_n(s, dt, (n - 1) as nat), dt)
    }
}

/// The indices of the `true` entries of `present`, in increasing order:
/// the image slots that resource binding keeps.
pub open spec fn kept_indices(present: Seq<bool>) -> Seq<int>
    decreases present.len(),
{
    if present.len() == 0 {
        Seq::empty()
    } else {
        let rest = kept_indices(present.drop_last());
        if present.last() {
            rest.push(present.len() - 1)
        } else {
            rest
        }
    }
}

/// A part may be drawn only if its image index addresses a bound slot.
pub open spec fn part_ok(p: FrameData, images_bound: int) -> bool {
    0 <= p.image_number < images_bound
}

pub open spec fn parts_ok(parts: Seq<FrameData>, images_bound: int) -> bool {
    forall|i: int| 0 <= i < parts.len() ==> part_ok(#[trigger] parts[i], images_bound)
}

/// The draw decisions for one part: which bound texture slot, which
/// renderer blend state, and whether to mirror horizontally/vertically.
#[derive(Copy, Clone, Debug, PartialEq, Eq, Structural)]
pub struct DrawCommand {
    pub texture_index: usize,
    pub blend: RenderBlend,
    pub flip_h: bool,
    pub flip_v: bool,
}

/// The command the draw planner emits for a part whose image index is in
/// range.
pub open spec fn spec_command(p: FrameData) -> DrawCommand {
    DrawCommand {
        texture_index: p.image_number as usize,
        blend: spec_blend_state(p.blend_type),
        flip_h: p.flip_h == 1,
        flip_v: p.flip_v == 1,
    }
}

/// A loaded SSA document together with its playback instance: the parsed
/// motions, the number of bound texture slots, and the frame-advance
/// state machine.  The embedding application owns the texture handles
/// themselves, index-aligned with the bound slots counted here.
pub struct SsaJson {
    /// The parsed, immutable motions of the document.
    pub motions: Vec<Motion>,
    /// How many texture slots the last binding produced.
    pub images_bound: usize,
    /// Current frame index.
    pub frame: usize,
    /// Frame count of the motion bound last, `1` before any binding.
    pub frame_count: usize,
    /// Residual elapsed time in ticks, always below `cycle` once playing.
    pub time_elapsed: u64,
    /// Ticks per frame of the motion bound last, `0` before any binding.
    pub cycle: u64,
    /// State of the playback machine.
    pub play_status: PlayStatus,
}

impl SsaJson {
    /// Every motion of the document is playable.
    pub open spec fn wf(self) -> bool {
        forall|i: int| 0 <= i < self.motions.len() ==> (#[trigger] self.motions[i]).valid()
    }

    /// The playback state machine's view of this instance.
    pub open spec fn playback(self) -> PlaybackView {
        PlaybackView {
            frame: self.frame as int,
            frame_count: self.frame_count as int,
            time_elapsed: self.time_elapsed as int,
            cycle: self.cycle as int,
            play_status: self.play_status,
        }
    }

    /// The part list of the current frame of `motion`.
    pub open spec fn current_parts(self, motion: int) -> Seq<FrameData> {
        self.motions[motion].animation.ssa[self.frame as int]@
    }

    /// The draw planner succeeds exactly when the motion index, the
    /// current frame index and every part's image index are in range.
    pub open spec fn plan_ok(self, motion: int) -> bool {
        &&& 0 <= motion < self.motions.len()
        &&& self.frame < self.motions[motion].animation.ssa.len()
        &&& parts_ok(self.current_parts(motion), self.images_bound as int)
    }

    /// Build a playback instance over a parsed document.
    ///
    /// Rejects a document with an unplayable motion (a non-positive
    /// playback rate, or no frames) as a parse error; otherwise starts
    /// stopped at frame `0`, with nothing bound yet.
    pub fn new(motions: Vec<Motion>) -> (r: Result<SsaJson, SsaError>)
        ensures
            match r {
                Ok(s) => {
                    &&& forall|i: int|
                        0 <= i < motions.len() ==> (#[trigger] motions[i]).valid()
                    &&& s.wf()
                    &&& s.motions == motions
                    &&& s.images_bound == 0
                    &&& s.frame == 0
                    &&& s.frame_count == 1
                    &&& s.time_elapsed == 0
                    &&& s.cycle == 0
                    &&& s.play_status is Stop
                },
                Err(e) => {
                    &&& e == SsaError::ParseError
                    &&& exists|i: int|
                        0 <= i < motions.len() && !(#[trigger] motions[i]).valid()
                },
            },
    {
        let mut i: usize = 0;
        while i < motions.len()
            invariant
                i <= motions.len(),
                forall|j: int| 0 <= j < i ==> (#[trigger] motions[j]).valid(),
            decreases motions.len() - i,
        {
            let m = &motions[i];
            if m.animation.cycle < 1 || m.animation.ssa.len() < 1 {
                return Err(SsaError::ParseError);
            }
            i += 1;
        }
        Ok(SsaJson {
            motions,
            images_bound: 0,
            frame: 0,
            frame_count: 1,
            time_elapsed: 0,
            cycle: 0,
            play_status: PlayStatus::Stop,
        })
    }

    /// Play the bound motion once from its first frame.
    pub fn play_once(&mut self)
        ensures
            final(self).playback() == spec_play_once(old(self).playback()),
            final(self).motions == old(self).motions,
            final(self).images_bound == old(self).images_bound,
    {
        self.frame = 0;
        self.play_status = PlayStatus::Nonloop;
    }

    /// Play the bound motion in a loop from its first frame.
    pub fn play_looped(&mut self)
        ensures
            final(self).playback() == spec_play_looped(old(self).playback()),
            final(self).motions == old(self).motions,
            final(self).images_bound == old(self).images_bound,
    {
        self.frame = 0;
        self.play_status = PlayStatus::Loop;
    }

    /// Freeze playback in place: the current frame and the elapsed
    /// residue are preserved, not reset.
    pub fn pause(&mut self)
        ensures
            final(self).playback() == spec_pause(old(self).playback()),
            final(self).motions == old(self).motions,
            final(self).images_bound == old(self).images_bound,
    {
        self.play_status = PlayStatus::Stop;
    }

    /// Halt playback and rewind to the first frame.
    pub fn stop(&mut self)
        ensures
            final(self).playback() == spec_stop(old(self).playback()),
            final(self).motions == old(self).motions,
            final(self).images_bound == old(self).images_bound,
    {
        self.frame = 0;
        self.play_status = PlayStatus::Stop;
    }

    /// The reference canvas size of a motion, for host window sizing.
    pub fn get_size_of(&self, motion: usize) -> (r: (i64, i64))
        requires
            motion < self.motions.len(),
        ensures
            r.0 == self.motions[motion as int].animation.canvas_width,
            r.1 == self.motions[motion as int].animation.canvas_height,
    {
        (
            self.motions[motion].animation.canvas_width,
            self.motions[motion].animation.canvas_height,
        )
    }

    /// Record a binding of `motion`'s images to texture slots.
    ///
    /// `present` says, for each declared image, whether it resolved to an
    /// existing file; the caller derives it from the file system and then
    /// loads exactly the returned indices, in order, into its texture
    /// buffer (replacing any previous binding).  Missing images are
    /// silently skipped, so the bound slots can be fewer than the
    /// declared images and later indices shift down — a known hazard of
    /// the format, preserved as is.  The motion's cycle and frame count
    /// are re-derived as a side effect.
    pub fn allocate_texture_for(&mut self, motion: usize, present: &Vec<bool>) -> (r: Vec<usize>)
        requires
            old(self).wf(),
            motion < old(self).motions.len(),
            present.len() == old(self).motions[motion as int].images.len(),
        ensures
            r@.map_values(|u: usize| u as int) == kept_indices(present@),
            forall|j: int|
                0 <= j < r.len() ==> r[j] < present.len() && present[r[j] as int],
            final(self).images_bound == r.len(),
            final(self).cycle == old(self).motions[motion as int].animation.cycle,
            final(self).frame_count == old(self).motions[motion as int].animation.ssa.len(),
            final(self).cycle >= 1,
            final(self).frame_count >= 1,
            final(self).frame == old(self).frame,
            final(self).time_elapsed == old(self).time_elapsed,
            final(self).play_status == old(self).play_status,
            final(self).motions == old(self).motions,
            final(self).wf(),
    {
        let ghost gp: Seq<bool> = present@;
        let mut out: Vec<usize> = Vec::new();
        let mut i: usize = 0;
        while i < present.len()
            invariant
                i <= present.len(),
                gp == present@,
                out@.map_values(|u: usize| u as int) == kept_indices(gp.take(i as int)),
                forall|j: int|
                    0 <= j < out.len()
                        ==> out[j] < i && gp[#[trigger] out[j] as int],
            decreases present.len() - i,
        {
            proof {
                assert(gp.take(i as int + 1).drop_last() =~= gp.take(i as int));
                assert(gp.take(i as int + 1).last() == gp[i as int]);
            }
            if present[i] {
                let ghost prev: Seq<int> = out@.map_values(|u: usize| u as int);
                out.push(i);
                proof {
                    assert(out@.map_values(|u: usize| u as int) =~= prev.push(
                        i as int,
                    ));
                }
            }
            i += 1;
        }
        proof {
            assert(gp.take(present.len() as int) =~= gp);
        }
        let c: u64 = self.motions[motion].animation.cycle;
        let fc: usize = self.motions[motion].animation.ssa.len();
        self.cycle = c;
        self.frame_count = fc;
        self.images_bound = out.len();
        out
    }

    /// Plan the draw calls for the current frame of `motion`.
    ///
    /// Returns one command per part, in part-list order (which is the
    /// z-order: later commands draw on top).  Any out-of-range index —
    /// the motion, the current frame against that motion's frame list, or
    /// a part's image index against the bound texture slots — is reported
    /// as `InvalidIndex` instead of being dereferenced.
    pub fn draw_plan(&self, motion: usize) -> (r: Result<Vec<DrawCommand>, SsaError>)
        ensures
            match r {
                Ok(cmds) => {
                    &&& self.plan_ok(motion as int)
                    &&& cmds.len() == self.current_parts(motion as int).len()
                    &&& forall|i: int|
                        0 <= i < cmds.len() ==> cmds[i] == spec_command(
                            #[trigger] self.current_parts(motion as int)[i],
                        )
                },
                Err(e) => {
                    &&& e == SsaError::InvalidIndex
                    &&& !self.plan_ok(motion as int)
                },
            },
    {
        if motion >= self.motions.len() {
            return Err(SsaError::InvalidIndex);
        }
        let m = &self.motions[motion];
        if self.frame >= m.animation.ssa.len() {
            return Err(SsaError::InvalidIndex);
        }
        let parts = &m.animation.ssa[self.frame];
        let mut cmds: Vec<DrawCommand> = Vec::new();
        let mut i: usize = 0;
        while i < parts.len()
            invariant
                i <= parts.len(),
                parts@ == self.current_parts(motion as int),
                motion < self.motions.len(),
                self.frame < self.motions[motion as int].animation.ssa.len(),
                cmds.len() == i,
                forall|j: int|
                    0 <= j < i ==> part_ok(
                        #[trigger] parts@[j],
                        self.images_bound as int,
                    ),
                forall|j: int|
                    0 <= j < i ==> cmds[j] == spec_command(#[trigger] parts@[j]),
            decreases parts.len() - i,
        {
            let p = &parts[i];
            if p.image_number < 0 {
                return Err(SsaError::InvalidIndex);
            }
            let idx: usize = p.image_number as usize;
            if idx >= self.images_bound {
                return Err(SsaError::InvalidIndex);
            }
            cmds.push(DrawCommand {
                texture_index: idx,
                blend: blend_type::blend_state(p.blend_type),
                flip_h: p.flip_h == 1,
                flip_v: p.flip_v == 1,
            });
            i += 1;
        }
        Ok(cmds)
    }

    /// Advance playback by `delta_time` ticks.
    ///
    /// A stopped machine ignores time.  Otherwise every whole cycle
    /// contained in the accumulated time advances the frame — several at
    /// once under a slow tick — the residue is kept, and a frame index
    /// running past the end wraps (looping) or rewinds and stops (playing
    /// once).  A positive cycle and frame count are the caller's burden:
    /// an unbound machine must stay stopped, as the loader left it.
    pub fn update(&mut self, delta_time: u64)
        requires
            !(old(self).play_status is Stop) ==> {
                &&& old(self).cycle >= 1
                &&& old(self).frame_count >= 1
                &&& old(self).time_elapsed + delta_time <= u64::MAX
            },
        ensures
            final(self).playback() == spec_step(old(self).playback(), delta_time as int),
            final(self).motions == old(self).motions,
            final(self).images_bound == old(self).images_bound,
    {
        if self.play_status == PlayStatus::Stop {
            return;
        }
        self.time_elapsed = self.time_elapsed + delta_time;
        let advance: u64 = self.time_elapsed / self.cycle;
        self.time_elapsed = self.time_elapsed % self.cycle;
        let count: u64 = self.frame_count as u64;
        let fcur: u64 = self.frame as u64;
        if self.play_status == PlayStatus::Loop {
            let fm: u64 = fcur % count;
            let am: u64 = advance % count;
            let room: u64 = count - fm;
            let wrapped: u64 = if am >= room {
                am - room
            } else {
                fm + am
            };
            proof {
                lemma_add_mod_noop(fcur as int, advance as int, count as int);
                if am >= room {
                    lemma_mod_add_multiples_vanish(wrapped as int, count as int);
                    lemma_small_mod(wrapped as nat, count as nat);
                } else {
                    lemma_small_mod(wrapped as nat, count as nat);
                }
                assert(wrapped as int == (fcur + advance) % (count as int));
                assert(wrapped < count);
            }
            self.frame = wrapped as usize;
        } else {
            if fcur >= count || advance >= count - fcur {
                self.frame = 0;
                self.play_status = PlayStatus::Stop;
            } else {
                self.frame = self.frame + advance as usize;
            }
        }
    }
}

} // verus!
