//! Laws of the playback state machine, proved over its specification.

use vstd::arithmetic::div_mod::{
    lemma_add_mod_noop_right, lemma_div_multiples_vanish_fancy, lemma_div_pos_is_pos,
    lemma_mod_bound, lemma_mod_multiples_vanish, lemma_mod_self_0, lemma_small_mod,
};
use vstd::prelude::*;

use crate::ssa::{spec_pause, spec_step, spec_step_n, spec_stop, PlayStatus, PlaybackView};

verus! {

/// Stopping is idempotent: a second `stop` right after a first changes
/// nothing (frame `0`, stopped).
pub proof fn lemma_stop_idempotent(s: PlaybackView)
    ensures
        spec_stop(spec_stop(s)) == spec_stop(s),
{
}

/// After `pause`, an `update` of any duration changes nothing: neither
/// the frame nor the elapsed residue moves while stopped.
pub proof fn lemma_pause_freezes(s: PlaybackView, dt: int)
    ensures
        spec_step(spec_pause(s), dt) == spec_pause(s),
{
}

/// A stopped machine ignores `update` entirely.
pub proof fn lemma_stopped_ignores_update(s: PlaybackView, dt: int)
    requires
        s.play_status is Stop,
    ensures
        spec_step(s, dt) == s,
{
}

/// While playing, the residue left by an `update` of any non-negative
/// duration lies in `[0, cycle)`.
pub proof fn lemma_update_residue_bounds(s: PlaybackView, dt: int)
    requires
        !(s.play_status is Stop),
        s.cycle >= 1,
        0 <= s.time_elapsed,
        0 <= dt,
    ensures
        0 <= spec_step(s, dt).time_elapsed < s.cycle,
{
    lemma_mod_bound(s.time_elapsed + dt, s.cycle);
}

/// While playing, the frame index left by an `update` of any
/// non-negative duration lies in `[0, frame_count)`.
pub proof fn lemma_update_frame_bounds(s: PlaybackView, dt: int)
    requires
        !(s.play_status is Stop),
        s.cycle >= 1,
        s.frame_count >= 1,
        0 <= s.frame,
        0 <= s.time_elapsed,
        0 <= dt,
    ensures
        0 <= spec_step(s, dt).frame < s.frame_count,
{
    lemma_div_pos_is_pos(s.time_elapsed + dt, s.cycle);
    if s.play_status is Loop {
        lemma_mod_bound(s.frame + (s.time_elapsed + dt) / s.cycle, s.frame_count);
    }
}

/// An `update` of exactly one cycle, from a residue below one cycle,
/// advances the frame by exactly one and keeps the residue: wrapping
/// modulo the frame count when looping, and stopping at frame `0` when a
/// play-once run steps past its last frame.
pub proof fn lemma_one_cycle_step(s: PlaybackView)
    requires
        !(s.play_status is Stop),
        s.cycle >= 1,
        s.frame_count >= 1,
        0 <= s.frame,
        0 <= s.time_elapsed < s.cycle,
    ensures
        s.play_status is Loop ==> spec_step(s, s.cycle) == (PlaybackView {
            frame: (s.frame + 1) % s.frame_count,
            ..s
        }),
        s.play_status is Nonloop && s.frame + 1 < s.frame_count ==> spec_step(s, s.cycle)
            == (PlaybackView { frame: s.frame + 1, ..s }),
        s.play_status is Nonloop && s.frame + 1 >= s.frame_count ==> spec_step(s, s.cycle)
            == (PlaybackView { frame: 0, play_status: PlayStatus::Stop, ..s }),
{
    assert(s.time_elapsed + s.cycle == s.cycle * 1 + s.time_elapsed);
    lemma_div_multiples_vanish_fancy(1, s.time_elapsed, s.cycle);
    lemma_mod_multiples_vanish(1, s.time_elapsed, s.cycle);
    lemma_small_mod(s.time_elapsed as nat, s.cycle as nat);
}

/// One whole cycle from a zero residue advances the frame by exactly
/// one, modulo the frame count, and leaves a zero residue again.
pub proof fn lemma_one_cycle_advances_one_frame(s: PlaybackView)
    requires
        !(s.play_status is Stop),
        s.cycle >= 1,
        s.frame_count >= 1,
        0 <= s.frame < s.frame_count,
        s.time_elapsed == 0,
    ensures
        spec_step(s, s.cycle).frame == (s.frame + 1) % s.frame_count,
        spec_step(s, s.cycle).time_elapsed == 0,
{
    lemma_one_cycle_step(s);
    if s.play_status is Nonloop {
        if s.frame + 1 >= s.frame_count {
            lemma_mod_self_0(s.frame_count);
        } else {
            lemma_small_mod((s.frame + 1) as nat, s.frame_count as nat);
        }
    }
}

/// Looping playback advances one frame per whole cycle: after `k` cycles
/// the frame is the starting frame plus `k`, modulo the frame count, and
/// nothing else changes.
pub proof fn lemma_loop_advances_frames(s: PlaybackView, k: nat)
    requires
        s.play_status is Loop,
        s.cycle >= 1,
        s.frame_count >= 1,
        0 <= s.frame < s.frame_count,
        0 <= s.time_elapsed < s.cycle,
    ensures
        spec_step_n(s, s.cycle, k) == (PlaybackView {
            frame: (s.frame + k) % s.frame_count,
            ..s
        }),
    decreases k,
{
    if k == 0 {
        lemma_small_mod(s.frame as nat, s.frame_count as nat);
    } else {
        lemma_loop_advances_frames(s, (k - 1) as nat);
        let prev = spec_step_n(s, s.cycle, (k - 1) as nat);
        lemma_mod_bound(s.frame + k - 1, s.frame_count);
        lemma_one_cycle_step(prev);
        lemma_add_mod_noop_right(1, s.frame + k - 1, s.frame_count);
    }
}

/// Looping: from frame `0`, exactly frame-count whole cycles return the
/// machine to frame `0` with everything else unchanged.
pub proof fn lemma_loop_returns_to_start(s: PlaybackView)
    requires
        s.play_status is Loop,
        s.cycle >= 1,
        s.frame_count >= 1,
        s.frame == 0,
        0 <= s.time_elapsed < s.cycle,
    ensures
        spec_step_n(s, s.cycle, s.frame_count as nat) == s,
{
    lemma_loop_advances_frames(s, s.frame_count as nat);
    lemma_mod_self_0(s.frame_count);
}

/// A play-once run visits its frames in order: `k` whole cycles from
/// frame `0` land on frame `k`, for `k` below the frame count.
pub proof fn lemma_play_once_progresses(s: PlaybackView, k: nat)
    requires
        s.play_status is Nonloop,
        s.cycle >= 1,
        s.frame_count >= 1,
        s.frame == 0,
        0 <= s.time_elapsed < s.cycle,
        k < s.frame_count,
    ensures
        spec_step_n(s, s.cycle, k) == (PlaybackView { frame: k as int, ..s }),
    decreases k,
{
    if k > 0 {
        lemma_play_once_progresses(s, (k - 1) as nat);
        lemma_one_cycle_step(spec_step_n(s, s.cycle, (k - 1) as nat));
    }
}

/// Play-once termination: from frame `0`, after exactly frame-count
/// whole cycles the machine is stopped at frame `0`, and any further
/// `update` is a no-op.
pub proof fn lemma_play_once_terminates(s: PlaybackView, dt: int)
    requires
        s.play_status is Nonloop,
        s.cycle >= 1,
        s.frame_count >= 1,
        s.frame == 0,
        0 <= s.time_elapsed < s.cycle,
    ensures
        spec_step_n(s, s.cycle, s.frame_count as nat) == (PlaybackView {
            frame: 0,
            play_status: PlayStatus::Stop,
            ..s
        }),
        spec_step(spec_step_n(s, s.cycle, s.frame_count as nat), dt) == spec_step_n(
            s,
            s.cycle,
            s.frame_count as nat,
        ),
{
    let n = s.frame_count as nat;
    lemma_play_once_progresses(s, (n - 1) as nat);
    lemma_one_cycle_step(spec_step_n(s, s.cycle, (n - 1) as nat));
}

} // verus!
