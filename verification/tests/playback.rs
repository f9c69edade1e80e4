use ss5_piston::ssa::{Animation, BlendType, FrameData, Motion, PlayStatus, SsaJson};

// One tick is a microsecond here; a playback rate of 10 frames per
// second gives a cycle of 0.1 s = 100_000 ticks.
const CYCLE: u64 = 100_000;

fn part(image: i32, blend: BlendType) -> FrameData {
    FrameData {
        part_number: 0,
        image_number: image,
        flip_h: 0,
        flip_v: 0,
        blend_type: blend,
    }
}

fn simple_motion(frames: usize) -> Motion {
    let mut ssa = Vec::new();
    for _ in 0..frames {
        ssa.push(vec![part(0, BlendType::Mix)]);
    }
    Motion {
        images: vec![String::from("a.png")],
        name: String::from("motion"),
        animation: Animation {
            cycle: CYCLE,
            canvas_width: 320,
            canvas_height: 240,
            margin_width: 0,
            margin_height: 0,
            parts: vec![String::from("body")],
            ssa,
        },
    }
}

fn player(frames: usize) -> SsaJson {
    let mut s = SsaJson::new(vec![simple_motion(frames)]).unwrap();
    let present = vec![true];
    s.allocate_texture_for(0, &present);
    s
}

#[test]
fn initial_state_is_stopped_at_frame_zero() {
    let s = SsaJson::new(vec![simple_motion(3)]).unwrap();
    assert_eq!(s.frame, 0);
    assert_eq!(s.frame_count, 1);
    assert_eq!(s.time_elapsed, 0);
    assert_eq!(s.cycle, 0);
    assert_eq!(s.play_status, PlayStatus::Stop);
    assert_eq!(s.images_bound, 0);
}

#[test]
fn one_cycle_advances_one_frame() {
    let mut s = player(3);
    s.play_looped();
    s.update(CYCLE);
    assert_eq!(s.frame, 1);
    assert_eq!(s.time_elapsed, 0);
    s.update(CYCLE);
    assert_eq!(s.frame, 2);
    assert_eq!(s.time_elapsed, 0);
    s.update(CYCLE);
    assert_eq!(s.frame, 0);
    assert_eq!(s.time_elapsed, 0);
}

#[test]
fn residue_stays_below_cycle() {
    let mut s = player(3);
    s.play_looped();
    s.update(250_000);
    assert!(s.time_elapsed < CYCLE);
    s.update(99_999);
    assert!(s.time_elapsed < CYCLE);
    s.update(1);
    assert!(s.time_elapsed < CYCLE);
    assert_eq!(s.time_elapsed, 50_000);
}

#[test]
fn stop_twice_equals_stop_once() {
    let mut s = player(3);
    s.play_looped();
    s.update(150_000);
    s.stop();
    let first = (s.frame, s.time_elapsed, s.play_status);
    s.stop();
    assert_eq!((s.frame, s.time_elapsed, s.play_status), first);
    assert_eq!(s.frame, 0);
    assert_eq!(s.play_status, PlayStatus::Stop);
}

#[test]
fn looping_returns_to_start_after_frame_count_cycles() {
    let mut s = player(3);
    s.play_looped();
    for _ in 0..3 {
        s.update(CYCLE);
    }
    assert_eq!(s.frame, 0);
    assert_eq!(s.play_status, PlayStatus::Loop);
    assert_eq!(s.time_elapsed, 0);
}

#[test]
fn play_once_terminates_after_frame_count_cycles() {
    let mut s = player(3);
    s.play_once();
    assert_eq!(s.frame, 0);
    assert_eq!(s.play_status, PlayStatus::Nonloop);
    s.update(CYCLE);
    assert_eq!(s.frame, 1);
    assert_eq!(s.play_status, PlayStatus::Nonloop);
    s.update(CYCLE);
    assert_eq!(s.frame, 2);
    assert_eq!(s.play_status, PlayStatus::Nonloop);
    s.update(CYCLE);
    assert_eq!(s.frame, 0);
    assert_eq!(s.play_status, PlayStatus::Stop);
    // Further updates are no-ops.
    s.update(CYCLE);
    assert_eq!(s.frame, 0);
    assert_eq!(s.play_status, PlayStatus::Stop);
    s.update(10 * CYCLE);
    assert_eq!(s.frame, 0);
    assert_eq!(s.play_status, PlayStatus::Stop);
}

#[test]
fn pause_freezes_frame_and_residue() {
    let mut s = player(3);
    s.play_looped();
    s.update(CYCLE + 30_000);
    assert_eq!(s.frame, 1);
    assert_eq!(s.time_elapsed, 30_000);
    s.pause();
    assert_eq!(s.play_status, PlayStatus::Stop);
    s.update(10 * CYCLE);
    assert_eq!(s.frame, 1);
    assert_eq!(s.time_elapsed, 30_000);
    s.update(1);
    assert_eq!(s.frame, 1);
    assert_eq!(s.time_elapsed, 30_000);
}

#[test]
fn looped_update_skips_frames_under_slow_ticks() {
    // fps = 10 (cycle 0.1 s), 3 frames; one update of 0.25 s advances
    // two frames and keeps 0.05 s.
    let mut s = player(3);
    s.play_looped();
    s.update(250_000);
    assert_eq!(s.frame, 2);
    assert_eq!(s.time_elapsed, 50_000);
    assert_eq!(s.play_status, PlayStatus::Loop);
}

#[test]
fn play_once_update_past_end_wraps_and_stops() {
    // Same motion, played once; 0.35 s is three whole cycles, equal to
    // the frame count, so the run wraps to frame 0 and stops.
    let mut s = player(3);
    s.play_once();
    s.update(350_000);
    assert_eq!(s.frame, 0);
    assert_eq!(s.play_status, PlayStatus::Stop);
}

#[test]
fn update_while_stopped_accumulates_nothing() {
    let mut s = player(3);
    s.update(250_000);
    assert_eq!(s.frame, 0);
    assert_eq!(s.time_elapsed, 0);
    assert_eq!(s.play_status, PlayStatus::Stop);
}

#[test]
fn play_modes_rewind_to_first_frame() {
    let mut s = player(3);
    s.play_looped();
    s.update(2 * CYCLE);
    assert_eq!(s.frame, 2);
    s.play_once();
    assert_eq!(s.frame, 0);
    assert_eq!(s.play_status, PlayStatus::Nonloop);
    s.update(CYCLE);
    s.play_looped();
    assert_eq!(s.frame, 0);
    assert_eq!(s.play_status, PlayStatus::Loop);
}
