use led_matrix::{
    ascii_frame,
    Animation, AnimationData, AnimationEffect, AnimationError, AnimationState, Frame,
};

fn frame(rows: [[u8; 5]; 5]) -> Frame {
    Frame::from_rows(rows.iter().map(|r| r.to_vec()).collect()).unwrap()
}

fn uniform_rows(row: [u8; 5]) -> [[u8; 5]; 5] {
    [row, row, row, row, row]
}

#[test]
fn construction_empty_frames_fails_with_no_frames() {
    let frames: Vec<Frame> = Vec::new();
    let r = Animation::new(AnimationData::Frames(&frames), AnimationEffect::Slide, 100, 0);
    assert!(matches!(r, Err(AnimationError::NoFrames)));
    let r = Animation::new(AnimationData::Frames(&frames), AnimationEffect::NoEffect, 100, 0);
    assert!(matches!(r, Err(AnimationError::NoFrames)));
}

#[test]
fn construction_empty_bytes_fails_with_no_frames() {
    let bytes: Vec<u8> = Vec::new();
    let r = Animation::new(AnimationData::Bytes(&bytes), AnimationEffect::Slide, 100, 0);
    assert!(matches!(r, Err(AnimationError::NoFrames)));
    let r = Animation::new(AnimationData::Bytes(&bytes), AnimationEffect::NoEffect, 100, 0);
    assert!(matches!(r, Err(AnimationError::NoFrames)));
}

#[test]
fn construction_too_short_duration_fails_with_too_fast() {
    // Three frames without an effect need at least three ticks.
    let frames = vec![
        frame(uniform_rows([0, 0, 0, 0, 0])),
        frame(uniform_rows([1, 1, 1, 1, 1])),
        frame(uniform_rows([2, 2, 2, 2, 2])),
    ];
    let r = Animation::new(AnimationData::Frames(&frames), AnimationEffect::NoEffect, 2, 0);
    assert!(matches!(r, Err(AnimationError::TooFast)));
    // One sliding frame spans five steps; four ticks are not enough.
    let one = vec![frame(uniform_rows([1, 2, 3, 4, 5]))];
    let r = Animation::new(AnimationData::Frames(&one), AnimationEffect::Slide, 4, 0);
    assert!(matches!(r, Err(AnimationError::TooFast)));
}

#[test]
fn construction_uneven_duration_fails_with_too_fast() {
    // Seven ticks cannot be split evenly over five steps.
    let one = vec![frame(uniform_rows([1, 2, 3, 4, 5]))];
    let r = Animation::new(AnimationData::Frames(&one), AnimationEffect::Slide, 7, 0);
    assert!(matches!(r, Err(AnimationError::TooFast)));
}

#[test]
fn construction_zero_duration_fails_with_too_fast() {
    let one = vec![frame(uniform_rows([1, 2, 3, 4, 5]))];
    let r = Animation::new(AnimationData::Frames(&one), AnimationEffect::NoEffect, 0, 0);
    assert!(matches!(r, Err(AnimationError::TooFast)));
}

#[test]
fn step_totals_per_effect() {
    let frames = vec![
        frame(uniform_rows([1, 0, 0, 0, 0])),
        frame(uniform_rows([0, 1, 0, 0, 0])),
        frame(uniform_rows([0, 0, 1, 0, 0])),
    ];
    // Slide: one step per column of every source frame.
    let a = Animation::new(AnimationData::Frames(&frames), AnimationEffect::Slide, 15, 0).unwrap();
    assert_eq!(a.length, 15);
    assert_eq!(a.wait, 1);
    // No effect: one step per source frame.
    let a = Animation::new(AnimationData::Frames(&frames), AnimationEffect::NoEffect, 9, 0).unwrap();
    assert_eq!(a.length, 3);
    assert_eq!(a.wait, 3);
}

#[test]
fn byte_source_step_totals() {
    let bytes = vec![b'H', b'I'];
    let a = Animation::new(AnimationData::Bytes(&bytes), AnimationEffect::Slide, 10, 0).unwrap();
    assert_eq!(a.length, 10);
    let a = Animation::new(AnimationData::Bytes(&bytes), AnimationEffect::NoEffect, 2, 0).unwrap();
    assert_eq!(a.length, 2);
}

#[test]
fn exactly_length_applies_before_done() {
    let frames = vec![
        frame(uniform_rows([1, 2, 3, 4, 5])),
        frame(uniform_rows([6, 7, 8, 9, 10])),
    ];
    let mut a =
        Animation::new(AnimationData::Frames(&frames), AnimationEffect::Slide, 10, 0).unwrap();
    assert_eq!(a.length, 10);
    let mut applies = 0u64;
    let mut waits = 0u64;
    let mut t = 0u64;
    loop {
        match a.next(t) {
            AnimationState::Apply(_) => applies += 1,
            AnimationState::Wait => {
                waits += 1;
                t += 1;
            }
            AnimationState::Done => break,
        }
    }
    assert_eq!(applies, 10);
    assert!(waits > 0);
}

#[test]
fn early_poll_waits_without_advancing() {
    let frames = vec![frame(uniform_rows([1, 2, 3, 4, 5]))];
    let mut a =
        Animation::new(AnimationData::Frames(&frames), AnimationEffect::NoEffect, 4, 100).unwrap();
    assert_eq!(a.next, 100);
    for t in 0..100 {
        assert_eq!(a.next(t), AnimationState::Wait);
        assert_eq!(a.frame_index, 0);
        assert_eq!(a.sequence, 0);
        assert_eq!(a.index, 0);
        assert_eq!(a.next, 100);
    }
}

#[test]
fn wait_polls_between_steps_do_not_advance() {
    let frames = vec![
        frame(uniform_rows([1, 2, 3, 4, 5])),
        frame(uniform_rows([6, 7, 8, 9, 10])),
    ];
    let mut a =
        Animation::new(AnimationData::Frames(&frames), AnimationEffect::Slide, 100, 0).unwrap();
    assert_eq!(a.wait, 10);
    assert!(matches!(a.next(0), AnimationState::Apply(_)));
    let (fi, seq, idx) = (a.frame_index, a.sequence, a.index);
    for t in 1..10 {
        assert_eq!(a.next(t), AnimationState::Wait);
        assert_eq!((a.frame_index, a.sequence, a.index), (fi, seq, idx));
    }
    assert!(matches!(a.next(10), AnimationState::Apply(_)));
}

#[test]
fn single_frame_no_effect_applies_then_done() {
    let rows = [
        [0, 0, 1, 0, 0],
        [0, 1, 0, 1, 0],
        [1, 0, 0, 0, 1],
        [0, 1, 0, 1, 0],
        [0, 0, 1, 0, 0],
    ];
    let source = frame(rows);
    let frames = vec![frame(rows)];
    let mut a =
        Animation::new(AnimationData::Frames(&frames), AnimationEffect::NoEffect, 1, 0).unwrap();
    assert_eq!(a.length, 1);
    assert_eq!(a.wait, 1);
    match a.next(0) {
        AnimationState::Apply(f) => assert_eq!(f, source),
        other => panic!("expected Apply, got {:?}", other),
    }
    assert_eq!(a.next(1), AnimationState::Done);
    assert_eq!(a.next(50), AnimationState::Done);
}

#[test]
fn slide_two_frames_scenario() {
    let f0 = uniform_rows([1, 2, 3, 4, 5]);
    let f1 = uniform_rows([6, 7, 8, 9, 10]);
    let frames = vec![frame(f0), frame(f1)];
    let mut a =
        Animation::new(AnimationData::Frames(&frames), AnimationEffect::Slide, 10, 0).unwrap();
    let mut shown = Vec::new();
    let mut t = 0u64;
    loop {
        match a.next(t) {
            AnimationState::Apply(f) => shown.push(f),
            AnimationState::Wait => t += 1,
            AnimationState::Done => break,
        }
        if shown.len() == 5 {
            // The first transition is complete: the counters have moved on
            // to the second source frame.
            assert_eq!(a.frame_index, 1);
            assert_eq!(a.sequence, 0);
        }
    }
    assert_eq!(shown.len(), 10);
    // First step: frame 0 shifted by nothing, merged with an all-off frame.
    assert_eq!(shown[0], frame(f0));
    // Midpoint of the transition (two columns shifted out): frame 0 shifted
    // left by two merged with frame 1 shifted right by three; the lit bands
    // are disjoint, so the merge is the union of both.
    assert_eq!(shown[2], frame(uniform_rows([3, 4, 5, 6, 7])));
    // After the reset the second frame is shown whole, then slides out with
    // nothing sliding in.
    assert_eq!(shown[5], frame(f1));
    assert_eq!(shown[9], frame(uniform_rows([10, 0, 0, 0, 0])));
}

#[test]
fn no_effect_multi_frame_schedule() {
    // Without an effect the engine holds the first source frame while the
    // intra-slot counter runs, then advances one source frame per step.
    let f0 = uniform_rows([1, 1, 1, 1, 1]);
    let f1 = uniform_rows([2, 2, 2, 2, 2]);
    let f2 = uniform_rows([3, 3, 3, 3, 3]);
    let frames = vec![frame(f0), frame(f1), frame(f2)];
    let mut a =
        Animation::new(AnimationData::Frames(&frames), AnimationEffect::NoEffect, 3, 0).unwrap();
    let mut shown = Vec::new();
    let mut t = 0u64;
    loop {
        match a.next(t) {
            AnimationState::Apply(f) => shown.push(f),
            AnimationState::Wait => t += 1,
            AnimationState::Done => break,
        }
    }
    assert_eq!(shown.len(), 3);
    assert_eq!(shown[0], frame(f0));
    assert_eq!(shown[1], frame(f0));
    assert_eq!(shown[2], frame(f0));
}

#[test]
fn shift_zero_is_identity() {
    let rows = [
        [1, 2, 3, 4, 5],
        [0, 0, 0, 0, 0],
        [9, 8, 7, 6, 5],
        [0, 1, 0, 1, 0],
        [5, 5, 5, 5, 5],
    ];
    let mut f = frame(rows);
    Animation::shift(&mut f, 0);
    assert_eq!(f, frame(rows));
}

#[test]
fn shift_left_discards_and_zero_fills() {
    let mut f = frame(uniform_rows([1, 2, 3, 4, 5]));
    Animation::shift(&mut f, -2);
    assert_eq!(f, frame(uniform_rows([3, 4, 5, 0, 0])));
}

#[test]
fn shift_right_discards_and_zero_fills() {
    let mut f = frame(uniform_rows([1, 2, 3, 4, 5]));
    Animation::shift(&mut f, 3);
    assert_eq!(f, frame(uniform_rows([0, 0, 0, 1, 2])));
}

#[test]
fn shift_past_width_blanks_the_frame() {
    let mut f = frame(uniform_rows([1, 2, 3, 4, 5]));
    Animation::shift(&mut f, 5);
    assert_eq!(f, Frame::blank(5, 5));
    let mut f = frame(uniform_rows([1, 2, 3, 4, 5]));
    Animation::shift(&mut f, -7);
    assert_eq!(f, Frame::blank(5, 5));
}

#[test]
fn merge_of_disjoint_frames_is_their_union() {
    let a_rows = uniform_rows([1, 0, 2, 0, 3]);
    let b_rows = uniform_rows([0, 4, 0, 5, 0]);
    let mut f = frame(a_rows);
    Animation::merge(&mut f, &frame(b_rows));
    assert_eq!(f, frame(uniform_rows([1, 4, 2, 5, 3])));
}

#[test]
fn merge_with_blank_returns_original() {
    let rows = [
        [1, 2, 3, 4, 5],
        [5, 4, 3, 2, 1],
        [0, 0, 9, 0, 0],
        [7, 0, 0, 0, 7],
        [1, 1, 1, 1, 1],
    ];
    let mut f = frame(rows);
    Animation::merge(&mut f, &Frame::blank(5, 5));
    assert_eq!(f, frame(rows));
}

#[test]
fn merge_takes_pointwise_maximum() {
    let mut f = frame(uniform_rows([1, 5, 3, 0, 9]));
    Animation::merge(&mut f, &frame(uniform_rows([2, 4, 3, 1, 0])));
    assert_eq!(f, frame(uniform_rows([2, 5, 3, 1, 9])));
}

#[test]
fn byte_backed_animation_shows_glyphs() {
    let bytes = vec![b'A'];
    let mut a =
        Animation::new(AnimationData::Bytes(&bytes), AnimationEffect::NoEffect, 1, 0).unwrap();
    let expected = ascii_frame(b'A').try_5x5(5, 5).unwrap();
    match a.next(0) {
        AnimationState::Apply(f) => assert_eq!(f, expected),
        other => panic!("expected Apply, got {:?}", other),
    }
    assert_eq!(a.next(1), AnimationState::Done);
}

#[test]
fn byte_backed_slide_scrolls_glyphs() {
    let bytes = vec![b'H', b'I'];
    let mut a =
        Animation::new(AnimationData::Bytes(&bytes), AnimationEffect::Slide, 10, 0).unwrap();
    let mut shown = Vec::new();
    let mut t = 0u64;
    loop {
        match a.next(t) {
            AnimationState::Apply(f) => shown.push(f),
            AnimationState::Wait => t += 1,
            AnimationState::Done => break,
        }
    }
    assert_eq!(shown.len(), 10);
    let h = ascii_frame(b'H').try_5x5(5, 5).unwrap();
    let i = ascii_frame(b'I').try_5x5(5, 5).unwrap();
    // The first step shows the first glyph whole, the sixth the second.
    assert_eq!(shown[0], h);
    assert_eq!(shown[5], i);
    // One column into the transition: the merge of both shifted glyphs.
    let mut left = h.copy_of();
    Animation::shift(&mut left, -1);
    let mut right = i.copy_of();
    Animation::shift(&mut right, 4);
    Animation::merge(&mut left, &right);
    assert_eq!(shown[1], left);
}

#[test]
fn data_len_and_frame_resolution() {
    let frames = vec![frame(uniform_rows([1, 2, 3, 4, 5]))];
    let data = AnimationData::Frames(&frames);
    assert_eq!(data.len(), 1);
    assert_eq!(data.frame(0), frames[0]);
    let bytes = vec![b'x', b'y', b'z'];
    let data = AnimationData::Bytes(&bytes);
    assert_eq!(data.len(), 3);
    let expected = led_matrix::ascii_frame(b'y').try_5x5(5, 5).unwrap();
    assert_eq!(data.frame(1), expected);
}
