use yulaven::animation::{
    logo_frame, movement_clip, next_frame, FrameRange, PLAYER_FIREBALL_CAST_FIRST,
    PLAYER_FIREBALL_CAST_LAST, PLAYER_IDLE_LAST, PLAYER_RUN_FIRST, PLAYER_RUN_LAST,
};

#[test]
fn frames_loop_within_range() {
    let run = FrameRange { first: PLAYER_RUN_FIRST, last: PLAYER_RUN_LAST };
    assert_eq!(next_frame(12, run), 13);
    assert_eq!(next_frame(17, run), 12);
    assert_eq!(next_frame(3, run), 12);
    assert_eq!(next_frame(40, run), 12);
    let mut i = 14;
    for _ in 0..6 {
        i = next_frame(i, run);
    }
    assert_eq!(i, 14);
}

#[test]
fn movement_keeps_cast_clip() {
    let cast = FrameRange { first: PLAYER_FIREBALL_CAST_FIRST, last: PLAYER_FIREBALL_CAST_LAST };
    assert_eq!(movement_clip(cast, true, false), cast);
    assert_eq!(movement_clip(cast, true, true), FrameRange { first: 12, last: 17 });
    assert_eq!(movement_clip(cast, false, true), FrameRange { first: 0, last: PLAYER_IDLE_LAST });
}

#[test]
fn logo_plays_then_loops() {
    let frames: Vec<usize> = (0..14).map(logo_frame).collect();
    assert_eq!(frames, vec![0, 1, 2, 3, 4, 5, 6, 7, 5, 6, 7, 5, 6, 7]);
}
