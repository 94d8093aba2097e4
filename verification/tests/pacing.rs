use libmemetendo::util::pacing::{frame_pacing, Pacing, PacingAction};

#[test]
fn frame_with_time_to_spare_is_shown_after_sleep() {
    let (next, action) = frame_pacing(Pacing::new(), 1_000, 3);
    assert_eq!(action, PacingAction::Present { sleep: true, resync: false });
    assert_eq!(
        next,
        Pacing { skipped_frames: 0, frame_counter: 1, unskipped_frame_counter: 1 }
    );
}

#[test]
fn late_frames_are_skipped_up_to_the_limit() {
    let mut pacing = Pacing::new();
    for skipped in 1..=2 {
        let (next, action) = frame_pacing(pacing, 0, 2);
        assert_eq!(action, PacingAction::SkipNext);
        assert_eq!(next.skipped_frames, skipped);
        assert!(next.is_skipping());
        pacing = next;
    }
    let (next, action) = frame_pacing(pacing, 0, 2);
    assert_eq!(action, PacingAction::Present { sleep: false, resync: true });
    assert_eq!(
        next,
        Pacing { skipped_frames: 0, frame_counter: 3, unskipped_frame_counter: 1 }
    );
}

#[test]
fn catching_up_at_the_limit_still_resyncs() {
    let pacing = Pacing { skipped_frames: 3, frame_counter: 5, unskipped_frame_counter: 2 };
    let (next, action) = frame_pacing(pacing, 10, 3);
    assert_eq!(action, PacingAction::Present { sleep: true, resync: true });
    assert_eq!(next.frame_counter, 6);
    assert_eq!(next.unskipped_frame_counter, 2);
}

#[test]
fn no_skipping_allowed_shows_every_frame() {
    let (next, action) = frame_pacing(Pacing::new(), 0, 0);
    assert_eq!(action, PacingAction::Present { sleep: false, resync: true });
    assert_eq!(next.skipped_frames, 0);
}

#[test]
fn counters_wrap_at_the_top() {
    let pacing =
        Pacing { skipped_frames: 0, frame_counter: u32::MAX, unskipped_frame_counter: u32::MAX };
    let (next, _) = frame_pacing(pacing, 1, 3);
    assert_eq!((next.frame_counter, next.unskipped_frame_counter), (0, 0));
}
