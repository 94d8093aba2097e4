use vstd::prelude::*;

verus! {

/// Where a front end's frame pacing stands: the frames skipped since the last one shown, and
/// the frames emulated and shown since its counters were last cleared.
#[derive(Debug, Copy, Clone, PartialEq, Eq, Structural)]
pub struct Pacing {
    pub skipped_frames: u32,
    pub frame_counter: u32,
    pub unskipped_frame_counter: u32,
}

/// What a front end does once a frame has been emulated.
#[derive(Debug, Copy, Clone, PartialEq, Eq, Structural)]
pub enum PacingAction {
    /// Show the frame, first sleeping out the time left until it is due when `sleep` is set;
    /// with `resync`, the schedule restarts from now, as the emulation fell too far behind.
    Present { sleep: bool, resync: bool },
    /// Emulate the next frame without drawing it, to catch up.
    SkipNext,
}

impl Pacing {
    /// Nothing skipped or counted.
    pub fn new() -> (r: Pacing)
        ensures
            r == (Pacing { skipped_frames: 0, frame_counter: 0, unskipped_frame_counter: 0 }),
    {
        Pacing { skipped_frames: 0, frame_counter: 0, unskipped_frame_counter: 0 }
    }

    /// Whether the frame now being emulated is to be skipped (not drawn).
    pub fn is_skipping(&self) -> (r: bool)
        ensures
            r == (self.skipped_frames > 0),
    {
        self.skipped_frames > 0
    }
}

/// The pacing after a frame was emulated with `remaining_ns` nanoseconds left before it is
/// due, allowing at most `max_skip` skipped frames in a row; and what to do.
pub open spec fn frame_paced(state: Pacing, remaining_ns: u64, max_skip: u32) -> (Pacing, PacingAction) {
    let counted = Pacing {
        frame_counter: vstd::wrapping::u32_specs::wrapping_add(state.frame_counter, 1),
        unskipped_frame_counter: if state.skipped_frames == 0 {
            vstd::wrapping::u32_specs::wrapping_add(state.unskipped_frame_counter, 1)
        } else {
            state.unskipped_frame_counter
        },
        ..state
    };
    if remaining_ns > 0 {
        (
            Pacing { skipped_frames: 0, ..counted },
            PacingAction::Present { sleep: true, resync: state.skipped_frames >= max_skip },
        )
    } else if state.skipped_frames >= max_skip {
        (Pacing { skipped_frames: 0, ..counted }, PacingAction::Present { sleep: false, resync: true })
    } else {
        (Pacing { skipped_frames: (state.skipped_frames + 1) as u32, ..counted }, PacingAction::SkipNext)
    }
}

/// At most `max_skip` frames are skipped in a row.
pub proof fn lemma_skips_bounded(state: Pacing, remaining_ns: u64, max_skip: u32)
    requires
        state.skipped_frames <= max_skip,
    ensures
        frame_paced(state, remaining_ns, max_skip).0.skipped_frames <= max_skip,
{
}

/// Decides what follows a frame: a frame with time to spare is shown after a sleep; a late
/// one is skipped, unless `max_skip` frames were skipped in a row already, in which case it is
/// shown at once and the schedule restarts. The counters count every frame, and the frames
/// that were drawn, wrapping around at the top of `u32`.
pub fn frame_pacing(state: Pacing, remaining_ns: u64, max_skip: u32) -> (r: (Pacing, PacingAction))
    ensures
        r == frame_paced(state, remaining_ns, max_skip),
{
    let counted = Pacing {
        frame_counter: state.frame_counter.wrapping_add(1),
        unskipped_frame_counter: if state.skipped_frames == 0 {
            state.unskipped_frame_counter.wrapping_add(1)
        } else {
            state.unskipped_frame_counter
        },
        ..state
    };
    if remaining_ns > 0 {
        (
            Pacing { skipped_frames: 0, ..counted },
            PacingAction::Present { sleep: true, resync: state.skipped_frames >= max_skip },
        )
    } else if state.skipped_frames >= max_skip {
        (Pacing { skipped_frames: 0, ..counted }, PacingAction::Present { sleep: false, resync: true })
    } else {
        (Pacing { skipped_frames: state.skipped_frames + 1, ..counted }, PacingAction::SkipNext)
    }
}

} // verus!
