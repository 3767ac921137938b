//! Frame arithmetic of looping sprite animations.
use vstd::prelude::*;

verus! {

/// The frame shown by an animation over frames `first..=last` kept in step
/// with the global clock, `total_frames_elapsed` frame durations after the
/// clock started.
pub fn synchronized_frame(first: usize, last: usize, total_frames_elapsed: usize) -> (f: usize)
    requires
        first <= last,
        last - first + 1 <= usize::MAX,
    ensures
        f == first + (total_frames_elapsed as int) % ((last - first + 1) as int),
        first <= f <= last,
{
    let frame_count = last - first + 1;
    let f = first + (total_frames_elapsed % frame_count);
    f
}

/// One timer tick: the next frame, wrapping to `first` for a looping
/// animation; `None` when a non-looping one is on its last frame.
pub open spec fn next_frame(current: nat, first: nat, last: nat, looping: bool) -> Option<nat> {
    if current >= last {
        if looping {
            Some(first)
        } else {
            None
        }
    } else {
        Some(current + 1)
    }
}

/// The frame after `ticks` timer ticks (a non-looping animation stops on
/// its last frame).
pub open spec fn frame_after(current: nat, first: nat, last: nat, looping: bool, ticks: nat) -> nat
    decreases ticks,
{
    if ticks == 0 {
        current
    } else {
        let prev = frame_after(current, first, last, looping, (ticks - 1) as nat);
        match next_frame(prev, first, last, looping) {
            Some(n) => n,
            None => prev,
        }
    }
}

/// Advances an animation that runs on its own timer by the `ticks` frame
/// durations that passed this update.
pub fn advance_frames(current: usize, first: usize, last: usize, looping: bool, ticks: u32) -> (f: usize)
    ensures
        f == frame_after(current as nat, first as nat, last as nat, looping, ticks as nat),
{
    let mut frame = current;
    let mut i: u32 = 0;
    while i < ticks
        invariant
            i <= ticks,
            frame == frame_after(current as nat, first as nat, last as nat, looping, i as nat),
        decreases ticks - i,
    {
        if frame >= last {
            if looping {
                frame = first;
            } else {
                proof {
                    lemma_stopped_stays(current as nat, first as nat, last as nat, i as nat, ticks as nat);
                }
                return frame;
            }
        } else {
            frame = frame + 1;
        }
        i = i + 1;
    }
    frame
}

proof fn lemma_stopped_stays(current: nat, first: nat, last: nat, i: nat, ticks: nat)
    requires
        i <= ticks,
        frame_after(current, first, last, false, i) >= last,
    ensures
        frame_after(current, first, last, false, ticks) == frame_after(current, first, last, false, i),
    decreases ticks - i,
{
    if i < ticks {
        lemma_stopped_stays(current, first, last, i, (ticks - 1) as nat);
    }
}

/// Law of the frame timer: an animation on a frame of its range stays in
/// its range however many ticks pass.
pub proof fn lemma_frames_stay_in_range(current: nat, first: nat, last: nat, looping: bool, ticks: nat)
    requires
        first <= current <= last,
    ensures
        first <= frame_after(current, first, last, looping, ticks) <= last,
    decreases ticks,
{
    if ticks > 0 {
        lemma_frames_stay_in_range(current, first, last, looping, (ticks - 1) as nat);
    }
}

} // verus!
