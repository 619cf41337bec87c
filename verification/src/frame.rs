//! Which of the per-frame objects the next frame uses.

use vstd::prelude::*;

verus! {

/// How many frames may be in flight at once.
pub const IN_FLIGHT_FRAMES: usize = 2;

/// Walks through the command buffers and the in-flight fences, one step per
/// frame, each in a ring of its own.
#[derive(Debug, Clone, Copy, PartialEq, Eq, Structural)]
pub struct FrameCursor {
    frame_count: usize,
    cur_frame: usize,
    in_flight_frame: usize,
}

/// The position reached from `start` after `steps` frames in a ring of
/// `frames` places.
pub open spec fn walk(start: int, frames: int, steps: nat) -> int
    decreases steps,
{
    if steps == 0 {
        start
    } else {
        (walk(start, frames, (steps - 1) as nat) + 1) % frames
    }
}

impl FrameCursor {
    /// Both positions lie inside their rings.
    #[verifier::type_invariant]
    spec fn inside_rings(&self) -> bool {
        &&& self.cur_frame < self.frame_count
        &&& self.in_flight_frame < IN_FLIGHT_FRAMES
    }

    /// Number of command buffers, each with its pair of semaphores.
    pub closed spec fn frames(&self) -> usize {
        self.frame_count
    }

    /// Position of the command buffer and semaphores of the current frame.
    pub closed spec fn current(&self) -> usize {
        self.cur_frame
    }

    /// Position of the fence of the current frame.
    pub closed spec fn in_flight(&self) -> usize {
        self.in_flight_frame
    }

    /// A cursor at the start of both rings; none for an empty ring of
    /// command buffers.
    pub fn new(frame_count: usize) -> (r: Option<FrameCursor>)
        ensures
            r is Some <==> frame_count > 0,
            r matches Some(c) ==> {
                &&& c.frames() == frame_count
                &&& c.current() == 0
                &&& c.in_flight() == 0
            },
    {
        if frame_count == 0 {
            None
        } else {
            Some(FrameCursor { frame_count, cur_frame: 0, in_flight_frame: 0 })
        }
    }

    /// Position of the command buffer and semaphores of the current frame;
    /// it always names one of the command buffers.
    pub fn cur_frame(&self) -> (r: usize)
        ensures
            r == self.current(),
            r < self.frames(),
    {
        proof {
            use_type_invariant(self);
        }
        self.cur_frame
    }

    /// Position of the fence of the current frame; it always names one of
    /// the in-flight fences.
    pub fn in_flight_frame(&self) -> (r: usize)
        ensures
            r == self.in_flight(),
            r < IN_FLIGHT_FRAMES,
    {
        proof {
            use_type_invariant(self);
        }
        self.in_flight_frame
    }

    /// Moves to the next frame: each position goes one step round its ring.
    pub fn advance(&mut self)
        ensures
            final(self).frames() == old(self).frames(),
            final(self).current() == walk(old(self).current() as int, old(self).frames() as int, 1),
            final(self).in_flight() == walk(
                old(self).in_flight() as int,
                IN_FLIGHT_FRAMES as int,
                1,
            ),
    {
        proof {
            use_type_invariant(&*self);
            reveal_with_fuel(walk, 2);
        }
        self.cur_frame = (self.cur_frame + 1) % self.frame_count;
        self.in_flight_frame = (self.in_flight_frame + 1) % IN_FLIGHT_FRAMES;
    }
}

/// Stepping round the ring one frame at a time adds up: `steps` frames
/// after `start` the position is `start + steps`, reduced to the ring.
pub proof fn walk_adds_up(start: int, frames: int, steps: nat)
    requires
        frames > 0,
        0 <= start < frames,
    ensures
        walk(start, frames, steps) == (start + steps) % frames,
    decreases steps,
{
    if steps == 0 {
        assert(start % frames == start) by (nonlinear_arith)
            requires
                frames > 0,
                0 <= start < frames,
        ;
    } else {
        walk_adds_up(start, frames, (steps - 1) as nat);
        let before = walk(start, frames, (steps - 1) as nat);
        assert((before + 1) % frames == (start + steps) % frames) by (nonlinear_arith)
            requires
                frames > 0,
                before == (start + steps - 1) % frames,
        ;
    }
}

/// After as many frames as the ring has places, the position is back where
/// it started.
pub proof fn ring_returns(start: int, frames: int)
    requires
        frames > 0,
        0 <= start < frames,
    ensures
        walk(start, frames, frames as nat) == start,
{
    walk_adds_up(start, frames, frames as nat);
    assert((start + frames) % frames == start) by (nonlinear_arith)
        requires
            frames > 0,
            0 <= start < frames,
    ;
}

} // verus!
