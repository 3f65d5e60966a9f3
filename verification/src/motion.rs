//! The foreground quad that moves a step to the left with every frame
//! and starts over after a fixed number of frames.

use crate::binder::Vertex;
use vstd::prelude::*;

verus! {

/// After this many frames the quad is where it began.
pub const PERIOD: u32 = 100;

/// The position that follows `position`.
pub open spec fn next_position(position: nat) -> nat {
    (position + 1) % (PERIOD as nat)
}

/// The position after `frames` frames, from `start`.
pub open spec fn position_after(start: nat, frames: nat) -> nat
    decreases frames,
{
    if frames == 0 {
        start
    } else {
        next_position(position_after(start, (frames - 1) as nat))
    }
}

/// The horizontal offset at `position`, in hundredths of a unit: one
/// hundredth to the left for each step.
pub open spec fn offset_at(position: nat) -> int {
    -(position as int)
}

/// The four corners of the quad at `position`, counter-clockwise from
/// the upper left, half a unit wide and high, in hundredths.
pub open spec fn quad_at(position: nat) -> Seq<Vertex> {
    let left = offset_at(position) as i32;
    let right = (offset_at(position) + 50) as i32;
    seq![
        Vertex { x: left, y: -20i32, z: 50, u: 0, v: 0 },
        Vertex { x: left, y: -70i32, z: 50, u: 0, v: 100 },
        Vertex { x: right, y: -70i32, z: 50, u: 100, v: 100 },
        Vertex { x: right, y: -20i32, z: 50, u: 100, v: 0 },
    ]
}

/// The moving quad: a position counter below [`PERIOD`].
#[derive(Clone, Copy, Debug, PartialEq, Eq)]
pub struct MovingQuad {
    position: u32,
}

impl View for MovingQuad {
    type V = nat;

    closed spec fn view(&self) -> nat {
        self.position as nat
    }
}

impl MovingQuad {
    #[verifier::type_invariant]
    spec fn in_period(self) -> bool {
        self.position < PERIOD
    }

    /// The quad at its start.
    pub fn new() -> (quad: MovingQuad)
        ensures
            quad@ == 0,
    {
        MovingQuad { position: 0 }
    }

    /// One step on.
    pub fn advance(&mut self)
        ensures
            final(self)@ == next_position(old(self)@),
            final(self)@ < PERIOD,
    {
        proof {
            use_type_invariant(&*self);
        }
        self.position = (self.position + 1) % PERIOD;
    }

    /// The position: how many steps the quad is from its start.
    pub fn position(&self) -> (position: u32)
        ensures
            position == self@,
            position < PERIOD,
    {
        proof {
            use_type_invariant(self);
        }
        self.position
    }

    /// The horizontal offset in hundredths of a unit.
    pub fn x_offset(&self) -> (offset: i32)
        ensures
            offset == offset_at(self@),
    {
        proof {
            use_type_invariant(self);
        }
        let offset: i32 = 0 - self.position as i32;
        offset
    }

    /// The four corners of the quad where it is now.
    pub fn vertices(&self) -> (corners: Vec<Vertex>)
        ensures
            corners@ == quad_at(self@),
    {
        proof {
            use_type_invariant(self);
        }
        let left = self.x_offset();
        let right: i32 = left + 50;
        let mut corners: Vec<Vertex> = Vec::new();
        corners.push(Vertex { x: left, y: -20, z: 50, u: 0, v: 0 });
        corners.push(Vertex { x: left, y: -70, z: 50, u: 0, v: 100 });
        corners.push(Vertex { x: right, y: -70, z: 50, u: 100, v: 100 });
        corners.push(Vertex { x: right, y: -20, z: 50, u: 100, v: 0 });
        corners
    }
}

/// From the start, the position after `frames` frames is `frames`
/// modulo the period, and the offset is that many hundredths to the
/// left.
pub proof fn position_is_frames_modulo_period(frames: nat)
    ensures
        position_after(0, frames) == frames % (PERIOD as nat),
        offset_at(position_after(0, frames)) == -((frames % (PERIOD as nat)) as int),
    decreases frames,
{
    if frames > 0 {
        position_is_frames_modulo_period((frames - 1) as nat);
    }
}

/// A full period of frames brings the quad back to where it was.
pub proof fn period_returns_to_start(start: nat)
    requires
        start < PERIOD,
    ensures
        position_after(start, PERIOD as nat) == start,
{
    steps_add_modulo_period(start, PERIOD as nat);
}

/// From any position within the period, `frames` frames lead to the
/// sum modulo the period.
pub proof fn steps_add_modulo_period(start: nat, frames: nat)
    requires
        start < PERIOD,
    ensures
        position_after(start, frames) == (start + frames) % (PERIOD as nat),
    decreases frames,
{
    if frames > 0 {
        steps_add_modulo_period(start, (frames - 1) as nat);
    }
}

} // verus!
