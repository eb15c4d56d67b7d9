//! Obstacle spawner.
//!
//! On each firing of the spawn countdown the spawner draws a gap center
//! and a gap height uniformly from bounded ranges and derives the three
//! obstacle descriptors of a pipe set: upper pipe, lower pipe, and the
//! invisible gap sensor between them. All three share one horizontal
//! starting position and one constant leftward velocity.

use crate::rng::GapRng;
use crate::timer::SpawnTimer;
use vstd::prelude::*;

verus! {

/// Height of a pipe body, in world units.
pub const PIPE_HEIGHT: i32 = 320;

/// Half of `PIPE_HEIGHT`.
pub const HALF_PIPE_HEIGHT: i32 = 160;

/// Horizontal position where a mid-session pipe set enters: the
/// playfield's right edge.
pub const SPAWN_X: i32 = 500;

/// Horizontal position of the first pipe set of a play session.
pub const FIRST_SPAWN_X: i32 = 300;

/// Constant leftward velocity shared by every spawned obstacle.
pub const PIPE_SPEED_X: i32 = -100;

/// Inclusive lower bound of the gap's randomized vertical center.
pub const GAP_CENTER_MIN: i32 = -100;

/// Inclusive upper bound of the gap's randomized vertical center.
pub const GAP_CENTER_MAX: i32 = 100;

/// Inclusive lower bound of the gap's randomized height.
pub const GAP_HEIGHT_MIN: i32 = 80;

/// Inclusive upper bound of the gap's randomized height.
pub const GAP_HEIGHT_MAX: i32 = 150;

/// Milliseconds between obstacle spawns.
pub const SPAWN_PERIOD_MS: u64 = 1500;

/// Vertical position of the upper pipe: the pipe's center stands half a
/// gap plus half a pipe above the gap center.
pub open spec fn spec_upper_pipe_y(gap_center: int, gap_height: int) -> int {
    gap_center - gap_height / 2 - HALF_PIPE_HEIGHT
}

/// Vertical position of the lower pipe, mirror of the upper one.
pub open spec fn spec_lower_pipe_y(gap_center: int, gap_height: int) -> int {
    gap_center + gap_height / 2 + HALF_PIPE_HEIGHT
}

/// Descriptors for one spawned obstacle set: an upper pipe, a lower pipe
/// and the gap sensor between them.
#[derive(Clone, Copy, Debug, PartialEq, Eq, Structural)]
pub struct PipeSet {
    /// Shared horizontal starting position of all three bodies.
    pub x: i32,
    /// Shared horizontal velocity of all three bodies.
    pub velocity_x: i32,
    /// Vertical center of the gap (and of its sensor volume).
    pub gap_center: i32,
    /// Vertical extent of the gap (and of its sensor volume).
    pub gap_height: i32,
    /// Vertical position of the upper pipe's center.
    pub upper_pipe_y: i32,
    /// Vertical position of the lower pipe's center.
    pub lower_pipe_y: i32,
}

impl PipeSet {
    /// A pipe set the spawner can produce: the gap lies within the
    /// configured ranges, the obstacles move at the configured speed, and
    /// both pipes stand exactly clear of the gap.
    pub open spec fn wf(self) -> bool {
        &&& GAP_CENTER_MIN <= self.gap_center <= GAP_CENTER_MAX
        &&& GAP_HEIGHT_MIN <= self.gap_height <= GAP_HEIGHT_MAX
        &&& self.velocity_x == PIPE_SPEED_X
        &&& self.upper_pipe_y == spec_upper_pipe_y(self.gap_center as int, self.gap_height as int)
        &&& self.lower_pipe_y == spec_lower_pipe_y(self.gap_center as int, self.gap_height as int)
    }
}

/// The vertical positions of the two pipes enclosing a gap.
pub fn pipe_positions(gap_center: i32, gap_height: i32) -> (r: (i32, i32))
    requires
        -100000 <= gap_center <= 100000,
        0 <= gap_height <= 100000,
    ensures
        r.0 == spec_upper_pipe_y(gap_center as int, gap_height as int),
        r.1 == spec_lower_pipe_y(gap_center as int, gap_height as int),
{
    let half_gap: i32 = gap_height / 2;
    (gap_center - half_gap - HALF_PIPE_HEIGHT, gap_center + half_gap + HALF_PIPE_HEIGHT)
}

/// One obstacle set with a freshly drawn gap, entering at `x`.
pub fn spawn_pipe_set(x: i32, rng: &mut GapRng) -> (p: PipeSet)
    ensures
        p.wf(),
        p.x == x,
{
    let gap_center = rng.draw(GAP_CENTER_MIN, GAP_CENTER_MAX);
    let gap_height = rng.draw(GAP_HEIGHT_MIN, GAP_HEIGHT_MAX);
    let positions = pipe_positions(gap_center, gap_height);
    PipeSet {
        x,
        velocity_x: PIPE_SPEED_X,
        gap_center,
        gap_height,
        upper_pipe_y: positions.0,
        lower_pipe_y: positions.1,
    }
}

/// The periodic obstacle spawner: a repeating countdown plus the rule for
/// the obstacle set it emits on each firing.
#[derive(Clone, Copy, Debug, PartialEq, Eq, Structural)]
pub struct Spawner {
    pub timer: SpawnTimer,
}

impl Spawner {
    pub open spec fn wf(self) -> bool {
        self.timer.wf()
    }

    /// A fresh spawner whose countdown starts at the full spawn period.
    pub fn new() -> (s: Spawner)
        ensures
            s.wf(),
            s.timer.period_ms == SPAWN_PERIOD_MS,
            s.timer.remaining_ms == SPAWN_PERIOD_MS,
    {
        Spawner { timer: SpawnTimer::new(SPAWN_PERIOD_MS) }
    }

    /// Advance the countdown by the frame's elapsed time; exactly on a
    /// firing, produce the next obstacle set at the playfield's right edge.
    pub fn tick(&mut self, elapsed_ms: u64, rng: &mut GapRng) -> (r: Option<PipeSet>)
        requires
            old(self).wf(),
        ensures
            final(self).wf(),
            final(self).timer == old(self).timer.spec_step(elapsed_ms),
            r is Some <==> old(self).timer.spec_fires(elapsed_ms),
            r matches Some(p) ==> p.wf() && p.x == SPAWN_X,
    {
        let fired = self.timer.tick(elapsed_ms);
        if fired {
            Some(spawn_pipe_set(SPAWN_X, rng))
        } else {
            None
        }
    }
}

/// For every gap the spawner can produce, the pipe positions follow the
/// gap exactly: each pipe's center stands half a gap plus half a pipe
/// away from the gap center, so the pipes' near edges touch the gap's
/// edges and never overlap the gap.
pub proof fn lemma_pipes_clear_gap(p: PipeSet)
    requires
        p.wf(),
    ensures
        p.upper_pipe_y == p.gap_center - p.gap_height / 2 - PIPE_HEIGHT / 2,
        p.lower_pipe_y == p.gap_center + p.gap_height / 2 + PIPE_HEIGHT / 2,
        p.upper_pipe_y + HALF_PIPE_HEIGHT == p.gap_center - p.gap_height / 2,
        p.lower_pipe_y - HALF_PIPE_HEIGHT == p.gap_center + p.gap_height / 2,
{
}

} // verus!
