//! The game session: phase, score and spawner, advanced one frame at a
//! time.
//!
//! `Session::step` is the whole decision logic of one frame. The driver
//! samples its collaborators (clock, input, assets, physics events) into
//! a `FrameInput`, hands it in together with the frame's tag table and
//! the random source, and carries the returned `FrameActions` out to the
//! physics, render and audio collaborators. Within a frame the systems
//! keep a fixed order: spawner, then bird input, then collision
//! classification, then score and phase update.

use crate::bird::FLAP_VELOCITY_Y;
use crate::classify::OverlapEvent;
use crate::classify::Outcome;
use crate::classify::TagTable;
use crate::classify::classify;
use crate::classify::spec_any_fatal;
use crate::classify::spec_pass_count;
use crate::phase::Phase;
use crate::phase::PhaseEvent;
use crate::phase::phase_step;
use crate::rng::GapRng;
use crate::score::Score;
use crate::score::after_increments;
use crate::spawner::FIRST_SPAWN_X;
use crate::spawner::PipeSet;
use crate::spawner::SPAWN_PERIOD_MS;
use crate::spawner::SPAWN_X;
use crate::spawner::Spawner;
use crate::spawner::spawn_pipe_set;
use vstd::prelude::*;

verus! {

/// Everything the driver sampled for one frame.
pub struct FrameInput {
    /// The asset collaborator reports readiness (gates Loading).
    pub assets_ready: bool,
    /// The primary action button is held this frame.
    pub action_held: bool,
    /// Wall-clock time since the previous frame, in milliseconds.
    pub elapsed_ms: u64,
    /// The frame's drained overlap events, in the collaborator's order.
    pub events: Vec<OverlapEvent>,
}

/// What the driver must carry out after one frame.
#[derive(Clone, Copy, Debug)]
pub struct FrameActions {
    /// Tear the previous session's entities down and spawn a fresh scene:
    /// bird at its starting position, ground, scoreboard.
    pub reset_scene: bool,
    /// Hand this obstacle set to the physics and render collaborators.
    pub spawn: Option<PipeSet>,
    /// Override the bird's vertical velocity with this value.
    pub set_bird_velocity: Option<i32>,
    /// Play the collision sound and display the game-over marker.
    pub fatal_hit: bool,
    /// How many passes were scored: play the score sound and refresh the
    /// scoreboard once per pass.
    pub passes: usize,
}

impl FrameActions {
    /// Nothing to carry out.
    pub open spec fn is_idle(self) -> bool {
        &&& !self.reset_scene
        &&& self.spawn is None
        &&& self.set_bird_velocity is None
        &&& !self.fatal_hit
        &&& self.passes == 0
    }

    fn idle() -> (a: FrameActions)
        ensures
            a.is_idle(),
    {
        FrameActions {
            reset_scene: false,
            spawn: None,
            set_bird_velocity: None,
            fatal_hit: false,
            passes: 0,
        }
    }
}

/// The cross-frame state of the game.
#[derive(Clone, Copy, Debug)]
pub struct Session {
    pub phase: Phase,
    pub score: Score,
    pub spawner: Spawner,
}

impl Session {
    pub open spec fn wf(self) -> bool {
        self.spawner.wf()
    }

    /// A fresh game, waiting for assets.
    pub fn new() -> (s: Session)
        ensures
            s.wf(),
            s.phase is Loading,
            s.score.value == 0,
    {
        Session { phase: Phase::Loading, score: Score::new(), spawner: Spawner::new() }
    }

    /// One frame of the game's decision logic.
    pub fn step(&mut self, input: &FrameInput, table: &TagTable, rng: &mut GapRng) -> (acts:
        FrameActions)
        requires
            old(self).wf(),
        ensures
            final(self).wf(),
            // Loading waits for the asset collaborator; nothing else moves.
            old(self).phase is Loading ==> ({
                &&& final(self).phase == (if input.assets_ready {
                    Phase::Start
                } else {
                    Phase::Loading
                })
                &&& final(self).score == old(self).score
                &&& final(self).spawner == old(self).spawner
                &&& acts.is_idle()
            }),
            // Start and GameOver are input-gated; without the button held
            // the frame is a no-op.
            (old(self).phase is Start || old(self).phase is GameOver) && !input.action_held ==> ({
                &&& final(self).phase == old(self).phase
                &&& final(self).score == old(self).score
                &&& final(self).spawner == old(self).spawner
                &&& acts.is_idle()
            }),
            // Holding the button in Start or GameOver begins a fresh play
            // session: score zero, a fresh countdown, a fresh scene, and
            // the session's first obstacle set.
            (old(self).phase is Start || old(self).phase is GameOver) && input.action_held ==> ({
                &&& final(self).phase is Playing
                &&& final(self).score.value == 0
                &&& final(self).spawner.timer.period_ms == SPAWN_PERIOD_MS
                &&& final(self).spawner.timer.remaining_ms == SPAWN_PERIOD_MS
                &&& acts.reset_scene
                &&& (acts.spawn matches Some(p) && p.wf() && p.x == FIRST_SPAWN_X)
                &&& acts.set_bird_velocity is None
                &&& !acts.fatal_hit
                &&& acts.passes == 0
            }),
            // One Playing frame: the spawner advances and fires exactly on
            // its period; a held button flaps; the frame's overlap events
            // decide score and phase.
            old(self).phase is Playing ==> ({
                &&& final(self).spawner.timer == old(self).spawner.timer.spec_step(input.elapsed_ms)
                &&& (acts.spawn is Some <==> old(self).spawner.timer.spec_fires(input.elapsed_ms))
                &&& (acts.spawn matches Some(p) ==> p.wf() && p.x == SPAWN_X)
                &&& acts.set_bird_velocity == (if input.action_held {
                    Some(FLAP_VELOCITY_Y)
                } else {
                    None::<i32>
                })
                &&& final(self).phase == (if spec_any_fatal(table.tags(), input.events@) {
                    Phase::GameOver
                } else {
                    Phase::Playing
                })
                &&& acts.fatal_hit == spec_any_fatal(table.tags(), input.events@)
                &&& final(self).score.value == after_increments(
                    old(self).score.value,
                    spec_pass_count(table.tags(), input.events@),
                )
                &&& acts.passes == spec_pass_count(table.tags(), input.events@)
                &&& !acts.reset_scene
            }),
    {
        match self.phase {
            Phase::Loading => {
                if input.assets_ready {
                    self.phase = phase_step(self.phase, PhaseEvent::AssetsReady);
                }
                FrameActions::idle()
            },
            Phase::Start | Phase::GameOver => {
                if input.action_held {
                    self.phase = phase_step(self.phase, PhaseEvent::ActionInput);
                    self.score.reset();
                    self.spawner = Spawner::new();
                    let first_set = spawn_pipe_set(FIRST_SPAWN_X, rng);
                    FrameActions {
                        reset_scene: true,
                        spawn: Some(first_set),
                        set_bird_velocity: None,
                        fatal_hit: false,
                        passes: 0,
                    }
                } else {
                    FrameActions::idle()
                }
            },
            Phase::Playing => {
                let spawn = self.spawner.tick(input.elapsed_ms, rng);
                let set_bird_velocity = if input.action_held {
                    Some(FLAP_VELOCITY_Y)
                } else {
                    None
                };
                let ghost entries = table.tags();
                let ghost evs = input.events@;
                let ghost score0 = self.score.value;
                let ghost spawner1 = self.spawner;
                let ghost phase1 = self.phase;
                let n = input.events.len();
                let mut passes: usize = 0;
                let mut fatal = false;
                let mut i: usize = 0;
                assert(evs.subrange(0, n as int) =~= evs);
                while i < n
                    invariant
                        i <= n,
                        n == input.events.len(),
                        evs == input.events@,
                        entries == table.tags(),
                        passes <= i,
                        self.phase == phase1,
                        self.spawner == spawner1,
                        spec_any_fatal(entries, evs) == (fatal || spec_any_fatal(
                            entries,
                            evs.subrange(i as int, n as int),
                        )),
                        spec_pass_count(entries, evs) == passes + spec_pass_count(
                            entries,
                            evs.subrange(i as int, n as int),
                        ),
                        self.score.value == after_increments(score0, passes as nat),
                    decreases n - i,
                {
                    let ev = input.events[i];
                    proof {
                        assert(evs.subrange(i as int, n as int)[0] == evs[i as int]);
                        assert(evs.subrange(i as int, n as int).drop_first() =~= evs.subrange(
                            i as int + 1,
                            n as int,
                        ));
                    }
                    let outcome = classify(table, &ev);
                    match outcome {
                        Some(Outcome::FatalHit) => {
                            fatal = true;
                        },
                        Some(Outcome::Pass) => {
                            self.score.increment();
                            passes = passes + 1;
                        },
                        None => {},
                    }
                    i = i + 1;
                }
                assert(evs.subrange(n as int, n as int) =~= Seq::<OverlapEvent>::empty());
                if fatal {
                    self.phase = phase_step(self.phase, PhaseEvent::FatalHit);
                }
                FrameActions {
                    reset_scene: false,
                    spawn,
                    set_bird_velocity,
                    fatal_hit: fatal,
                    passes,
                }
            },
        }
    }
}

} // verus!
