//! Game phase machine.
//!
//! Loading waits for the asset collaborator; Start and GameOver wait for
//! the action button; Playing is the only phase in which the spawner, the
//! bird controller and the collision classifier run, and only a fatal hit
//! leaves it.

use vstd::prelude::*;

verus! {

/// The process-wide game phase.
#[derive(Clone, Copy, Debug, PartialEq, Eq, Structural)]
pub enum Phase {
    Loading,
    Start,
    Playing,
    GameOver,
}

/// An event the phase machine reacts to.
#[derive(Clone, Copy, Debug, PartialEq, Eq, Structural)]
pub enum PhaseEvent {
    /// The asset collaborator reports readiness.
    AssetsReady,
    /// The primary action button is held this frame.
    ActionInput,
    /// The classifier reports the bird touching a pipe.
    FatalHit,
}

/// The complete transition relation: any pairing not listed leaves the
/// phase unchanged.
pub open spec fn spec_phase_step(p: Phase, e: PhaseEvent) -> Phase {
    match (p, e) {
        (Phase::Loading, PhaseEvent::AssetsReady) => Phase::Start,
        (Phase::Start, PhaseEvent::ActionInput) => Phase::Playing,
        (Phase::Playing, PhaseEvent::FatalHit) => Phase::GameOver,
        (Phase::GameOver, PhaseEvent::ActionInput) => Phase::Playing,
        _ => p,
    }
}

pub fn phase_step(p: Phase, e: PhaseEvent) -> (q: Phase)
    ensures
        q == spec_phase_step(p, e),
{
    match (p, e) {
        (Phase::Loading, PhaseEvent::AssetsReady) => Phase::Start,
        (Phase::Start, PhaseEvent::ActionInput) => Phase::Playing,
        (Phase::Playing, PhaseEvent::FatalHit) => Phase::GameOver,
        (Phase::GameOver, PhaseEvent::ActionInput) => Phase::Playing,
        _ => p,
    }
}

/// The machine's transitions, each "always and only": from Start only
/// action input reaches Playing, from Playing only a fatal hit reaches
/// GameOver, from GameOver only action input reaches Playing, from
/// Loading only asset readiness reaches Start, and no other pairing
/// moves the machine at all.
pub proof fn lemma_phase_transitions(p: Phase, e: PhaseEvent)
    ensures
        spec_phase_step(Phase::Start, e) is Playing <==> e is ActionInput,
        spec_phase_step(Phase::Playing, e) is GameOver <==> e is FatalHit,
        spec_phase_step(Phase::GameOver, e) is Playing <==> e is ActionInput,
        spec_phase_step(Phase::Loading, e) is Start <==> e is AssetsReady,
        spec_phase_step(p, e) == p || (p is Loading && e is AssetsReady) || (p is Start
            && e is ActionInput) || (p is Playing && e is FatalHit) || (p is GameOver
            && e is ActionInput),
{
}

} // verus!
