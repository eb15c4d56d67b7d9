use flappy_core::bird::flap_velocity;
use flappy_core::bird::sprite_for_velocity;
use flappy_core::bird::BirdSprite;
use flappy_core::bird::FLAP_VELOCITY_Y;
use flappy_core::classify::EntityTag;
use flappy_core::classify::OverlapEvent;
use flappy_core::classify::OverlapKind;
use flappy_core::classify::TagTable;
use flappy_core::phase::phase_step;
use flappy_core::phase::Phase;
use flappy_core::phase::PhaseEvent;
use flappy_core::rng::GapRng;
use flappy_core::score::Score;
use flappy_core::session::FrameInput;
use flappy_core::session::Session;
use flappy_core::spawner::FIRST_SPAWN_X;
use flappy_core::spawner::SPAWN_X;

const BIRD: u64 = 1;
const PIPE: u64 = 2;
const PASSAGE: u64 = 3;

fn table() -> TagTable {
    let mut t = TagTable::new();
    t.insert(BIRD, EntityTag::Bird);
    t.insert(PIPE, EntityTag::Pipe);
    t.insert(PASSAGE, EntityTag::Passage);
    t
}

fn quiet_frame() -> FrameInput {
    FrameInput { assets_ready: true, action_held: false, elapsed_ms: 16, events: Vec::new() }
}

#[test]
fn score_counts_n_increments_and_resets() {
    let mut s = Score::new();
    for _ in 0..10 {
        s.increment();
    }
    assert_eq!(s.current(), 10);
    s.reset();
    assert_eq!(s.current(), 0);
}

#[test]
fn score_saturates_at_the_top() {
    let mut s = Score { value: u64::MAX };
    s.increment();
    assert_eq!(s.current(), u64::MAX);
    s.reset();
    assert_eq!(s.current(), 0);
}

#[test]
fn phase_machine_transitions() {
    assert_eq!(phase_step(Phase::Loading, PhaseEvent::AssetsReady), Phase::Start);
    assert_eq!(phase_step(Phase::Start, PhaseEvent::ActionInput), Phase::Playing);
    assert_eq!(phase_step(Phase::Playing, PhaseEvent::FatalHit), Phase::GameOver);
    assert_eq!(phase_step(Phase::GameOver, PhaseEvent::ActionInput), Phase::Playing);
    // No other pairing moves the machine.
    assert_eq!(phase_step(Phase::Loading, PhaseEvent::ActionInput), Phase::Loading);
    assert_eq!(phase_step(Phase::Loading, PhaseEvent::FatalHit), Phase::Loading);
    assert_eq!(phase_step(Phase::Start, PhaseEvent::AssetsReady), Phase::Start);
    assert_eq!(phase_step(Phase::Start, PhaseEvent::FatalHit), Phase::Start);
    assert_eq!(phase_step(Phase::Playing, PhaseEvent::ActionInput), Phase::Playing);
    assert_eq!(phase_step(Phase::Playing, PhaseEvent::AssetsReady), Phase::Playing);
    assert_eq!(phase_step(Phase::GameOver, PhaseEvent::AssetsReady), Phase::GameOver);
    assert_eq!(phase_step(Phase::GameOver, PhaseEvent::FatalHit), Phase::GameOver);
}

#[test]
fn bird_controller_flap_and_sprite() {
    assert_eq!(flap_velocity(true, -50), FLAP_VELOCITY_Y);
    assert_eq!(flap_velocity(false, -50), -50);
    assert_eq!(sprite_for_velocity(5), BirdSprite::Ascending);
    assert_eq!(sprite_for_velocity(0), BirdSprite::Level);
    assert_eq!(sprite_for_velocity(-3), BirdSprite::Descending);
}

#[test]
fn loading_waits_for_assets() {
    let mut rng = GapRng::from_seed(1);
    let mut s = Session::new();
    assert_eq!(s.phase, Phase::Loading);
    let mut input = quiet_frame();
    input.assets_ready = false;
    let acts = s.step(&input, &table(), &mut rng);
    assert_eq!(s.phase, Phase::Loading);
    assert!(!acts.reset_scene && acts.spawn.is_none());
    input.assets_ready = true;
    s.step(&input, &table(), &mut rng);
    assert_eq!(s.phase, Phase::Start);
}

#[test]
fn action_input_starts_a_session_with_first_pipes() {
    let mut rng = GapRng::from_seed(1);
    let mut s = Session::new();
    s.phase = Phase::Start;
    let mut input = quiet_frame();
    input.action_held = true;
    let acts = s.step(&input, &table(), &mut rng);
    assert_eq!(s.phase, Phase::Playing);
    assert_eq!(s.score.current(), 0);
    assert!(acts.reset_scene);
    let p = acts.spawn.expect("a session starts with one pipe set");
    assert_eq!(p.x, FIRST_SPAWN_X);
}

#[test]
fn fatal_hit_while_playing_ends_the_session() {
    // One overlap-begin of bird and pipe: GameOver, score untouched.
    let mut rng = GapRng::from_seed(1);
    let mut s = Session::new();
    s.phase = Phase::Playing;
    s.score.increment();
    s.score.increment();
    let mut input = quiet_frame();
    input.events = vec![OverlapEvent { kind: OverlapKind::Begin, first: BIRD, second: PIPE }];
    let acts = s.step(&input, &table(), &mut rng);
    assert_eq!(s.phase, Phase::GameOver);
    assert_eq!(s.score.current(), 2);
    assert!(acts.fatal_hit);
    assert_eq!(acts.passes, 0);
}

#[test]
fn three_passes_score_three() {
    let mut rng = GapRng::from_seed(1);
    let mut s = Session::new();
    s.phase = Phase::Playing;
    for _ in 0..3 {
        let mut input = quiet_frame();
        input.events = vec![OverlapEvent {
            kind: OverlapKind::End,
            first: BIRD,
            second: PASSAGE,
        }];
        let acts = s.step(&input, &table(), &mut rng);
        assert_eq!(acts.passes, 1);
        assert!(!acts.fatal_hit);
    }
    assert_eq!(s.phase, Phase::Playing);
    assert_eq!(s.score.current(), 3);
}

#[test]
fn restart_from_game_over_resets_score() {
    let mut rng = GapRng::from_seed(1);
    let mut s = Session::new();
    s.phase = Phase::GameOver;
    for _ in 0..5 {
        s.score.increment();
    }
    assert_eq!(s.score.current(), 5);
    let mut input = quiet_frame();
    input.action_held = true;
    let acts = s.step(&input, &table(), &mut rng);
    assert_eq!(s.phase, Phase::Playing);
    assert_eq!(s.score.current(), 0);
    assert!(acts.reset_scene);
    // Without the button held, GameOver stays put.
    let mut s2 = Session::new();
    s2.phase = Phase::GameOver;
    s2.step(&quiet_frame(), &table(), &mut rng);
    assert_eq!(s2.phase, Phase::GameOver);
}

#[test]
fn spawner_fires_each_period_while_playing() {
    let mut rng = GapRng::from_seed(9);
    let mut s = Session::new();
    s.phase = Phase::Playing;
    let mut spawned = 0;
    for _ in 0..200 {
        let mut input = quiet_frame();
        input.elapsed_ms = 16;
        let acts = s.step(&input, &table(), &mut rng);
        if let Some(p) = acts.spawn {
            assert_eq!(p.x, SPAWN_X);
            spawned += 1;
        }
    }
    // 200 frames of 16 ms are 3200 ms: the 1500 ms period fires twice.
    assert_eq!(spawned, 2);
}

#[test]
fn flap_action_is_passed_through_while_playing() {
    let mut rng = GapRng::from_seed(1);
    let mut s = Session::new();
    s.phase = Phase::Playing;
    let mut input = quiet_frame();
    input.action_held = true;
    let acts = s.step(&input, &table(), &mut rng);
    assert_eq!(acts.set_bird_velocity, Some(FLAP_VELOCITY_Y));
    let acts = s.step(&quiet_frame(), &table(), &mut rng);
    assert_eq!(acts.set_bird_velocity, None);
}

#[test]
fn pass_and_hit_in_one_frame_score_then_end() {
    let mut rng = GapRng::from_seed(1);
    let mut s = Session::new();
    s.phase = Phase::Playing;
    let mut input = quiet_frame();
    input.events = vec![
        OverlapEvent { kind: OverlapKind::End, first: BIRD, second: PASSAGE },
        OverlapEvent { kind: OverlapKind::Begin, first: BIRD, second: PIPE },
    ];
    let acts = s.step(&input, &table(), &mut rng);
    assert_eq!(acts.passes, 1);
    assert!(acts.fatal_hit);
    assert_eq!(s.phase, Phase::GameOver);
    assert_eq!(s.score.current(), 1);
}
