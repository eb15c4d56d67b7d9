use flappy_core::classify::classify;
use flappy_core::classify::EntityTag;
use flappy_core::classify::Outcome;
use flappy_core::classify::OverlapEvent;
use flappy_core::classify::OverlapKind;
use flappy_core::classify::TagTable;

const BIRD: u64 = 1;
const PIPE: u64 = 2;
const PASSAGE: u64 = 3;
const GROUND: u64 = 4;

fn table() -> TagTable {
    let mut t = TagTable::new();
    t.insert(BIRD, EntityTag::Bird);
    t.insert(PIPE, EntityTag::Pipe);
    t.insert(PASSAGE, EntityTag::Passage);
    t.insert(GROUND, EntityTag::Ground);
    t
}

fn begin(first: u64, second: u64) -> OverlapEvent {
    OverlapEvent { kind: OverlapKind::Begin, first, second }
}

fn end(first: u64, second: u64) -> OverlapEvent {
    OverlapEvent { kind: OverlapKind::End, first, second }
}

#[test]
fn begin_with_pipe_is_fatal_either_order() {
    let t = table();
    assert_eq!(classify(&t, &begin(BIRD, PIPE)), Some(Outcome::FatalHit));
    assert_eq!(classify(&t, &begin(PIPE, BIRD)), Some(Outcome::FatalHit));
}

#[test]
fn end_with_passage_is_a_pass_either_order() {
    let t = table();
    assert_eq!(classify(&t, &end(BIRD, PASSAGE)), Some(Outcome::Pass));
    assert_eq!(classify(&t, &end(PASSAGE, BIRD)), Some(Outcome::Pass));
}

#[test]
fn wrong_edges_yield_nothing() {
    let t = table();
    // Entering the sensor is not yet a pass; leaving a pipe is not a hit.
    assert_eq!(classify(&t, &begin(BIRD, PASSAGE)), None);
    assert_eq!(classify(&t, &end(BIRD, PIPE)), None);
}

#[test]
fn events_without_the_bird_yield_nothing() {
    let t = table();
    assert_eq!(classify(&t, &begin(PIPE, PASSAGE)), None);
    assert_eq!(classify(&t, &end(GROUND, PIPE)), None);
    assert_eq!(classify(&t, &begin(PIPE, PIPE)), None);
}

#[test]
fn unknown_entities_yield_nothing() {
    let t = table();
    assert_eq!(classify(&t, &begin(BIRD, 99)), None);
    assert_eq!(classify(&t, &begin(99, 98)), None);
}

#[test]
fn ground_contact_is_not_fatal_through_the_classifier() {
    // Only pipe contact counts as a hit; the ground is a tagged entity
    // but never a fatal one through the classifier.
    let t = table();
    assert_eq!(classify(&t, &begin(BIRD, GROUND)), None);
}

#[test]
fn lookup_finds_first_entry() {
    let t = table();
    assert_eq!(t.lookup(BIRD), Some(EntityTag::Bird));
    assert_eq!(t.lookup(PASSAGE), Some(EntityTag::Passage));
    assert_eq!(t.lookup(99), None);
}
