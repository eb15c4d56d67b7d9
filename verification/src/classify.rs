//! Collision classifier.
//!
//! The physics collaborator reports overlap-begin and overlap-end events
//! between pairs of colliders. The classifier looks both sides up in the
//! session's tag table and emits the two logical outcomes of the game: a
//! fatal hit when the bird begins touching a pipe, and a pass when the
//! bird stops touching a gap sensor (the end edge is the right one: it
//! fires once the bird is fully past the sensor's extent). Every other
//! event — two non-bird entities, an unknown collider, the wrong edge —
//! yields nothing.

use vstd::prelude::*;

verus! {

/// The capability tag of a session entity.
#[derive(Clone, Copy, Debug, PartialEq, Eq, Structural)]
pub enum EntityTag {
    /// The player-controlled bird; exactly one per session.
    Bird,
    /// A solid pipe body; contact is fatal.
    Pipe,
    /// The non-solid gap sensor; leaving it scores.
    Passage,
    /// The static ground strip.
    Ground,
}

/// Which edge of an overlap the physics collaborator reports.
#[derive(Clone, Copy, Debug, PartialEq, Eq, Structural)]
pub enum OverlapKind {
    /// The two colliders went from not touching to touching.
    Begin,
    /// The two colliders went from touching to not touching.
    End,
}

/// One collider-overlap transition between two entities.
#[derive(Clone, Copy, Debug, PartialEq, Eq, Structural)]
pub struct OverlapEvent {
    pub kind: OverlapKind,
    pub first: u64,
    pub second: u64,
}

/// A logical outcome of one overlap event.
#[derive(Clone, Copy, Debug, PartialEq, Eq, Structural)]
pub enum Outcome {
    /// The bird began touching a pipe: the session is over.
    FatalHit,
    /// The bird flew fully through a gap: one point.
    Pass,
}

/// The tag of `id`: that of the first entry carrying `id`, if any.
pub open spec fn spec_tag_of(entries: Seq<(u64, EntityTag)>, id: u64) -> Option<EntityTag>
    decreases entries.len(),
{
    if entries.len() == 0 {
        None
    } else if entries[0].0 == id {
        Some(entries[0].1)
    } else {
        spec_tag_of(entries.drop_first(), id)
    }
}

pub open spec fn spec_has_tag(entries: Seq<(u64, EntityTag)>, id: u64, tag: EntityTag) -> bool {
    spec_tag_of(entries, id) == Some(tag)
}

/// The session's component table: each entity identifier with its tag.
pub struct TagTable {
    pub entries: Vec<(u64, EntityTag)>,
}

impl TagTable {
    pub open spec fn tags(self) -> Seq<(u64, EntityTag)> {
        self.entries@
    }

    pub fn new() -> (t: TagTable)
        ensures
            t.tags().len() == 0,
    {
        TagTable { entries: Vec::new() }
    }

    /// Record one entity's tag.
    pub fn insert(&mut self, id: u64, tag: EntityTag)
        ensures
            final(self).tags() == old(self).tags().push((id, tag)),
    {
        self.entries.push((id, tag));
    }

    /// The tag of `id`, as `spec_tag_of` gives it.
    pub fn lookup(&self, id: u64) -> (r: Option<EntityTag>)
        ensures
            r == spec_tag_of(self.tags(), id),
    {
        let n = self.entries.len();
        assert(self.entries@.subrange(0, n as int) =~= self.entries@);
        let mut i: usize = 0;
        while i < n
            invariant
                i <= n,
                n == self.entries.len(),
                spec_tag_of(self.entries@, id) == spec_tag_of(
                    self.entries@.subrange(i as int, n as int),
                    id,
                ),
            decreases n - i,
        {
            let e = self.entries[i];
            assert(self.entries@.subrange(i as int, n as int)[0] == self.entries@[i as int]);
            assert(self.entries@.subrange(i as int, n as int).drop_first() =~= self.entries@.subrange(
                i as int + 1,
                n as int,
            ));
            if e.0 == id {
                return Some(e.1);
            }
            i = i + 1;
        }
        assert(self.entries@.subrange(n as int, n as int) =~= Seq::<(u64, EntityTag)>::empty());
        None
    }
}

/// True when one side of the event is the bird and the other carries `tag`.
pub open spec fn spec_bird_against(
    entries: Seq<(u64, EntityTag)>,
    ev: OverlapEvent,
    tag: EntityTag,
) -> bool {
    ||| spec_has_tag(entries, ev.first, EntityTag::Bird) && spec_has_tag(entries, ev.second, tag)
    ||| spec_has_tag(entries, ev.second, EntityTag::Bird) && spec_has_tag(entries, ev.first, tag)
}

/// The classification rule: a begin edge of bird against pipe is a fatal
/// hit, an end edge of bird against passage is a pass, anything else is
/// ignored.
pub open spec fn spec_classify(entries: Seq<(u64, EntityTag)>, ev: OverlapEvent) -> Option<
    Outcome,
> {
    if ev.kind is Begin && spec_bird_against(entries, ev, EntityTag::Pipe) {
        Some(Outcome::FatalHit)
    } else if ev.kind is End && spec_bird_against(entries, ev, EntityTag::Passage) {
        Some(Outcome::Pass)
    } else {
        None
    }
}

fn tag_is(t: &Option<EntityTag>, want: EntityTag) -> (r: bool)
    ensures
        r == (*t == Some(want)),
{
    match t {
        Some(x) => *x == want,
        None => false,
    }
}

/// Classify one overlap event against the session's tag table.
pub fn classify(table: &TagTable, ev: &OverlapEvent) -> (r: Option<Outcome>)
    ensures
        r == spec_classify(table.tags(), *ev),
{
    let t1 = table.lookup(ev.first);
    let t2 = table.lookup(ev.second);
    let bird_first = tag_is(&t1, EntityTag::Bird);
    let bird_second = tag_is(&t2, EntityTag::Bird);
    match ev.kind {
        OverlapKind::Begin => {
            if (bird_first && tag_is(&t2, EntityTag::Pipe)) || (bird_second && tag_is(
                &t1,
                EntityTag::Pipe,
            )) {
                Some(Outcome::FatalHit)
            } else {
                None
            }
        },
        OverlapKind::End => {
            if (bird_first && tag_is(&t2, EntityTag::Passage)) || (bird_second && tag_is(
                &t1,
                EntityTag::Passage,
            )) {
                Some(Outcome::Pass)
            } else {
                None
            }
        },
    }
}

/// The classifier's rules, each "always and only": a begin edge of bird
/// against pipe yields exactly a fatal hit, an end edge of bird against
/// passage yields exactly a pass, and an event with no bird on either
/// side yields nothing.
pub proof fn lemma_classify_rules(entries: Seq<(u64, EntityTag)>, ev: OverlapEvent)
    ensures
        spec_classify(entries, ev) == Some(Outcome::FatalHit) <==> (ev.kind is Begin
            && spec_bird_against(entries, ev, EntityTag::Pipe)),
        spec_classify(entries, ev) == Some(Outcome::Pass) <==> (ev.kind is End
            && spec_bird_against(entries, ev, EntityTag::Passage)),
        !spec_has_tag(entries, ev.first, EntityTag::Bird) && !spec_has_tag(
            entries,
            ev.second,
            EntityTag::Bird,
        ) ==> spec_classify(entries, ev) is None,
{
}

/// Whether any event of the frame classifies as a fatal hit.
pub open spec fn spec_any_fatal(entries: Seq<(u64, EntityTag)>, evs: Seq<OverlapEvent>) -> bool
    decreases evs.len(),
{
    if evs.len() == 0 {
        false
    } else {
        spec_classify(entries, evs[0]) == Some(Outcome::FatalHit) || spec_any_fatal(
            entries,
            evs.drop_first(),
        )
    }
}

/// How many events of the frame classify as passes.
pub open spec fn spec_pass_count(entries: Seq<(u64, EntityTag)>, evs: Seq<OverlapEvent>) -> nat
    decreases evs.len(),
{
    if evs.len() == 0 {
        0
    } else {
        (if spec_classify(entries, evs[0]) == Some(Outcome::Pass) {
            1nat
        } else {
            0nat
        }) + spec_pass_count(entries, evs.drop_first())
    }
}

} // verus!
