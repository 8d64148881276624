//! Collision events between named sprites, and the rules that read them.
use vstd::prelude::*;
use vstd::utf8::{encode_utf8, is_ascii_chars, is_ascii_chars_encode_utf8};
use crate::state::GameState;

verus! {

/// Whether an overlap between two sprites starts or stops in this frame.
#[derive(Clone, Copy, Debug, PartialEq, Eq, Structural)]
pub enum CollisionState {
    Begin,
    End,
}

/// One begin/end transition of an overlapping pair of named sprites.
#[derive(Clone, Debug)]
pub struct CollisionEvent {
    pub state: CollisionState,
    pub first: String,
    pub second: String,
}

/// The UTF-8 bytes of a label.
pub open spec fn label_bytes(s: Seq<char>) -> Seq<u8> {
    encode_utf8(s)
}

/// `prefix` is a prefix of `bytes`.
pub open spec fn bytes_start_with(bytes: Seq<u8>, prefix: Seq<u8>) -> bool {
    prefix.len() <= bytes.len() && bytes.subrange(0, prefix.len() as int) =~= prefix
}

/// Exactly one of the two labels starts with `prefix`.
pub open spec fn spec_one_starts_with(first: Seq<char>, second: Seq<char>, prefix: Seq<char>) -> bool {
    bytes_start_with(label_bytes(first), label_bytes(prefix))
        != bytes_start_with(label_bytes(second), label_bytes(prefix))
}

/// Byte-wise prefix test, as `str::starts_with` does it for a `&str` pattern.
pub fn starts_with(s: &str, prefix: &str) -> (r: bool)
    ensures
        r == bytes_start_with(label_bytes(s@), label_bytes(prefix@)),
{
    let b = s.as_bytes();
    let p = prefix.as_bytes();
    if p.len() > b.len() {
        return false;
    }
    let mut i: usize = 0;
    while i < p.len()
        invariant
            p.len() <= b.len(),
            b@ == label_bytes(s@),
            p@ == label_bytes(prefix@),
            i <= p.len(),
            forall|j: int| 0 <= j < i ==> b@[j] == p@[j],
        decreases p.len() - i,
    {
        if b[i] != p[i] {
            assert(b@.subrange(0, p@.len() as int)[i as int] != p@[i as int]);
            return false;
        }
        i = i + 1;
    }
    assert(b@.subrange(0, p@.len() as int) =~= p@);
    true
}

impl CollisionEvent {
    /// Exactly one of the pair's labels starts with `prefix`.
    pub fn one_starts_with(&self, prefix: &str) -> (r: bool)
        ensures
            r == spec_one_starts_with(self.first@, self.second@, prefix@),
    {
        let a = starts_with(self.first.as_str(), prefix);
        let b = starts_with(self.second.as_str(), prefix);
        a != b
    }
}

/// Label prefix of the player's car.
pub const PLAYER: &'static str = "player";
/// Label prefix of the inner edge of the track.
pub const TRACK_INNER: &'static str = "track_inner";
/// Label prefix of the outer edge of the track.
pub const TRACK_OUTER: &'static str = "track_outer";
/// Label prefix of the enemies.
pub const ENEMY: &'static str = "enemy";

/// The event pairs the player with a sprite labelled `other`: each prefix is
/// matched by exactly one of the two labels.
pub open spec fn player_with(e: CollisionEvent, other: Seq<char>) -> bool {
    spec_one_starts_with(e.first@, e.second@, other) && spec_one_starts_with(
        e.first@,
        e.second@,
        "player"@,
    )
}

pub open spec fn inner_edge_contact(e: CollisionEvent) -> bool {
    player_with(e, "track_inner"@)
}

pub open spec fn outer_edge_contact(e: CollisionEvent) -> bool {
    player_with(e, "track_outer"@)
}

pub open spec fn enemy_contact(e: CollisionEvent) -> bool {
    player_with(e, "enemy"@)
}

/// The hit flag after one event: the player begins touching the inner edge,
/// or stops touching the outer one.
pub open spec fn track_edge_step(hit: bool, e: CollisionEvent) -> bool {
    let after_inner = if inner_edge_contact(e) {
        e.state == CollisionState::Begin
    } else {
        hit
    };
    if outer_edge_contact(e) {
        e.state == CollisionState::End
    } else {
        after_inner
    }
}

/// The hit flag after the events, taken in order.
pub open spec fn hit_after(hit: bool, events: Seq<CollisionEvent>) -> bool
    decreases events.len(),
{
    if events.len() == 0 {
        hit
    } else {
        track_edge_step(hit_after(hit, events.drop_last()), events.last())
    }
}

/// Impact sounds due to one event: one for each edge contact that sets the flag.
pub open spec fn impacts_of(e: CollisionEvent) -> nat {
    (if inner_edge_contact(e) && e.state == CollisionState::Begin {
        1nat
    } else {
        0nat
    }) + (if outer_edge_contact(e) && e.state == CollisionState::End {
        1nat
    } else {
        0nat
    })
}

pub open spec fn impact_count(events: Seq<CollisionEvent>) -> nat
    decreases events.len(),
{
    if events.len() == 0 {
        0
    } else {
        impact_count(events.drop_last()) + impacts_of(events.last())
    }
}

/// Number of contacts that begin between the player and an enemy.
pub open spec fn enemy_hits(events: Seq<CollisionEvent>) -> nat
    decreases events.len(),
{
    if events.len() == 0 {
        0
    } else {
        enemy_hits(events.drop_last()) + (if enemy_contact(events.last()) && events.last().state
            == CollisionState::Begin {
            1nat
        } else {
            0nat
        })
    }
}

proof fn lemma_label_bytes()
    ensures
        label_bytes("player"@).len() == 6,
        label_bytes("player"@)[0] == 0x70u8,
        label_bytes("track_inner"@).len() == 11,
        label_bytes("track_inner"@)[0] == 0x74u8,
        label_bytes("track_inner"@)[6] == 0x69u8,
        label_bytes("track_outer"@).len() == 11,
        label_bytes("track_outer"@)[0] == 0x74u8,
        label_bytes("track_outer"@)[6] == 0x6fu8,
        label_bytes("enemy"@).len() == 5,
        label_bytes("enemy"@)[0] == 0x65u8,
{
    reveal_strlit("player");
    reveal_strlit("track_inner");
    reveal_strlit("track_outer");
    reveal_strlit("enemy");
    assert(is_ascii_chars("player"@));
    assert(is_ascii_chars("track_inner"@));
    assert(is_ascii_chars("track_outer"@));
    assert(is_ascii_chars("enemy"@));
    is_ascii_chars_encode_utf8("player"@);
    is_ascii_chars_encode_utf8("track_inner"@);
    is_ascii_chars_encode_utf8("track_outer"@);
    is_ascii_chars_encode_utf8("enemy"@);
}

/// A label starts with at most one of the player and track-edge prefixes.
proof fn lemma_one_role(l: Seq<char>)
    ensures
        !(bytes_start_with(label_bytes(l), label_bytes("player"@)) && bytes_start_with(
            label_bytes(l),
            label_bytes("track_inner"@),
        )),
        !(bytes_start_with(label_bytes(l), label_bytes("player"@)) && bytes_start_with(
            label_bytes(l),
            label_bytes("track_outer"@),
        )),
        !(bytes_start_with(label_bytes(l), label_bytes("track_inner"@)) && bytes_start_with(
            label_bytes(l),
            label_bytes("track_outer"@),
        )),
{
    lemma_label_bytes();
    let b = label_bytes(l);
    let p = label_bytes("player"@);
    let ti = label_bytes("track_inner"@);
    let to = label_bytes("track_outer"@);
    if bytes_start_with(b, p) {
        assert(b.subrange(0, 6)[0] == p[0]);
    }
    if bytes_start_with(b, ti) {
        assert(b.subrange(0, 11)[0] == ti[0]);
        assert(b.subrange(0, 11)[6] == ti[6]);
    }
    if bytes_start_with(b, to) {
        assert(b.subrange(0, 11)[0] == to[0]);
        assert(b.subrange(0, 11)[6] == to[6]);
    }
}

/// No event is a contact of the player with both edges of the track.
pub proof fn lemma_edge_contacts_disjoint(e: CollisionEvent)
    ensures
        !(inner_edge_contact(e) && outer_edge_contact(e)),
{
    lemma_one_role(e.first@);
    lemma_one_role(e.second@);
}

/// Counts the contacts that begin between the player and an enemy.
pub fn enemy_hit_count(events: &Vec<CollisionEvent>) -> (n: usize)
    ensures
        n == enemy_hits(events@),
        n <= events@.len(),
{
    let mut n: usize = 0;
    let mut i: usize = 0;
    while i < events.len()
        invariant
            i <= events@.len(),
            n == enemy_hits(events@.subrange(0, i as int)),
            n <= i,
        decreases events.len() - i,
    {
        let e = &events[i];
        assert(events@.subrange(0, i + 1).drop_last() =~= events@.subrange(0, i as int));
        assert(events@.subrange(0, i + 1).last() == *e);
        if e.one_starts_with(ENEMY) && e.one_starts_with(PLAYER) {
            match e.state {
                CollisionState::Begin => {
                    n = n + 1;
                },
                CollisionState::End => {},
            }
        }
        i = i + 1;
    }
    assert(events@.subrange(0, i as int) =~= events@);
    n
}

impl GameState {
    /// Track-edge rule: every event is applied in order to the hit flag (see
    /// `track_edge_step`). Returns how many impact sounds are due.
    pub fn apply_track_collisions(&mut self, events: &Vec<CollisionEvent>) -> (impacts: usize)
        ensures
            final(self).player_hit == hit_after(old(self).player_hit, events@),
            impacts == impact_count(events@),
            final(self).health == old(self).health,
            final(self).direction == old(self).direction,
            final(self).speed == old(self).speed,
            final(self).score == old(self).score,
            final(self).enemies == old(self).enemies,
    {
        let mut impacts: usize = 0;
        let mut i: usize = 0;
        while i < events.len()
            invariant
                i <= events@.len(),
                self.player_hit == hit_after(old(self).player_hit, events@.subrange(0, i as int)),
                impacts == impact_count(events@.subrange(0, i as int)),
                impacts <= i,
                self.health == old(self).health,
                self.direction == old(self).direction,
                self.speed == old(self).speed,
                self.score == old(self).score,
                self.enemies == old(self).enemies,
            decreases events.len() - i,
        {
            let e = &events[i];
            let ghost prefix = events@.subrange(0, i as int);
            let ghost next = events@.subrange(0, i + 1);
            assert(next.drop_last() =~= prefix);
            assert(next.last() == *e);
            proof {
                lemma_edge_contacts_disjoint(*e);
            }
            if e.one_starts_with(TRACK_INNER) && e.one_starts_with(PLAYER) {
                match e.state {
                    CollisionState::Begin => {
                        self.player_hit = true;
                        impacts = impacts + 1;
                    },
                    CollisionState::End => {
                        self.player_hit = false;
                    },
                }
            }
            if e.one_starts_with(TRACK_OUTER) && e.one_starts_with(PLAYER) {
                match e.state {
                    CollisionState::End => {
                        self.player_hit = true;
                        impacts = impacts + 1;
                    },
                    CollisionState::Begin => {
                        self.player_hit = false;
                    },
                }
            }
            i = i + 1;
        }
        assert(events@.subrange(0, i as int) =~= events@);
        impacts
    }
}

} // verus!
