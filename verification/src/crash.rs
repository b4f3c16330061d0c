//! Collisions between the player and the other entities.

use vstd::prelude::*;

use crate::components::Health;
use crate::geometry::Point;

verus! {

/// An entity at `other` touches the player at `player`: their hit boxes
/// overlap.
pub open spec fn collides(player: Point, other: Point) -> bool {
    &&& other.x + 15 >= player.x - 5
    &&& other.x - 15 <= player.x + 5
    &&& other.y + 40 >= player.y - 11
    &&& other.y - 30 <= player.y + 11
}

/// The indices among `bodies[1..n]`, in increasing order, whose entity
/// touches the player `bodies[0]`.
pub open spec fn crash_hits(bodies: Seq<Point>, n: int) -> Seq<usize>
    decreases n,
{
    if n <= 1 {
        Seq::empty()
    } else if collides(bodies[0], bodies[n - 1]) {
        crash_hits(bodies, n - 1).push((n - 1) as usize)
    } else {
        crash_hits(bodies, n - 1)
    }
}

/// The crash system: the player loses a hit point for every entity that
/// touches it, and each such entity is removed.
#[derive(Clone, Copy, Debug, Default)]
pub struct Crash;

impl Crash {
    /// Whether the entity at `other` touches the player at `player`.
    pub fn touches(player: Point, other: Point) -> (r: bool)
        ensures
            r == collides(player, other),
            r <==> (-20 <= other.x - player.x <= 20 && -51 <= other.y - player.y <= 41),
    {
        let px = player.x as i64;
        let py = player.y as i64;
        let ox = other.x as i64;
        let oy = other.y as i64;
        ox + 15 >= px - 5 && ox - 15 <= px + 5 && oy + 40 >= py - 11 && oy - 30 <= py + 11
    }

    /// Runs the crash check for one player's `health`. `bodies` holds the
    /// positions of all entities that have one, the player first. Returns
    /// the indices into `bodies` of the entities to remove; the player loses
    /// one hit point for each.
    pub fn run(&mut self, health: &mut Health, bodies: &Vec<Point>) -> (hits: Vec<usize>)
        requires
            bodies.len() > 0,
            old(health).health - crash_hits(bodies@, bodies.len() as int).len() >= i32::MIN,
        ensures
            hits@ == crash_hits(bodies@, bodies.len() as int),
            final(health).health == old(health).health - hits.len(),
            forall|k: int|
                0 <= k < hits.len() ==> 1 <= #[trigger] hits[k] < bodies.len() && collides(
                    bodies[0],
                    bodies[hits[k] as int],
                ),
            forall|k: int|
                1 <= k < bodies.len() && collides(bodies[0], #[trigger] bodies[k]) ==> hits@.contains(
                    k as usize,
                ),
    {
        let n = bodies.len();
        let player = bodies[0];
        let mut hits: Vec<usize> = Vec::new();
        let mut i: usize = 1;
        while i < n
            invariant
                n == bodies.len(),
                1 <= i <= n,
                player == bodies[0],
                hits@ == crash_hits(bodies@, i as int),
                health.health == old(health).health - hits.len(),
                old(health).health - crash_hits(bodies@, n as int).len() >= i32::MIN,
            decreases n - i,
        {
            if Crash::touches(player, bodies[i]) {
                proof {
                    lemma_crash_hits_len_monotone(bodies@, (i + 1) as int, n as int);
                }
                hits.push(i);
                health.health = health.health - 1;
            }
            i = i + 1;
        }
        proof {
            lemma_crash_hits_exact(bodies@, n as int);
        }
        hits
    }
}

/// Counting hits over a longer prefix never gives fewer.
pub proof fn lemma_crash_hits_len_monotone(bodies: Seq<Point>, m: int, n: int)
    requires
        m <= n,
    ensures
        crash_hits(bodies, m).len() <= crash_hits(bodies, n).len(),
    decreases n - m,
{
    if m < n {
        lemma_crash_hits_len_monotone(bodies, m, n - 1);
    }
}

/// The hits over `bodies[..n]` are exactly the indices `k` in `1..n` whose
/// entity touches the player `bodies[0]`, each once and in increasing
/// order; the player itself is never among them.
pub proof fn lemma_crash_hits_exact(bodies: Seq<Point>, n: int)
    requires
        n <= bodies.len(),
        n <= usize::MAX,
    ensures
        forall|k: int|
            0 <= k < crash_hits(bodies, n).len() ==> 1 <= #[trigger] crash_hits(bodies, n)[k] < n
                && collides(bodies[0], bodies[crash_hits(bodies, n)[k] as int]),
        forall|a: int, b: int|
            0 <= a < b < crash_hits(bodies, n).len() ==> #[trigger] crash_hits(bodies, n)[a]
                < #[trigger] crash_hits(bodies, n)[b],
        forall|k: int|
            1 <= k < n && collides(bodies[0], #[trigger] bodies[k]) ==> crash_hits(
                bodies,
                n,
            ).contains(k as usize),
    decreases n,
{
    if n > 1 {
        lemma_crash_hits_exact(bodies, n - 1);
        let prev = crash_hits(bodies, n - 1);
        let cur = crash_hits(bodies, n);
        assert forall|k: int| 0 <= k < prev.len() implies #[trigger] cur[k] == prev[k] by {}
        if collides(bodies[0], bodies[n - 1]) {
            assert(cur[cur.len() - 1] == (n - 1) as usize);
            assert forall|a: int, b: int| 0 <= a < b < cur.len() implies #[trigger] cur[a]
                < #[trigger] cur[b] by {
                assert(cur[a] == prev[a]);
                if b < prev.len() {
                    assert(cur[b] == prev[b]);
                }
            }
        }
        assert forall|k: int|
            1 <= k < n && collides(bodies[0], #[trigger] bodies[k]) implies cur.contains(
            k as usize,
        ) by {
            if k < n - 1 {
                assert(prev.contains(k as usize));
                let idx = choose|idx: int| 0 <= idx < prev.len() && prev[idx] == k as usize;
                assert(cur[idx] == k as usize);
            } else {
                assert(cur[cur.len() - 1] == k as usize);
            }
        }
    }
}

/// The hit box: an entity touches the player exactly when it stands at
/// most 20 px to either side of it, at most 51 px above it and at most
/// 41 px below it.
pub proof fn lemma_collides_box(player: Point, other: Point)
    ensures
        collides(player, other) <==> (player.x - 20 <= other.x <= player.x + 20 && player.y - 51
            <= other.y <= player.y + 41),
        other.x < player.x - 20 ==> !collides(player, other),
        other.x > player.x + 20 ==> !collides(player, other),
        other == player ==> collides(player, other),
{
}

/// Whether an entity is hit depends only on where it stands relative to
/// the player: moving both by the same amount changes nothing.
pub proof fn lemma_collides_translation(player: Point, other: Point, p2: Point, o2: Point)
    requires
        p2.x - player.x == o2.x - other.x,
        p2.y - player.y == o2.y - other.y,
    ensures
        collides(player, other) == collides(p2, o2),
{
}

} // verus!
