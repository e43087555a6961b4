//! The world as it stands when a game starts.
use vstd::prelude::*;

use crate::action::Action;
use crate::components::{BodyKind, Ship, Trace, WeaponKind, MAX_SPEED};

verus! {

/// What the player's ship starts with besides its body: the ship itself,
/// its weapon and an empty set of requested actions.
#[derive(Debug)]
pub struct PlayerStart {
    pub ship: Ship,
    pub weapon: WeaponKind,
    pub actions: Action,
}

/// One body placed in the world at the start: what it is, its sprite, the
/// pixel position of its sprite's top-left corner, and, for the player's
/// ship, what it starts with.
#[derive(Debug)]
pub struct Spawn {
    pub body: BodyKind,
    pub sprite: String,
    pub x: i32,
    pub y: i32,
    pub start: Option<PlayerStart>,
}

/// One planned body: its kind, sprite key and position.
pub type PlanEntry = (BodyKind, Seq<char>, i32, i32);

/// The bodies of the starting world, in the order they are placed: the
/// player's ship in the middle, then asteroids in two squares around it.
pub open spec fn world_plan() -> Seq<PlanEntry> {
    seq![
        (BodyKind::Player, "player-ship-a-blue"@, 500i32, 500i32),
        (BodyKind::Asteroid, "asteroid-a-grey-big"@, 0i32, 0i32),
        (BodyKind::Asteroid, "asteroid-a-brown-small"@, 1000i32, 0i32),
        (BodyKind::Asteroid, "asteroid-c-brown-big"@, 0i32, 1000i32),
        (BodyKind::Asteroid, "asteroid-b-brown-tiny"@, 1000i32, 1000i32),
        (BodyKind::Asteroid, "asteroid-a-grey-big"@, 300i32, 300i32),
        (BodyKind::Asteroid, "asteroid-a-brown-small"@, 700i32, 300i32),
        (BodyKind::Asteroid, "asteroid-c-brown-big"@, 300i32, 700i32),
        (BodyKind::Asteroid, "asteroid-b-brown-tiny"@, 700i32, 700i32),
    ]
}

/// Whether the sprite `key` is among the loaded sprites.
pub open spec fn key_loaded(loaded: Seq<String>, key: Seq<char>) -> bool {
    exists|i: int| 0 <= i < loaded.len() && #[trigger] loaded[i]@ == key
}

/// The planned bodies whose sprite is loaded, in plan order.
pub open spec fn keep_loaded(plan: Seq<PlanEntry>, loaded: Seq<String>) -> Seq<PlanEntry>
    decreases plan.len(),
{
    if plan.len() == 0 {
        Seq::empty()
    } else {
        let rest = keep_loaded(plan.drop_last(), loaded);
        if key_loaded(loaded, plan.last().1) {
            rest.push(plan.last())
        } else {
            rest
        }
    }
}

/// What the player's ship starts with: full speed, not thrusting, the wide
/// thrust sprite, the one-bullet weapon and no requested action.
pub open spec fn is_player_start(p: PlayerStart) -> bool {
    &&& p.ship.speed == MAX_SPEED
    &&& !p.ship.tracing
    &&& p.ship.trace.key@ == "trace-b-wide"@
    &&& p.weapon == WeaponKind::OneBullet
    &&& p.actions@ == 0
}

/// Whether a placed body is the planned one, with the player's start
/// exactly for the player's ship.
pub open spec fn spawn_matches(s: Spawn, plan: PlanEntry) -> bool {
    &&& s.body == plan.0
    &&& s.sprite@ == plan.1
    &&& s.x == plan.2
    &&& s.y == plan.3
    &&& (s.start is Some) == (s.body == BodyKind::Player)
    &&& (s.start matches Some(p) ==> is_player_start(p))
}

proof fn lemma_keep_loaded_push(plan: Seq<PlanEntry>, e: PlanEntry, loaded: Seq<String>)
    ensures
        keep_loaded(plan.push(e), loaded) == (if key_loaded(loaded, e.1) {
            keep_loaded(plan, loaded).push(e)
        } else {
            keep_loaded(plan, loaded)
        }),
{
    assert(plan.push(e).drop_last() =~= plan);
}

/// Law: loading more sprites only adds bodies.  When every sprite loaded in
/// `fewer` is also loaded in `more`, the bodies placed with `fewer` are
/// those placed with `more` less the ones whose sprite `fewer` lacks, in the
/// same order (a subsequence).
pub proof fn lemma_more_sprites_only_add_spawns(plan: Seq<PlanEntry>, fewer: Seq<String>, more: Seq<String>)
    requires
        forall|k: Seq<char>| key_loaded(fewer, k) ==> key_loaded(more, k),
    ensures
        keep_loaded(keep_loaded(plan, more), fewer) == keep_loaded(plan, fewer),
    decreases plan.len(),
{
    if plan.len() > 0 {
        let (rest, e) = (plan.drop_last(), plan.last());
        lemma_more_sprites_only_add_spawns(rest, fewer, more);
        if key_loaded(more, e.1) {
            lemma_keep_loaded_push(keep_loaded(rest, more), e, fewer);
        }
    }
}

fn spawn(body: BodyKind, sprite: &str, x: i32, y: i32) -> (s: Spawn)
    requires
        body != BodyKind::Player,
    ensures
        s.body == body,
        s.sprite@ == sprite@,
        s.x == x,
        s.y == y,
        s.start is None,
{
    Spawn { body, sprite: sprite.to_owned(), x, y, start: None }
}

fn plan_entry(i: usize) -> (s: Spawn)
    requires
        i < world_plan().len(),
    ensures
        spawn_matches(s, world_plan()[i as int]),
{
    if i == 0 {
        let start = PlayerStart {
            ship: initial_ship(),
            weapon: WeaponKind::OneBullet,
            actions: Action::nothing(),
        };
        Spawn {
            body: BodyKind::Player,
            sprite: "player-ship-a-blue".to_owned(),
            x: 500,
            y: 500,
            start: Some(start),
        }
    } else if i == 1 {
        spawn(BodyKind::Asteroid, "asteroid-a-grey-big", 0, 0)
    } else if i == 2 {
        spawn(BodyKind::Asteroid, "asteroid-a-brown-small", 1000, 0)
    } else if i == 3 {
        spawn(BodyKind::Asteroid, "asteroid-c-brown-big", 0, 1000)
    } else if i == 4 {
        spawn(BodyKind::Asteroid, "asteroid-b-brown-tiny", 1000, 1000)
    } else if i == 5 {
        spawn(BodyKind::Asteroid, "asteroid-a-grey-big", 300, 300)
    } else if i == 6 {
        spawn(BodyKind::Asteroid, "asteroid-a-brown-small", 700, 300)
    } else if i == 7 {
        spawn(BodyKind::Asteroid, "asteroid-c-brown-big", 300, 700)
    } else {
        spawn(BodyKind::Asteroid, "asteroid-b-brown-tiny", 700, 700)
    }
}

/// Whether the sprite `key` is among the loaded sprites.
pub fn is_loaded(loaded: &Vec<String>, key: &String) -> (r: bool)
    ensures
        r == key_loaded(loaded@, key@),
        r == loaded@.map_values(|s: String| s@).contains(key@),
{
    let mut i: usize = 0;
    while i < loaded.len()
        invariant
            i <= loaded.len(),
            forall|j: int| 0 <= j < i ==> loaded@[j]@ != key@,
        decreases loaded.len() - i,
    {
        if loaded[i] == *key {
            proof {
                lemma_key_loaded_is_membership(loaded@, key@);
            }
            return true;
        }
        i = i + 1;
    }
    proof {
        lemma_key_loaded_is_membership(loaded@, key@);
    }
    false
}

/// The bodies of the starting world whose sprite is among the `loaded`
/// sprite keys, in plan order (see [`world_plan`]); a body whose sprite is
/// not loaded is left out.  The player's ship comes with its start.
pub fn load_world(loaded: &Vec<String>) -> (spawns: Vec<Spawn>)
    ensures
        spawns.len() == keep_loaded(world_plan(), loaded@).len(),
        forall|i: int| 0 <= i < spawns.len()
            ==> spawn_matches(#[trigger] spawns@[i], keep_loaded(world_plan(), loaded@)[i]),
{
    let mut v: Vec<Spawn> = Vec::new();
    let mut i: usize = 0;
    while i < 9
        invariant
            i <= 9,
            world_plan().len() == 9,
            v.len() == keep_loaded(world_plan().take(i as int), loaded@).len(),
            forall|j: int| 0 <= j < v.len()
                ==> spawn_matches(#[trigger] v@[j], keep_loaded(world_plan().take(i as int), loaded@)[j]),
        decreases 9 - i,
    {
        let s = plan_entry(i);
        proof {
            assert(world_plan().take(i as int + 1) =~= world_plan().take(i as int).push(world_plan()[i as int]));
            lemma_keep_loaded_push(world_plan().take(i as int), world_plan()[i as int], loaded@);
        }
        if is_loaded(loaded, &s.sprite) {
            v.push(s);
        }
        i = i + 1;
    }
    proof {
        assert(world_plan().take(9) =~= world_plan());
    }
    v
}

/// The player's ship at the start: full speed, not thrusting, drawn with
/// the wide thrust sprite.
pub fn initial_ship() -> (ship: Ship)
    ensures
        ship.speed == MAX_SPEED,
        !ship.tracing,
        ship.trace.key@ == "trace-b-wide"@,
{
    Ship { speed: MAX_SPEED, tracing: false, trace: Trace { key: "trace-b-wide".to_owned() } }
}

/// Law: a sprite counts as loaded exactly when it is one of the loaded keys,
/// wherever it stands among them.
pub proof fn lemma_key_loaded_is_membership(loaded: Seq<String>, key: Seq<char>)
    ensures
        key_loaded(loaded, key) == loaded.map_values(|s: String| s@).contains(key),
{
    let m = loaded.map_values(|s: String| s@);
    if key_loaded(loaded, key) {
        let i = choose|i: int| 0 <= i < loaded.len() && #[trigger] loaded[i]@ == key;
        assert(m[i] == key);
    }
    if m.contains(key) {
        let i = choose|i: int| 0 <= i < m.len() && m[i] == key;
        assert(loaded[i]@ == key);
    }
}

/// Law: the bodies placed depend on the loaded sprites only as a set: two
/// lists of loaded keys holding the same keys, in any order and with any
/// repetitions or extra keys of no planned body, place the same bodies.
pub proof fn lemma_loaded_as_a_set(plan: Seq<PlanEntry>, a: Seq<String>, b: Seq<String>)
    requires
        forall|j: int| 0 <= j < plan.len() ==>
            a.map_values(|s: String| s@).contains(#[trigger] plan[j].1)
            == b.map_values(|s: String| s@).contains(plan[j].1),
    ensures
        keep_loaded(plan, a) == keep_loaded(plan, b),
    decreases plan.len(),
{
    if plan.len() > 0 {
        let rest = plan.drop_last();
        assert forall|j: int| 0 <= j < rest.len() implies
            a.map_values(|s: String| s@).contains(#[trigger] rest[j].1)
            == b.map_values(|s: String| s@).contains(rest[j].1) by {
            assert(rest[j] == plan[j]);
        }
        lemma_loaded_as_a_set(rest, a, b);
        let k = plan.last().1;
        assert(plan[plan.len() - 1] == plan.last());
        lemma_key_loaded_is_membership(a, k);
        lemma_key_loaded_is_membership(b, k);
    }
}

} // verus!
