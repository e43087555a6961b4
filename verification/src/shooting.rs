//! When a ship's weapon fires, and where its bullets leave the ship.
use vstd::prelude::*;

use crate::action::{Action, ActionFlag};
use crate::components::{GameState, WeaponKind};

verus! {

/// Milliseconds that must pass between two shots of a weapon.
pub const RELOAD_MILLIS: u128 = 100;

/// Where a bullet leaves the ship's nose, across the ship's width.
#[derive(Clone, Copy, Debug, PartialEq, Eq, Structural)]
pub enum BulletSlot {
    /// At the middle of the ship.
    Middle,
    /// At one third of the ship's width.
    FirstThird,
    /// At two thirds of the ship's width.
    SecondThird,
}

/// The bullets that one shot of a weapon fires.
pub open spec fn weapon_slots(weapon: WeaponKind) -> Seq<BulletSlot> {
    match weapon {
        WeaponKind::OneBullet => seq![BulletSlot::Middle],
        WeaponKind::TwoBullets => seq![BulletSlot::FirstThird, BulletSlot::SecondThird],
    }
}

/// Whether a ship fires in this frame: the game is being played, the ship
/// asks to shoot, its weapon has reloaded, and the bullet sprite is loaded.
pub open spec fn fires(
    state: GameState,
    requested: u64,
    millis_since_shot: u128,
    bullet_sprite_loaded: bool,
) -> bool {
    &&& state == GameState::Playing
    &&& crate::action::has_flag(requested, ActionFlag::Shoot)
    &&& millis_since_shot >= RELOAD_MILLIS
    &&& bullet_sprite_loaded
}

/// The bullets a ship fires in this frame: none unless it [`fires`], else
/// those of its weapon (one from the middle, or two from its thirds).  The
/// weapon's reload time starts again exactly when the result is not empty.
pub fn shooting(
    state: GameState,
    requested: &Action,
    millis_since_shot: u128,
    weapon: WeaponKind,
    bullet_sprite_loaded: bool,
) -> (slots: Vec<BulletSlot>)
    ensures
        slots@ == (if fires(state, requested@, millis_since_shot, bullet_sprite_loaded) {
            weapon_slots(weapon)
        } else {
            Seq::<BulletSlot>::empty()
        }),
        (slots@.len() > 0) == (state == GameState::Playing && requested.holds(ActionFlag::Shoot)
            && millis_since_shot >= RELOAD_MILLIS && bullet_sprite_loaded),
        weapon == WeaponKind::OneBullet && slots@.len() > 0 ==> slots@ == seq![BulletSlot::Middle],
        weapon == WeaponKind::TwoBullets && slots@.len() > 0 ==> slots@ == seq![
            BulletSlot::FirstThird,
            BulletSlot::SecondThird,
        ],
{
    let playing = match state {
        GameState::Playing => true,
        _ => false,
    };
    let mut slots: Vec<BulletSlot> = Vec::new();
    if playing && requested.contains(ActionFlag::Shoot) && millis_since_shot >= RELOAD_MILLIS
        && bullet_sprite_loaded {
        match weapon {
            WeaponKind::OneBullet => {
                slots.push(BulletSlot::Middle);
            },
            WeaponKind::TwoBullets => {
                slots.push(BulletSlot::FirstThird);
                slots.push(BulletSlot::SecondThird);
            },
        }
    }
    proof {
        assert(slots@ =~= (if fires(state, requested@, millis_since_shot, bullet_sprite_loaded) {
            weapon_slots(weapon)
        } else {
            Seq::<BulletSlot>::empty()
        }));
    }
    slots
}

/// Law: whether a ship fires depends on the requested actions only through
/// the shoot action: two requests that agree on it fire alike, whatever else
/// they ask for.  A shot fires exactly while playing, with the shoot action
/// requested, the weapon reloaded and the bullet sprite loaded, and every
/// weapon fires at least one bullet.
pub proof fn lemma_fires_only_through_shoot(
    state: GameState,
    a: u64,
    b: u64,
    millis_since_shot: u128,
    bullet_sprite_loaded: bool,
    weapon: WeaponKind,
)
    requires
        crate::action::has_flag(a, ActionFlag::Shoot) == crate::action::has_flag(b, ActionFlag::Shoot),
    ensures
        fires(state, a, millis_since_shot, bullet_sprite_loaded) == fires(state, b, millis_since_shot, bullet_sprite_loaded),
        fires(state, a, millis_since_shot, bullet_sprite_loaded) == (state == GameState::Playing
            && crate::action::has_flag(a, ActionFlag::Shoot) && millis_since_shot >= 100 && bullet_sprite_loaded),
        weapon_slots(weapon).len() > 0,
{
}

} // verus!
