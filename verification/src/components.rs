//! The plain data that the game rules read and change.
use vstd::prelude::*;

use crate::action::Action;

verus! {

/// The phase the game is in.  The rules act only while it is `Playing`.
#[derive(Clone, Copy, Debug, PartialEq, Eq, Structural)]
pub enum GameState {
    Menu,
    Playing,
    Paused,
    Over,
}

/// The weapon a ship fires.
#[derive(Clone, Copy, Debug, PartialEq, Eq, Structural)]
pub enum WeaponKind {
    OneBullet,
    TwoBullets,
}

/// The sprite drawn behind a ship while it thrusts.
#[derive(Debug)]
pub struct Trace {
    pub key: String,
}

/// A ship: its speed setting (the rules keep it within `0 ..= MAX_SPEED`),
/// whether it is thrusting, and its thrust sprite.
#[derive(Debug)]
pub struct Ship {
    pub speed: i32,
    pub tracing: bool,
    pub trace: Trace,
}

/// The sprite an entity is drawn with.
#[derive(Debug)]
pub struct Sprite {
    pub key: String,
}

/// The actions an entity requested for the current frame.
#[derive(Debug)]
pub struct Actions {
    pub actions: Action,
}

/// What a physical body stands for; it decides the body's collision groups.
#[derive(Clone, Copy, Debug, PartialEq, Eq, Structural)]
pub enum BodyKind {
    Player,
    Asteroid,
    Bullet,
    Other,
}

/// The highest speed setting of a ship.
pub const MAX_SPEED: i32 = 50;

} // verus!
