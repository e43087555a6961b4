//! Game rules of a small 2D space shooter: the set of actions a player can
//! request in one frame, how key input becomes such a set, how a set of
//! actions changes the ship, when the weapon fires, how collision groups
//! are chosen, how spark animations advance, and how the initial world is
//! laid out.  Rendering, physics simulation and input polling live in the
//! application around this library; they hand plain values in and take
//! plain values back.
pub mod action;
pub mod animation;
pub mod components;
pub mod control;
pub mod pilot;
pub mod shooting;
pub mod space;
pub mod world;
