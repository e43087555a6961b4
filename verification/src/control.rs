//! From the keys held or pressed in one frame to the set of actions the
//! player requests.
use vstd::prelude::*;

use crate::action::{Action, ActionFlag, ACTION_COUNT, flag_index, lemma_flag_index_bijective};
use crate::components::GameState;

verus! {

/// Milliseconds that must pass between two zoom steps.
pub const ZOOM_COOLDOWN_MILLIS: u128 = 100;

/// The state of the keys in one frame.  A field is `true` when its key was
/// pressed during this frame (`key1`, `key2`, `minus`, `equal`, `f`) or is
/// held down (every other field).
#[derive(Clone, Copy, Debug)]
pub struct KeyInput {
    pub key1: bool,
    pub key2: bool,
    pub a: bool,
    pub d: bool,
    pub up: bool,
    pub down: bool,
    pub left: bool,
    pub right: bool,
    pub minus: bool,
    pub equal: bool,
    pub q: bool,
    pub e: bool,
    pub space: bool,
    pub w: bool,
    pub left_control: bool,
    pub i: bool,
    pub o: bool,
    pub f: bool,
}

/// Whether the key state asks for the action `flag`.  `zoom_ready` tells
/// whether the zoom cooldown has run out, `fullscreen` whether the window
/// is in fullscreen mode now.
pub open spec fn wants(keys: KeyInput, zoom_ready: bool, fullscreen: bool, flag: ActionFlag) -> bool {
    match flag {
        ActionFlag::OneBullet => keys.key1,
        ActionFlag::TwoBullets => !keys.key1 && keys.key2,
        ActionFlag::MoveLeft => keys.a,
        ActionFlag::MoveRight => keys.d,
        ActionFlag::MoveForward => keys.up,
        ActionFlag::MoveBackward => keys.down,
        ActionFlag::TurnLeft => keys.left,
        ActionFlag::TurnRight => keys.right,
        ActionFlag::MinimizeSpeed => keys.minus,
        ActionFlag::MaximizeSpeed => !keys.minus && keys.equal,
        ActionFlag::DecreaseSpeed => keys.q,
        ActionFlag::IncreaseSpeed => !keys.q && keys.e,
        ActionFlag::Brake => keys.space,
        ActionFlag::Shoot => keys.w,
        ActionFlag::ZoomIn => keys.left_control && keys.i && zoom_ready,
        ActionFlag::ZoomOut => keys.left_control && keys.o && zoom_ready,
        ActionFlag::FullscreenOn => keys.left_control && keys.f && !fullscreen,
        ActionFlag::FullscreenOff => keys.left_control && keys.f && fullscreen,
        _ => false,
    }
}

/// Law (key bindings): the keys ask for exactly these actions: key 1 the
/// one-bullet weapon and key 2 (without key 1) the two-bullet weapon; Up,
/// Down, A and D move forward, backward, left and right; Left and Right
/// turn; minus and equal (without minus) set the lowest and highest speed;
/// Q and E (without Q) lower and raise it; Space brakes; W shoots; Control
/// with I or O zooms once the cooldown has run out; Control with F asks for
/// the mode other than the current one; no key asks for any other weapon.
pub proof fn lemma_keys_ask_for(keys: KeyInput, zoom_ready: bool, fullscreen: bool)
    ensures
        wants(keys, zoom_ready, fullscreen, ActionFlag::OneBullet) == (keys.key1),
        wants(keys, zoom_ready, fullscreen, ActionFlag::TwoBullets) == (!keys.key1 && keys.key2),
        wants(keys, zoom_ready, fullscreen, ActionFlag::Weapon3) == (false),
        wants(keys, zoom_ready, fullscreen, ActionFlag::Weapon4) == (false),
        wants(keys, zoom_ready, fullscreen, ActionFlag::Weapon5) == (false),
        wants(keys, zoom_ready, fullscreen, ActionFlag::Weapon6) == (false),
        wants(keys, zoom_ready, fullscreen, ActionFlag::Weapon7) == (false),
        wants(keys, zoom_ready, fullscreen, ActionFlag::Weapon8) == (false),
        wants(keys, zoom_ready, fullscreen, ActionFlag::Weapon9) == (false),
        wants(keys, zoom_ready, fullscreen, ActionFlag::MoveForward) == (keys.up),
        wants(keys, zoom_ready, fullscreen, ActionFlag::MoveBackward) == (keys.down),
        wants(keys, zoom_ready, fullscreen, ActionFlag::MoveLeft) == (keys.a),
        wants(keys, zoom_ready, fullscreen, ActionFlag::MoveRight) == (keys.d),
        wants(keys, zoom_ready, fullscreen, ActionFlag::TurnLeft) == (keys.left),
        wants(keys, zoom_ready, fullscreen, ActionFlag::TurnRight) == (keys.right),
        wants(keys, zoom_ready, fullscreen, ActionFlag::IncreaseSpeed) == (!keys.q && keys.e),
        wants(keys, zoom_ready, fullscreen, ActionFlag::DecreaseSpeed) == (keys.q),
        wants(keys, zoom_ready, fullscreen, ActionFlag::MaximizeSpeed) == (!keys.minus && keys.equal),
        wants(keys, zoom_ready, fullscreen, ActionFlag::MinimizeSpeed) == (keys.minus),
        wants(keys, zoom_ready, fullscreen, ActionFlag::Brake) == (keys.space),
        wants(keys, zoom_ready, fullscreen, ActionFlag::Shoot) == (keys.w),
        wants(keys, zoom_ready, fullscreen, ActionFlag::ZoomIn) == (keys.left_control && keys.i && zoom_ready),
        wants(keys, zoom_ready, fullscreen, ActionFlag::ZoomOut) == (keys.left_control && keys.o && zoom_ready),
        wants(keys, zoom_ready, fullscreen, ActionFlag::FullscreenOn) == (keys.left_control && keys.f && !fullscreen),
        wants(keys, zoom_ready, fullscreen, ActionFlag::FullscreenOff) == (keys.left_control && keys.f && fullscreen),
{
}

/// Whether the zoom cooldown has run out after `millis` milliseconds.
pub open spec fn zoom_ready(millis: u128) -> bool {
    millis >= ZOOM_COOLDOWN_MILLIS
}

/// Whether the key state asks for `flag` (see [`wants`]).
pub fn key_wants(keys: &KeyInput, zoom_ready: bool, fullscreen: bool, flag: ActionFlag) -> (r: bool)
    ensures
        r == wants(*keys, zoom_ready, fullscreen, flag),
{
    let ctrl = keys.left_control;
    match flag {
        ActionFlag::OneBullet => keys.key1,
        ActionFlag::TwoBullets => !keys.key1 && keys.key2,
        ActionFlag::MoveLeft => keys.a,
        ActionFlag::MoveRight => keys.d,
        ActionFlag::MoveForward => keys.up,
        ActionFlag::MoveBackward => keys.down,
        ActionFlag::TurnLeft => keys.left,
        ActionFlag::TurnRight => keys.right,
        ActionFlag::MinimizeSpeed => keys.minus,
        ActionFlag::MaximizeSpeed => !keys.minus && keys.equal,
        ActionFlag::DecreaseSpeed => keys.q,
        ActionFlag::IncreaseSpeed => !keys.q && keys.e,
        ActionFlag::Brake => keys.space,
        ActionFlag::Shoot => keys.w,
        ActionFlag::ZoomIn => ctrl && keys.i && zoom_ready,
        ActionFlag::ZoomOut => ctrl && keys.o && zoom_ready,
        ActionFlag::FullscreenOn => ctrl && keys.f && !fullscreen,
        ActionFlag::FullscreenOff => ctrl && keys.f && fullscreen,
        _ => false,
    }
}

/// The actions the player requests in this frame.  While the game is not
/// being played the request is left as it was (`None`); otherwise the new
/// request holds exactly the actions that the keys ask for, and no other
/// bit.  `millis_since_zoom` is the time since the last zoom step.
pub fn control(state: GameState, keys: &KeyInput, millis_since_zoom: u128, fullscreen: bool) -> (r: Option<Action>)
    ensures
        (r is Some) == (state == GameState::Playing),
        r matches Some(a) ==> {
            &&& a.named_only()
            &&& forall|flag: ActionFlag| #[trigger] a.holds(flag)
                == wants(*keys, zoom_ready(millis_since_zoom), fullscreen, flag)
        },
        r matches Some(a) ==> {
            &&& a.holds(ActionFlag::OneBullet) == (keys.key1)
            &&& a.holds(ActionFlag::TwoBullets) == (!keys.key1 && keys.key2)
            &&& a.holds(ActionFlag::Weapon3) == (false)
            &&& a.holds(ActionFlag::Weapon4) == (false)
            &&& a.holds(ActionFlag::Weapon5) == (false)
            &&& a.holds(ActionFlag::Weapon6) == (false)
            &&& a.holds(ActionFlag::Weapon7) == (false)
            &&& a.holds(ActionFlag::Weapon8) == (false)
            &&& a.holds(ActionFlag::Weapon9) == (false)
            &&& a.holds(ActionFlag::MoveForward) == (keys.up)
            &&& a.holds(ActionFlag::MoveBackward) == (keys.down)
            &&& a.holds(ActionFlag::MoveLeft) == (keys.a)
            &&& a.holds(ActionFlag::MoveRight) == (keys.d)
            &&& a.holds(ActionFlag::TurnLeft) == (keys.left)
            &&& a.holds(ActionFlag::TurnRight) == (keys.right)
            &&& a.holds(ActionFlag::IncreaseSpeed) == (!keys.q && keys.e)
            &&& a.holds(ActionFlag::DecreaseSpeed) == (keys.q)
            &&& a.holds(ActionFlag::MaximizeSpeed) == (!keys.minus && keys.equal)
            &&& a.holds(ActionFlag::MinimizeSpeed) == (keys.minus)
            &&& a.holds(ActionFlag::Brake) == (keys.space)
            &&& a.holds(ActionFlag::Shoot) == (keys.w)
            &&& a.holds(ActionFlag::ZoomIn) == (keys.left_control && keys.i && millis_since_zoom >= ZOOM_COOLDOWN_MILLIS)
            &&& a.holds(ActionFlag::ZoomOut) == (keys.left_control && keys.o && millis_since_zoom >= ZOOM_COOLDOWN_MILLIS)
            &&& a.holds(ActionFlag::FullscreenOn) == (keys.left_control && keys.f && !fullscreen)
            &&& a.holds(ActionFlag::FullscreenOff) == (keys.left_control && keys.f && fullscreen)
        },
{
    match state {
        GameState::Playing => {},
        _ => {
            return None;
        },
    }
    let zoom_ok = millis_since_zoom >= ZOOM_COOLDOWN_MILLIS;
    let ghost ready = zoom_ready(millis_since_zoom);
    let mut a = Action::nothing();
    let mut i: u64 = 0;
    while i < ACTION_COUNT
        invariant
            i <= ACTION_COUNT,
            ready == zoom_ok,
            a.named_only(),
            forall|g: ActionFlag| #[trigger] a.holds(g)
                == (flag_index(g) < i && wants(*keys, ready, fullscreen, g)),
        decreases ACTION_COUNT - i,
    {
        let f = ActionFlag::from_index(i);
        if key_wants(keys, zoom_ok, fullscreen, f) {
            a.insert(f);
        }
        i = i + 1;
    }
    proof {
        lemma_flag_index_bijective();
        lemma_keys_ask_for(*keys, ready, fullscreen);
    }
    Some(a)
}

} // verus!
