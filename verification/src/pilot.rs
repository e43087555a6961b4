//! How the actions requested in one frame change a ship, and which commands
//! they hand to the physics and window layers.
use vstd::prelude::*;

use crate::action::{
    Action, ActionFlag, ACTION_COUNT, contained_flags, flag_at, flags_upto, has_flag,
    lemma_contained_flags_member,
};
use crate::control::{KeyInput, wants};
use crate::components::{GameState, Ship, WeaponKind, MAX_SPEED};

verus! {

/// A direction of thrust, relative to the ship.
#[derive(Clone, Copy, Debug, PartialEq, Eq, Structural)]
pub enum Thrust {
    Forward,
    Backward,
    Left,
    Right,
}

/// A direction of rotation.
#[derive(Clone, Copy, Debug, PartialEq, Eq, Structural)]
pub enum Turn {
    Left,
    Right,
}

/// Work that the rules hand to the physics and window layers.
#[derive(Clone, Copy, Debug, PartialEq, Eq, Structural)]
pub enum Command {
    /// Push the ship's body in a direction.
    Impulse(Thrust),
    /// Spin the ship's body.
    Torque(Turn),
    /// Raise the body's damping (braking).
    Brake,
    /// Zoom the camera in one step, unless it is at its closest.
    ZoomIn,
    /// Zoom the camera out one step, unless it is at its farthest.
    ZoomOut,
    /// Switch the window to (`true`) or from (`false`) fullscreen mode.
    SetFullscreen(bool),
    /// Set the body's damping from the ship's (new) speed setting.
    DampBySpeed,
}

/// The part of the game state that actions change directly.
#[derive(Clone, Copy, Debug, PartialEq, Eq, Structural)]
pub struct Helm {
    pub speed: i32,
    pub weapon: WeaponKind,
    pub fullscreen: bool,
}

/// How one action changes the helm.
pub open spec fn helm_step(h: Helm, f: ActionFlag) -> Helm {
    match f {
        ActionFlag::OneBullet => Helm { weapon: WeaponKind::OneBullet, ..h },
        ActionFlag::TwoBullets => Helm { weapon: WeaponKind::TwoBullets, ..h },
        ActionFlag::IncreaseSpeed => if h.speed < MAX_SPEED {
            Helm { speed: (h.speed + 1) as i32, ..h }
        } else {
            h
        },
        ActionFlag::DecreaseSpeed => if h.speed > 0 {
            Helm { speed: (h.speed - 1) as i32, ..h }
        } else {
            h
        },
        ActionFlag::MaximizeSpeed => Helm { speed: MAX_SPEED, ..h },
        ActionFlag::MinimizeSpeed => Helm { speed: 0, ..h },
        ActionFlag::FullscreenOn => Helm { fullscreen: true, ..h },
        ActionFlag::FullscreenOff => Helm { fullscreen: false, ..h },
        _ => h,
    }
}

/// The helm after the actions `flags` were applied one after the other.
pub open spec fn helm_after(h: Helm, flags: Seq<ActionFlag>) -> Helm
    decreases flags.len(),
{
    if flags.len() == 0 {
        h
    } else {
        helm_step(helm_after(h, flags.drop_last()), flags.last())
    }
}

/// The command that one action hands on, if any.
pub open spec fn flag_command(f: ActionFlag) -> Option<Command> {
    match f {
        ActionFlag::MoveForward => Some(Command::Impulse(Thrust::Forward)),
        ActionFlag::MoveBackward => Some(Command::Impulse(Thrust::Backward)),
        ActionFlag::MoveLeft => Some(Command::Impulse(Thrust::Left)),
        ActionFlag::MoveRight => Some(Command::Impulse(Thrust::Right)),
        ActionFlag::TurnLeft => Some(Command::Torque(Turn::Left)),
        ActionFlag::TurnRight => Some(Command::Torque(Turn::Right)),
        ActionFlag::Brake => Some(Command::Brake),
        ActionFlag::ZoomIn => Some(Command::ZoomIn),
        ActionFlag::ZoomOut => Some(Command::ZoomOut),
        ActionFlag::FullscreenOn => Some(Command::SetFullscreen(true)),
        ActionFlag::FullscreenOff => Some(Command::SetFullscreen(false)),
        _ => None,
    }
}

/// The commands that the actions `flags` hand on, in order.
pub open spec fn commands_of(flags: Seq<ActionFlag>) -> Seq<Command>
    decreases flags.len(),
{
    if flags.len() == 0 {
        Seq::empty()
    } else {
        let rest = commands_of(flags.drop_last());
        match flag_command(flags.last()) {
            Some(c) => rest.push(c),
            None => rest,
        }
    }
}

/// Whether a set of actions moves the ship (so that its thrust is drawn).
pub open spec fn is_moving(bits: u64) -> bool {
    has_flag(bits, ActionFlag::MoveForward) || has_flag(bits, ActionFlag::MoveBackward)
        || has_flag(bits, ActionFlag::MoveLeft) || has_flag(bits, ActionFlag::MoveRight)
}

/// All commands of a frame: those of the actions in order, then, unless the
/// ship brakes, the damping that follows the speed setting.
pub open spec fn frame_commands(bits: u64) -> Seq<Command> {
    let cmds = commands_of(contained_flags(bits));
    if has_flag(bits, ActionFlag::Brake) {
        cmds
    } else {
        cmds.push(Command::DampBySpeed)
    }
}

proof fn lemma_helm_after_push(h: Helm, flags: Seq<ActionFlag>, f: ActionFlag)
    ensures
        helm_after(h, flags.push(f)) == helm_step(helm_after(h, flags), f),
        commands_of(flags.push(f)) == match flag_command(f) {
            Some(c) => commands_of(flags).push(c),
            None => commands_of(flags),
        },
{
    assert(flags.push(f).drop_last() =~= flags);
}

/// Applies the actions requested for this frame to the player's ship.
///
/// Nothing happens unless the game is being played and the ship has a body.
/// Otherwise the actions are applied one after the other in the order of
/// [`Action::flags`]: weapon selection, speed changes (kept within
/// `0 ..= MAX_SPEED` by the guards of single steps) and fullscreen switches
/// change the state, movement, turning, braking, zooming and fullscreen
/// switches become commands.  The ship is marked as thrusting exactly when
/// it moves; unless it brakes, a last command sets its damping from its
/// speed.
pub fn actions(
    state: GameState,
    body_present: bool,
    requested: &Action,
    ship: &mut Ship,
    weapon: &mut WeaponKind,
    fullscreen: &mut bool,
) -> (commands: Vec<Command>)
    ensures
        final(ship).trace == old(ship).trace,
        !(state == GameState::Playing && body_present) ==> {
            &&& commands@ == Seq::<Command>::empty()
            &&& final(ship).speed == old(ship).speed
            &&& final(ship).tracing == old(ship).tracing
            &&& *final(weapon) == *old(weapon)
            &&& *final(fullscreen) == *old(fullscreen)
        },
        state == GameState::Playing && body_present ==> {
            let h = helm_after(
                Helm { speed: old(ship).speed, weapon: *old(weapon), fullscreen: *old(fullscreen) },
                contained_flags(requested@),
            );
            &&& commands@ == frame_commands(requested@)
            &&& final(ship).speed == h.speed
            &&& *final(weapon) == h.weapon
            &&& *final(fullscreen) == h.fullscreen
            &&& final(ship).tracing == is_moving(requested@)
        },
        state == GameState::Playing && body_present ==> {
            &&& commands@.contains(Command::Impulse(Thrust::Forward)) == requested.holds(ActionFlag::MoveForward)
            &&& commands@.contains(Command::Impulse(Thrust::Backward)) == requested.holds(ActionFlag::MoveBackward)
            &&& commands@.contains(Command::Impulse(Thrust::Left)) == requested.holds(ActionFlag::MoveLeft)
            &&& commands@.contains(Command::Impulse(Thrust::Right)) == requested.holds(ActionFlag::MoveRight)
            &&& commands@.contains(Command::Torque(Turn::Left)) == requested.holds(ActionFlag::TurnLeft)
            &&& commands@.contains(Command::Torque(Turn::Right)) == requested.holds(ActionFlag::TurnRight)
            &&& commands@.contains(Command::Brake) == requested.holds(ActionFlag::Brake)
            &&& commands@.contains(Command::ZoomIn) == requested.holds(ActionFlag::ZoomIn)
            &&& commands@.contains(Command::ZoomOut) == requested.holds(ActionFlag::ZoomOut)
            &&& commands@.contains(Command::SetFullscreen(true)) == requested.holds(ActionFlag::FullscreenOn)
            &&& commands@.contains(Command::SetFullscreen(false)) == requested.holds(ActionFlag::FullscreenOff)
            &&& commands@.contains(Command::DampBySpeed) == !requested.holds(ActionFlag::Brake)
            &&& *final(weapon) == (if requested.holds(ActionFlag::TwoBullets) {
                WeaponKind::TwoBullets
            } else if requested.holds(ActionFlag::OneBullet) {
                WeaponKind::OneBullet
            } else {
                *old(weapon)
            })
            &&& *final(fullscreen) == (if requested.holds(ActionFlag::FullscreenOff) {
                false
            } else if requested.holds(ActionFlag::FullscreenOn) {
                true
            } else {
                *old(fullscreen)
            })
            &&& final(ship).speed == (if requested.holds(ActionFlag::MinimizeSpeed) {
                0
            } else if requested.holds(ActionFlag::MaximizeSpeed) {
                MAX_SPEED as int
            } else {
                let s1 = if requested.holds(ActionFlag::IncreaseSpeed) && old(ship).speed < MAX_SPEED {
                    old(ship).speed + 1
                } else {
                    old(ship).speed as int
                };
                if requested.holds(ActionFlag::DecreaseSpeed) && s1 > 0 { s1 - 1 } else { s1 }
            })
            &&& final(ship).tracing == (requested.holds(ActionFlag::MoveForward)
                || requested.holds(ActionFlag::MoveBackward)
                || requested.holds(ActionFlag::MoveLeft)
                || requested.holds(ActionFlag::MoveRight))
        },
{
    let playing = match state {
        GameState::Playing => true,
        _ => false,
    };
    if !playing || !body_present {
        return Vec::new();
    }
    let ghost h0 = Helm { speed: ship.speed, weapon: *weapon, fullscreen: *fullscreen };
    let flags = requested.flags();
    let mut commands: Vec<Command> = Vec::new();
    let mut j: usize = 0;
    while j < flags.len()
        invariant
            0 <= j <= flags.len(),
            flags@ == contained_flags(requested@),
            helm_after(h0, flags@.take(j as int)) == (Helm { speed: ship.speed, weapon: *weapon, fullscreen: *fullscreen }),
            commands@ == commands_of(flags@.take(j as int)),
            ship.trace == old(ship).trace,
            ship.tracing == old(ship).tracing,
        decreases flags.len() - j,
    {
        let f = flags[j];
        proof {
            assert(flags@.take(j as int + 1) =~= flags@.take(j as int).push(f));
            lemma_helm_after_push(h0, flags@.take(j as int), f);
        }
        match f {
            ActionFlag::OneBullet => {
                *weapon = WeaponKind::OneBullet;
            },
            ActionFlag::TwoBullets => {
                *weapon = WeaponKind::TwoBullets;
            },
            ActionFlag::MoveForward => {
                commands.push(Command::Impulse(Thrust::Forward));
            },
            ActionFlag::MoveBackward => {
                commands.push(Command::Impulse(Thrust::Backward));
            },
            ActionFlag::MoveLeft => {
                commands.push(Command::Impulse(Thrust::Left));
            },
            ActionFlag::MoveRight => {
                commands.push(Command::Impulse(Thrust::Right));
            },
            ActionFlag::TurnLeft => {
                commands.push(Command::Torque(Turn::Left));
            },
            ActionFlag::TurnRight => {
                commands.push(Command::Torque(Turn::Right));
            },
            ActionFlag::IncreaseSpeed => {
                if ship.speed < MAX_SPEED {
                    ship.speed = ship.speed + 1;
                }
            },
            ActionFlag::DecreaseSpeed => {
                if ship.speed > 0 {
                    ship.speed = ship.speed - 1;
                }
            },
            ActionFlag::MinimizeSpeed => {
                ship.speed = 0;
            },
            ActionFlag::MaximizeSpeed => {
                ship.speed = MAX_SPEED;
            },
            ActionFlag::Brake => {
                commands.push(Command::Brake);
            },
            ActionFlag::ZoomIn => {
                commands.push(Command::ZoomIn);
            },
            ActionFlag::ZoomOut => {
                commands.push(Command::ZoomOut);
            },
            ActionFlag::FullscreenOn => {
                commands.push(Command::SetFullscreen(true));
                *fullscreen = true;
            },
            ActionFlag::FullscreenOff => {
                commands.push(Command::SetFullscreen(false));
                *fullscreen = false;
            },
            _ => {},
        }
        j = j + 1;
    }
    proof {
        assert(flags@.take(flags@.len() as int) =~= flags@);
    }
    if !requested.contains(ActionFlag::Brake) {
        commands.push(Command::DampBySpeed);
    }
    ship.tracing = requested.contains(ActionFlag::MoveForward)
        || requested.contains(ActionFlag::MoveBackward)
        || requested.contains(ActionFlag::MoveLeft)
        || requested.contains(ActionFlag::MoveRight);
    proof {
        lemma_commands_follow_actions(requested@);
        lemma_helm_rules(h0, requested@);
    }
    commands
}

/// The speed setting after a frame's actions, in closed form: minimizing
/// wins over maximizing, which wins over single steps; a step up is taken
/// before a step down, and neither leaves `0 ..= MAX_SPEED`.
pub open spec fn speed_rule(bits: u64, speed: i32) -> i32 {
    let s1 = if has_flag(bits, ActionFlag::IncreaseSpeed) && speed < MAX_SPEED {
        (speed + 1) as i32
    } else {
        speed
    };
    let s2 = if has_flag(bits, ActionFlag::DecreaseSpeed) && s1 > 0 {
        (s1 - 1) as i32
    } else {
        s1
    };
    if has_flag(bits, ActionFlag::MinimizeSpeed) {
        0
    } else if has_flag(bits, ActionFlag::MaximizeSpeed) {
        MAX_SPEED
    } else {
        s2
    }
}

/// The weapon after a frame's actions: the two-bullet weapon when it is
/// selected, else the one-bullet weapon when that is selected, else the
/// weapon as it was.
pub open spec fn weapon_rule(bits: u64, weapon: WeaponKind) -> WeaponKind {
    if has_flag(bits, ActionFlag::TwoBullets) {
        WeaponKind::TwoBullets
    } else if has_flag(bits, ActionFlag::OneBullet) {
        WeaponKind::OneBullet
    } else {
        weapon
    }
}

/// The fullscreen mode after a frame's actions: leaving fullscreen wins over
/// entering it; with neither the mode is kept.
pub open spec fn fullscreen_rule(bits: u64, fullscreen: bool) -> bool {
    if has_flag(bits, ActionFlag::FullscreenOff) {
        false
    } else if has_flag(bits, ActionFlag::FullscreenOn) {
        true
    } else {
        fullscreen
    }
}

proof fn lemma_helm_upto(h: Helm, bits: u64, n: nat)
    requires
        n <= ACTION_COUNT,
    ensures
        ({
            let r = helm_after(h, flags_upto(bits, n));
            let s1 = if n > 15 && has_flag(bits, ActionFlag::IncreaseSpeed) && h.speed < MAX_SPEED {
                (h.speed + 1) as i32
            } else {
                h.speed
            };
            let s2 = if n > 16 && has_flag(bits, ActionFlag::DecreaseSpeed) && s1 > 0 {
                (s1 - 1) as i32
            } else {
                s1
            };
            let s3 = if n > 17 && has_flag(bits, ActionFlag::MaximizeSpeed) { MAX_SPEED } else { s2 };
            let s4 = if n > 18 && has_flag(bits, ActionFlag::MinimizeSpeed) { 0 } else { s3 };
            &&& r.speed == s4
            &&& r.weapon == (if n > 1 && has_flag(bits, ActionFlag::TwoBullets) {
                WeaponKind::TwoBullets
            } else if n > 0 && has_flag(bits, ActionFlag::OneBullet) {
                WeaponKind::OneBullet
            } else {
                h.weapon
            })
            &&& r.fullscreen == (if n > 24 && has_flag(bits, ActionFlag::FullscreenOff) {
                false
            } else if n > 23 && has_flag(bits, ActionFlag::FullscreenOn) {
                true
            } else {
                h.fullscreen
            })
        }),
    decreases n,
{
    if n > 0 {
        lemma_helm_upto(h, bits, (n - 1) as nat);
        let rest = flags_upto(bits, (n - 1) as nat);
        let f = flag_at((n - 1) as u64);
        if has_flag(bits, f) {
            lemma_helm_after_push(h, rest, f);
        }
    }
}

/// Law: the ship's speed, weapon and fullscreen mode after a frame follow
/// the closed-form rules [`speed_rule`], [`weapon_rule`] and
/// [`fullscreen_rule`] of the frame's actions, whatever their combination.
pub proof fn lemma_helm_rules(h: Helm, bits: u64)
    ensures
        helm_after(h, contained_flags(bits)).speed == speed_rule(bits, h.speed),
        helm_after(h, contained_flags(bits)).weapon == weapon_rule(bits, h.weapon),
        helm_after(h, contained_flags(bits)).fullscreen == fullscreen_rule(bits, h.fullscreen),
{
    lemma_helm_upto(h, bits, ACTION_COUNT as nat);
}

/// Law: applying actions never takes a speed setting out of
/// `0 ..= MAX_SPEED`, whatever actions are applied in whatever order.
pub proof fn lemma_speed_stays_in_range(h: Helm, flags: Seq<ActionFlag>)
    requires
        0 <= h.speed <= MAX_SPEED,
    ensures
        0 <= helm_after(h, flags).speed <= MAX_SPEED,
    decreases flags.len(),
{
    if flags.len() > 0 {
        lemma_speed_stays_in_range(h, flags.drop_last());
    }
}

/// Law (key bindings): when the actions of a frame are those that the keys
/// ask for (as [`crate::control::control`] computes them) and they are
/// applied to the ship (as [`actions`] does), then key 1 selects the
/// one-bullet weapon and key 2 the two-bullet weapon; minus sets the lowest
/// speed, equal the highest, Q lowers the speed one step and E raises it one
/// step, within `0 ..= MAX_SPEED`; and Control with F toggles fullscreen.
pub proof fn lemma_key_bindings(keys: KeyInput, zoom_ready: bool, h: Helm, bits: u64)
    requires
        forall|flag: ActionFlag| #[trigger] has_flag(bits, flag) == wants(keys, zoom_ready, h.fullscreen, flag),
    ensures
        helm_after(h, contained_flags(bits)).weapon == (if keys.key1 {
            WeaponKind::OneBullet
        } else if keys.key2 {
            WeaponKind::TwoBullets
        } else {
            h.weapon
        }),
        helm_after(h, contained_flags(bits)).speed == (if keys.minus {
            0
        } else if keys.equal {
            MAX_SPEED
        } else if keys.q {
            if h.speed > 0 { (h.speed - 1) as i32 } else { h.speed }
        } else if keys.e {
            if h.speed < MAX_SPEED { (h.speed + 1) as i32 } else { h.speed }
        } else {
            h.speed
        }),
        helm_after(h, contained_flags(bits)).fullscreen == (if keys.left_control && keys.f {
            !h.fullscreen
        } else {
            h.fullscreen
        }),
{
    lemma_helm_rules(h, bits);
    assert(has_flag(bits, ActionFlag::OneBullet) == wants(keys, zoom_ready, h.fullscreen, ActionFlag::OneBullet));
    assert(has_flag(bits, ActionFlag::TwoBullets) == wants(keys, zoom_ready, h.fullscreen, ActionFlag::TwoBullets));
    assert(has_flag(bits, ActionFlag::IncreaseSpeed) == wants(keys, zoom_ready, h.fullscreen, ActionFlag::IncreaseSpeed));
    assert(has_flag(bits, ActionFlag::DecreaseSpeed) == wants(keys, zoom_ready, h.fullscreen, ActionFlag::DecreaseSpeed));
    assert(has_flag(bits, ActionFlag::MaximizeSpeed) == wants(keys, zoom_ready, h.fullscreen, ActionFlag::MaximizeSpeed));
    assert(has_flag(bits, ActionFlag::MinimizeSpeed) == wants(keys, zoom_ready, h.fullscreen, ActionFlag::MinimizeSpeed));
    assert(has_flag(bits, ActionFlag::FullscreenOn) == wants(keys, zoom_ready, h.fullscreen, ActionFlag::FullscreenOn));
    assert(has_flag(bits, ActionFlag::FullscreenOff) == wants(keys, zoom_ready, h.fullscreen, ActionFlag::FullscreenOff));
}

proof fn lemma_commands_of_contains(flags: Seq<ActionFlag>, c: Command)
    ensures
        commands_of(flags).contains(c) <==> exists|i: int| 0 <= i < flags.len() && flag_command(#[trigger] flags[i]) == Some(c),
    decreases flags.len(),
{
    if flags.len() > 0 {
        let rest = flags.drop_last();
        lemma_commands_of_contains(rest, c);
        let cr = commands_of(rest);
        let n = flags.len() - 1;
        if commands_of(flags).contains(c) {
            let k = choose|k: int| 0 <= k < commands_of(flags).len() && commands_of(flags)[k] == c;
            match flag_command(flags.last()) {
                Some(d) => {
                    if k < cr.len() {
                        assert(cr[k] == c);
                        let i = choose|i: int| 0 <= i < rest.len() && flag_command(#[trigger] rest[i]) == Some(c);
                        assert(flags[i] == rest[i]);
                    } else {
                        assert(flag_command(flags[n]) == Some(c));
                    }
                },
                None => {
                    assert(cr[k] == c);
                    let i = choose|i: int| 0 <= i < rest.len() && flag_command(#[trigger] rest[i]) == Some(c);
                    assert(flags[i] == rest[i]);
                },
            }
        }
        if exists|i: int| 0 <= i < flags.len() && flag_command(#[trigger] flags[i]) == Some(c) {
            let i = choose|i: int| 0 <= i < flags.len() && flag_command(#[trigger] flags[i]) == Some(c);
            if i < n {
                assert(rest[i] == flags[i]);
                let k = choose|k: int| 0 <= k < cr.len() && cr[k] == c;
                match flag_command(flags.last()) {
                    Some(d) => {
                        assert(cr.push(d)[k] == c);
                    },
                    None => {},
                }
            } else {
                assert(flags.last() == flags[i]);
                assert(cr.push(c)[cr.len() as int] == c);
            }
        }
    }
}

proof fn lemma_frame_commands_contain(bits: u64, c: Command)
    ensures
        frame_commands(bits).contains(c) <==> ((c == Command::DampBySpeed && !has_flag(bits, ActionFlag::Brake))
            || exists|f: ActionFlag| has_flag(bits, f) && #[trigger] flag_command(f) == Some(c)),
{
    let flags = contained_flags(bits);
    let cmds = commands_of(flags);
    lemma_commands_of_contains(flags, c);
    assert((exists|i: int| 0 <= i < flags.len() && flag_command(#[trigger] flags[i]) == Some(c))
        <==> (exists|f: ActionFlag| has_flag(bits, f) && #[trigger] flag_command(f) == Some(c))) by {
        if exists|i: int| 0 <= i < flags.len() && flag_command(#[trigger] flags[i]) == Some(c) {
            let i = choose|i: int| 0 <= i < flags.len() && flag_command(#[trigger] flags[i]) == Some(c);
            lemma_contained_flags_member(bits, flags[i]);
            assert(has_flag(bits, flags[i]) && flag_command(flags[i]) == Some(c));
        }
        if exists|f: ActionFlag| has_flag(bits, f) && #[trigger] flag_command(f) == Some(c) {
            let f = choose|f: ActionFlag| has_flag(bits, f) && #[trigger] flag_command(f) == Some(c);
            lemma_contained_flags_member(bits, f);
            let i = choose|i: int| 0 <= i < flags.len() && flags[i] == f;
            assert(flag_command(flags[i]) == Some(c));
        }
    }
    if !has_flag(bits, ActionFlag::Brake) {
        assert(cmds.push(Command::DampBySpeed).contains(c) <==> (cmds.contains(c) || c == Command::DampBySpeed)) by {
            let p = cmds.push(Command::DampBySpeed);
            if c == Command::DampBySpeed {
                assert(p[cmds.len() as int] == c);
            }
            if cmds.contains(c) {
                let k = choose|k: int| 0 <= k < cmds.len() && cmds[k] == c;
                assert(p[k] == c);
            }
            if p.contains(c) && c != Command::DampBySpeed {
                let k = choose|k: int| 0 <= k < p.len() && p[k] == c;
                assert(cmds[k] == c);
            }
        }
    }
}

/// Law: each command of a frame is handed on exactly when the action that
/// asks for it is requested: movement pushes the ship in the direction of
/// that movement, turning spins it to that side, braking brakes, zooming
/// zooms that way, the fullscreen actions switch to that mode; and the
/// damping follows the speed exactly when the ship does not brake.
pub proof fn lemma_commands_follow_actions(bits: u64)
    ensures
        frame_commands(bits).contains(Command::Impulse(Thrust::Forward)) == has_flag(bits, ActionFlag::MoveForward),
        frame_commands(bits).contains(Command::Impulse(Thrust::Backward)) == has_flag(bits, ActionFlag::MoveBackward),
        frame_commands(bits).contains(Command::Impulse(Thrust::Left)) == has_flag(bits, ActionFlag::MoveLeft),
        frame_commands(bits).contains(Command::Impulse(Thrust::Right)) == has_flag(bits, ActionFlag::MoveRight),
        frame_commands(bits).contains(Command::Torque(Turn::Left)) == has_flag(bits, ActionFlag::TurnLeft),
        frame_commands(bits).contains(Command::Torque(Turn::Right)) == has_flag(bits, ActionFlag::TurnRight),
        frame_commands(bits).contains(Command::Brake) == has_flag(bits, ActionFlag::Brake),
        frame_commands(bits).contains(Command::ZoomIn) == has_flag(bits, ActionFlag::ZoomIn),
        frame_commands(bits).contains(Command::ZoomOut) == has_flag(bits, ActionFlag::ZoomOut),
        frame_commands(bits).contains(Command::SetFullscreen(true)) == has_flag(bits, ActionFlag::FullscreenOn),
        frame_commands(bits).contains(Command::SetFullscreen(false)) == has_flag(bits, ActionFlag::FullscreenOff),
        frame_commands(bits).contains(Command::DampBySpeed) == !has_flag(bits, ActionFlag::Brake),
{
    let cs = seq![
        (Command::Impulse(Thrust::Forward), ActionFlag::MoveForward),
        (Command::Impulse(Thrust::Backward), ActionFlag::MoveBackward),
        (Command::Impulse(Thrust::Left), ActionFlag::MoveLeft),
        (Command::Impulse(Thrust::Right), ActionFlag::MoveRight),
        (Command::Torque(Turn::Left), ActionFlag::TurnLeft),
        (Command::Torque(Turn::Right), ActionFlag::TurnRight),
        (Command::Brake, ActionFlag::Brake),
        (Command::ZoomIn, ActionFlag::ZoomIn),
        (Command::ZoomOut, ActionFlag::ZoomOut),
        (Command::SetFullscreen(true), ActionFlag::FullscreenOn),
        (Command::SetFullscreen(false), ActionFlag::FullscreenOff),
    ];
    assert forall|k: int| 0 <= k < cs.len() implies
        frame_commands(bits).contains(#[trigger] cs[k].0) == has_flag(bits, cs[k].1) by {
        let (c, g) = cs[k];
        lemma_frame_commands_contain(bits, c);
        assert(flag_command(g) == Some(c));
        if exists|f: ActionFlag| has_flag(bits, f) && #[trigger] flag_command(f) == Some(c) {
            let f = choose|f: ActionFlag| has_flag(bits, f) && #[trigger] flag_command(f) == Some(c);
            assert(f == g);
        }
    }
    assert(frame_commands(bits).contains(cs[0].0) == has_flag(bits, cs[0].1));
    assert(frame_commands(bits).contains(cs[1].0) == has_flag(bits, cs[1].1));
    assert(frame_commands(bits).contains(cs[2].0) == has_flag(bits, cs[2].1));
    assert(frame_commands(bits).contains(cs[3].0) == has_flag(bits, cs[3].1));
    assert(frame_commands(bits).contains(cs[4].0) == has_flag(bits, cs[4].1));
    assert(frame_commands(bits).contains(cs[5].0) == has_flag(bits, cs[5].1));
    assert(frame_commands(bits).contains(cs[6].0) == has_flag(bits, cs[6].1));
    assert(frame_commands(bits).contains(cs[7].0) == has_flag(bits, cs[7].1));
    assert(frame_commands(bits).contains(cs[8].0) == has_flag(bits, cs[8].1));
    assert(frame_commands(bits).contains(cs[9].0) == has_flag(bits, cs[9].1));
    assert(frame_commands(bits).contains(cs[10].0) == has_flag(bits, cs[10].1));
    lemma_frame_commands_contain(bits, Command::DampBySpeed);
    if exists|f: ActionFlag| has_flag(bits, f) && #[trigger] flag_command(f) == Some(Command::DampBySpeed) {
        let f = choose|f: ActionFlag| has_flag(bits, f) && #[trigger] flag_command(f) == Some(Command::DampBySpeed);
        assert(false);
    }
}

/// Law: the ship's thrust is drawn exactly when the frame pushes the ship in
/// some direction.
pub proof fn lemma_thrust_drawn_iff_pushed(bits: u64)
    ensures
        is_moving(bits) == (frame_commands(bits).contains(Command::Impulse(Thrust::Forward))
            || frame_commands(bits).contains(Command::Impulse(Thrust::Backward))
            || frame_commands(bits).contains(Command::Impulse(Thrust::Left))
            || frame_commands(bits).contains(Command::Impulse(Thrust::Right))),
{
    lemma_commands_follow_actions(bits);
}

} // verus!
