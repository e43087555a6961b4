use rapier2d::geometry::{Group, InteractionGroups};
use mocosmos::action::{Action, ActionFlag};
use mocosmos::animation::{collisions, effects, spark_animation, Animation, AnimationStep};
use mocosmos::components::{GameState, Ship, Trace, WeaponKind, BodyKind, MAX_SPEED};
use mocosmos::control::{control, KeyInput};
use mocosmos::pilot::{actions, Command, Thrust, Turn};
use mocosmos::shooting::{shooting, BulletSlot};
use mocosmos::space::{body_kind, collision_groups, entity_bits_of, user_data_of};
use mocosmos::world::{initial_ship, load_world};

fn no_keys() -> KeyInput {
    KeyInput {
        key1: false,
        key2: false,
        a: false,
        d: false,
        up: false,
        down: false,
        left: false,
        right: false,
        minus: false,
        equal: false,
        q: false,
        e: false,
        space: false,
        w: false,
        left_control: false,
        i: false,
        o: false,
        f: false,
    }
}

fn ship(speed: i32) -> Ship {
    Ship { speed, tracing: false, trace: Trace { key: "trace-b-wide".to_string() } }
}

fn set(flags: &[ActionFlag]) -> Action {
    let mut a = Action::nothing();
    for f in flags {
        a.insert(*f);
    }
    a
}

#[test]
fn flag_bits_follow_declaration_order() {
    assert_eq!(ActionFlag::OneBullet.bits(), 1);
    assert_eq!(ActionFlag::MoveForward.bits(), 1 << 9);
    assert_eq!(ActionFlag::Shoot.bits(), 1 << 20);
    assert_eq!(ActionFlag::FullscreenOff.bits(), 1 << 24);
    assert_eq!(ActionFlag::from_index(15), ActionFlag::IncreaseSpeed);
    assert_eq!(ActionFlag::Brake.index(), 19);
}

#[test]
fn set_operations() {
    let a = set(&[ActionFlag::MoveLeft, ActionFlag::Shoot]);
    let b = set(&[ActionFlag::Shoot, ActionFlag::Brake]);
    assert_eq!(a.union(&b).bits(), (1 << 11) | (1 << 20) | (1 << 19));
    assert_eq!(a.intersection(&b).bits(), 1 << 20);
    assert!(a.contains(ActionFlag::MoveLeft));
    assert!(!a.contains(ActionFlag::Brake));
    assert!(Action::nothing().is_empty());
    assert!(!a.is_empty());
    assert_eq!(Action::from_flag(ActionFlag::Brake).bits(), 1 << 19);
    assert_eq!(a.intersection(&Action::from_flag(ActionFlag::Brake)), Action::nothing());
}

#[test]
fn flags_are_listed_in_order_and_unnamed_bits_are_skipped() {
    let a = Action::from_bits_retain((1 << 20) | (1 << 9) | (1 << 40) | 1);
    assert_eq!(a.flags(), vec![ActionFlag::OneBullet, ActionFlag::MoveForward, ActionFlag::Shoot]);
    assert_eq!(a.bits(), (1 << 20) | (1 << 9) | (1 << 40) | 1);
    assert!(Action::nothing().flags().is_empty());
}

#[test]
fn control_is_idle_outside_play() {
    let mut keys = no_keys();
    keys.w = true;
    assert_eq!(control(GameState::Paused, &keys, 0, false), None);
    assert_eq!(control(GameState::Menu, &keys, 0, false), None);
    assert_eq!(control(GameState::Over, &keys, 0, false), None);
}

#[test]
fn control_maps_keys_to_actions() {
    let mut keys = no_keys();
    keys.key1 = true;
    keys.key2 = true;
    keys.up = true;
    keys.left = true;
    keys.minus = true;
    keys.equal = true;
    keys.q = true;
    keys.e = true;
    keys.w = true;
    let a = control(GameState::Playing, &keys, 0, false).unwrap();
    assert_eq!(
        a.flags(),
        vec![
            ActionFlag::OneBullet,
            ActionFlag::MoveForward,
            ActionFlag::TurnLeft,
            ActionFlag::DecreaseSpeed,
            ActionFlag::MinimizeSpeed,
            ActionFlag::Shoot,
        ]
    );
    let mut keys = no_keys();
    keys.key2 = true;
    keys.equal = true;
    keys.e = true;
    keys.a = true;
    keys.d = true;
    keys.down = true;
    keys.right = true;
    keys.space = true;
    let a = control(GameState::Playing, &keys, 0, false).unwrap();
    assert_eq!(
        a.flags(),
        vec![
            ActionFlag::TwoBullets,
            ActionFlag::MoveBackward,
            ActionFlag::MoveLeft,
            ActionFlag::MoveRight,
            ActionFlag::TurnRight,
            ActionFlag::IncreaseSpeed,
            ActionFlag::MaximizeSpeed,
            ActionFlag::Brake,
        ]
    );
    assert_eq!(control(GameState::Playing, &no_keys(), 0, false), Some(Action::nothing()));
}

#[test]
fn control_zoom_waits_for_cooldown_and_needs_control_key() {
    let mut keys = no_keys();
    keys.i = true;
    keys.o = true;
    assert_eq!(control(GameState::Playing, &keys, 500, false).unwrap().flags(), vec![]);
    keys.left_control = true;
    assert_eq!(control(GameState::Playing, &keys, 99, false).unwrap().flags(), vec![]);
    assert_eq!(
        control(GameState::Playing, &keys, 100, false).unwrap().flags(),
        vec![ActionFlag::ZoomIn, ActionFlag::ZoomOut]
    );
}

#[test]
fn control_fullscreen_key_asks_for_the_other_mode() {
    let mut keys = no_keys();
    keys.left_control = true;
    keys.f = true;
    assert_eq!(control(GameState::Playing, &keys, 0, false).unwrap().flags(), vec![ActionFlag::FullscreenOn]);
    assert_eq!(control(GameState::Playing, &keys, 0, true).unwrap().flags(), vec![ActionFlag::FullscreenOff]);
    keys.left_control = false;
    assert_eq!(control(GameState::Playing, &keys, 0, true).unwrap().flags(), vec![]);
}

#[test]
fn actions_do_nothing_without_play_or_body() {
    let a = set(&[ActionFlag::MinimizeSpeed, ActionFlag::MoveForward, ActionFlag::TwoBullets]);
    let mut s = ship(20);
    let mut w = WeaponKind::OneBullet;
    let mut fs = false;
    assert!(actions(GameState::Paused, true, &a, &mut s, &mut w, &mut fs).is_empty());
    assert!(actions(GameState::Playing, false, &a, &mut s, &mut w, &mut fs).is_empty());
    assert_eq!(s.speed, 20);
    assert!(!s.tracing);
    assert_eq!(w, WeaponKind::OneBullet);
}

#[test]
fn actions_turn_into_commands_in_order() {
    let a = set(&[
        ActionFlag::TurnRight,
        ActionFlag::MoveLeft,
        ActionFlag::MoveForward,
        ActionFlag::ZoomIn,
        ActionFlag::Shoot,
    ]);
    let mut s = ship(10);
    let mut w = WeaponKind::OneBullet;
    let mut fs = false;
    let cmds = actions(GameState::Playing, true, &a, &mut s, &mut w, &mut fs);
    assert_eq!(
        cmds,
        vec![
            Command::Impulse(Thrust::Forward),
            Command::Impulse(Thrust::Left),
            Command::Torque(Turn::Right),
            Command::ZoomIn,
            Command::DampBySpeed,
        ]
    );
    assert!(s.tracing);
    assert_eq!(s.speed, 10);
}

#[test]
fn braking_replaces_speed_damping() {
    let a = set(&[ActionFlag::Brake, ActionFlag::TurnLeft]);
    let mut s = ship(10);
    s.tracing = true;
    let mut w = WeaponKind::OneBullet;
    let mut fs = false;
    let cmds = actions(GameState::Playing, true, &a, &mut s, &mut w, &mut fs);
    assert_eq!(cmds, vec![Command::Torque(Turn::Left), Command::Brake]);
    assert!(!s.tracing);
}

#[test]
fn speed_steps_stop_at_the_limits() {
    let mut w = WeaponKind::OneBullet;
    let mut fs = false;
    let mut s = ship(MAX_SPEED);
    actions(GameState::Playing, true, &set(&[ActionFlag::IncreaseSpeed]), &mut s, &mut w, &mut fs);
    assert_eq!(s.speed, 50);
    let mut s = ship(0);
    actions(GameState::Playing, true, &set(&[ActionFlag::DecreaseSpeed]), &mut s, &mut w, &mut fs);
    assert_eq!(s.speed, 0);
    let mut s = ship(7);
    actions(GameState::Playing, true, &set(&[ActionFlag::IncreaseSpeed]), &mut s, &mut w, &mut fs);
    assert_eq!(s.speed, 8);
    actions(GameState::Playing, true, &set(&[ActionFlag::DecreaseSpeed]), &mut s, &mut w, &mut fs);
    assert_eq!(s.speed, 7);
    actions(GameState::Playing, true, &set(&[ActionFlag::MaximizeSpeed]), &mut s, &mut w, &mut fs);
    assert_eq!(s.speed, 50);
    actions(GameState::Playing, true, &set(&[ActionFlag::MinimizeSpeed, ActionFlag::MaximizeSpeed]), &mut s, &mut w, &mut fs);
    assert_eq!(s.speed, 0);
    // A step up is taken before a step down.
    let mut s = ship(50);
    actions(GameState::Playing, true, &set(&[ActionFlag::IncreaseSpeed, ActionFlag::DecreaseSpeed]), &mut s, &mut w, &mut fs);
    assert_eq!(s.speed, 49);
}

#[test]
fn speed_never_leaves_range_over_many_frames() {
    let mut w = WeaponKind::OneBullet;
    let mut fs = false;
    let mut s = ship(25);
    for k in 0..200u64 {
        let bits = k.wrapping_mul(0x9E37_79B9_7F4A_7C15) & 0x1ff_ffff;
        let a = Action::from_bits_retain(bits);
        actions(GameState::Playing, true, &a, &mut s, &mut w, &mut fs);
        assert!(0 <= s.speed && s.speed <= MAX_SPEED);
    }
}

#[test]
fn weapon_and_fullscreen_last_choice_wins() {
    let mut s = ship(5);
    let mut w = WeaponKind::OneBullet;
    let mut fs = false;
    let cmds = actions(
        GameState::Playing,
        true,
        &set(&[ActionFlag::OneBullet, ActionFlag::TwoBullets, ActionFlag::FullscreenOn, ActionFlag::FullscreenOff, ActionFlag::Brake]),
        &mut s,
        &mut w,
        &mut fs,
    );
    assert_eq!(w, WeaponKind::TwoBullets);
    assert!(!fs);
    assert_eq!(
        cmds,
        vec![Command::Brake, Command::SetFullscreen(true), Command::SetFullscreen(false)]
    );
}

#[test]
fn key_bindings_through_control_and_actions() {
    // Control + F toggles fullscreen.
    let mut keys = no_keys();
    keys.left_control = true;
    keys.f = true;
    let mut s = ship(30);
    let mut w = WeaponKind::TwoBullets;
    let mut fs = false;
    for expected in [true, false, true] {
        let a = control(GameState::Playing, &keys, 0, fs).unwrap();
        actions(GameState::Playing, true, &a, &mut s, &mut w, &mut fs);
        assert_eq!(fs, expected);
    }
    // Key 1 selects the one-bullet weapon, Q lowers the speed.
    let mut keys = no_keys();
    keys.key1 = true;
    keys.q = true;
    let a = control(GameState::Playing, &keys, 0, fs).unwrap();
    actions(GameState::Playing, true, &a, &mut s, &mut w, &mut fs);
    assert_eq!(w, WeaponKind::OneBullet);
    assert_eq!(s.speed, 29);
    // Equal sets the highest speed.
    let mut keys = no_keys();
    keys.equal = true;
    let a = control(GameState::Playing, &keys, 0, fs).unwrap();
    actions(GameState::Playing, true, &a, &mut s, &mut w, &mut fs);
    assert_eq!(s.speed, MAX_SPEED);
}

#[test]
fn shooting_needs_play_shoot_reload_and_sprite() {
    let shoot = set(&[ActionFlag::Shoot]);
    assert_eq!(shooting(GameState::Playing, &shoot, 100, WeaponKind::OneBullet, true), vec![BulletSlot::Middle]);
    assert_eq!(
        shooting(GameState::Playing, &shoot, 250, WeaponKind::TwoBullets, true),
        vec![BulletSlot::FirstThird, BulletSlot::SecondThird]
    );
    assert!(shooting(GameState::Playing, &shoot, 99, WeaponKind::OneBullet, true).is_empty());
    assert!(shooting(GameState::Playing, &shoot, 100, WeaponKind::OneBullet, false).is_empty());
    assert!(shooting(GameState::Paused, &shoot, 100, WeaponKind::OneBullet, true).is_empty());
    assert!(shooting(GameState::Playing, &Action::nothing(), 100, WeaponKind::OneBullet, true).is_empty());
}

#[test]
fn collision_groups_of_each_body() {
    let p = collision_groups(BodyKind::Player);
    assert_eq!((p.memberships, p.filter), (0b1, 0b11));
    let a = collision_groups(BodyKind::Asteroid);
    assert_eq!((a.memberships, a.filter), (0b10, 0b10_0000_0011));
    let b = collision_groups(BodyKind::Bullet);
    assert_eq!((b.memberships, b.filter), (0b10_0000_0000, 0b10_0000_0010));
    let o = collision_groups(BodyKind::Other);
    assert_eq!((o.memberships, o.filter), (1 << 31, 1 << 31));
}

fn interact(a: BodyKind, b: BodyKind) -> bool {
    let (x, y) = (collision_groups(a), collision_groups(b));
    (x.memberships & y.filter) != 0 && (y.memberships & x.filter) != 0
}

#[test]
fn bullets_never_hit_the_player_but_hit_asteroids() {
    assert!(!interact(BodyKind::Bullet, BodyKind::Player));
    assert!(!interact(BodyKind::Player, BodyKind::Bullet));
    assert!(interact(BodyKind::Bullet, BodyKind::Asteroid));
    assert!(interact(BodyKind::Player, BodyKind::Asteroid));
    assert!(interact(BodyKind::Asteroid, BodyKind::Asteroid));
    assert!(interact(BodyKind::Bullet, BodyKind::Bullet));
    assert!(!interact(BodyKind::Other, BodyKind::Asteroid));
    assert!(interact(BodyKind::Other, BodyKind::Other));
}

#[test]
fn entity_bits_round_trip_through_user_data() {
    for bits in [0u64, 1, 42, u64::MAX, 0x1234_5678_9abc_def0] {
        assert_eq!(entity_bits_of(Some(user_data_of(bits))), bits);
    }
    assert_eq!(entity_bits_of(None), 0);
    assert_eq!(entity_bits_of(Some((7u128 << 64) | 5)), 5);
    assert_eq!(user_data_of(9), 9u128);
}

#[test]
fn spark_runs_for_nine_frames() {
    let mut a = spark_animation();
    assert_eq!(a.keys, vec!["spark-a-0", "spark-a-1", "spark-a-2"]);
    let mut shown = Vec::new();
    loop {
        match a.advance() {
            AnimationStep::Finished => break,
            AnimationStep::Show(i) => shown.push(i),
        }
    }
    assert_eq!(shown, vec![0, 0, 1, 1, 1, 2, 2, 2]);
    assert_eq!(a.frame, 9);
}

#[test]
fn effects_pause_outside_play() {
    let mut a = Animation { frame: 2, speed: 2, count: 2, keys: vec!["x".to_string(), "y".to_string()] };
    assert_eq!(effects(GameState::Paused, &mut a), None);
    assert_eq!(a.frame, 2);
    assert_eq!(effects(GameState::Playing, &mut a), Some(AnimationStep::Show(1)));
    assert_eq!(effects(GameState::Playing, &mut a), Some(AnimationStep::Finished));
}

#[test]
fn collisions_leave_a_spark_for_bullets_only() {
    let s = collisions(GameState::Playing, true, true).unwrap();
    assert_eq!((s.frame, s.speed, s.count), (0, 3, 3));
    assert!(collisions(GameState::Playing, false, true).is_none());
    assert!(collisions(GameState::Playing, true, false).is_none());
    assert!(collisions(GameState::Over, true, true).is_none());
}

fn keys(list: &[&str]) -> Vec<String> {
    list.iter().map(|k| k.to_string()).collect()
}

const ALL_SPRITES: [&str; 5] = [
    "player-ship-a-blue",
    "asteroid-a-grey-big",
    "asteroid-a-brown-small",
    "asteroid-c-brown-big",
    "asteroid-b-brown-tiny",
];

#[test]
fn world_layout_and_player_ship() {
    let w = load_world(&keys(&ALL_SPRITES));
    assert_eq!(w.len(), 9);
    assert_eq!(w[0].body, BodyKind::Player);
    assert_eq!(w[0].sprite, "player-ship-a-blue");
    assert_eq!((w[0].x, w[0].y), (500, 500));
    let start = w[0].start.as_ref().unwrap();
    assert_eq!(start.ship.speed, 50);
    assert!(!start.ship.tracing);
    assert_eq!(start.ship.trace.key, "trace-b-wide");
    assert_eq!(start.weapon, WeaponKind::OneBullet);
    assert!(start.actions.is_empty());
    assert_eq!(w[4].sprite, "asteroid-b-brown-tiny");
    assert_eq!((w[4].x, w[4].y), (1000, 1000));
    assert_eq!((w[8].x, w[8].y), (700, 700));
    assert!(w[1..].iter().all(|s| s.body == BodyKind::Asteroid && s.start.is_none()));
    let s = initial_ship();
    assert_eq!(s.speed, 50);
    assert!(!s.tracing);
    assert_eq!(s.trace.key, "trace-b-wide");
}

#[test]
fn world_with_one_asteroid_sprite() {
    let w = load_world(&keys(&["asteroid-a-grey-big", "bullet-a"]));
    assert_eq!(w.len(), 2);
    assert!(w.iter().all(|s| s.body == BodyKind::Asteroid && s.sprite == "asteroid-a-grey-big"));
    assert_eq!((w[0].x, w[0].y), (0, 0));
    assert_eq!((w[1].x, w[1].y), (300, 300));
}

#[test]
fn world_without_sprites_is_empty() {
    assert!(load_world(&Vec::new()).is_empty());
    assert!(load_world(&keys(&["bullet-a", "spark-a-0"])).is_empty());
}

#[test]
fn more_sprites_only_add_spawns() {
    let fewer = load_world(&keys(&["asteroid-c-brown-big", "player-ship-a-blue"]));
    let more = load_world(&keys(&["asteroid-c-brown-big", "asteroid-a-grey-big", "player-ship-a-blue"]));
    let kept: Vec<(String, i32, i32)> = more
        .iter()
        .filter(|s| s.sprite != "asteroid-a-grey-big")
        .map(|s| (s.sprite.clone(), s.x, s.y))
        .collect();
    let got: Vec<(String, i32, i32)> = fewer.iter().map(|s| (s.sprite.clone(), s.x, s.y)).collect();
    assert_eq!(got, kept);
    assert_eq!(fewer.len(), 3);
    assert_eq!(more.len(), 5);
}

#[test]
fn body_kind_prefers_player() {
    assert_eq!(body_kind(true, true), BodyKind::Player);
    assert_eq!(body_kind(false, true), BodyKind::Asteroid);
    assert_eq!(body_kind(false, false), BodyKind::Other);
}

#[test]
fn animation_past_its_length_runs_while_a_sprite_exists() {
    let mut a = Animation {
        frame: 4,
        speed: 2,
        count: 2,
        keys: vec!["a".to_string(), "b".to_string(), "c".to_string(), "d".to_string()],
    };
    assert!(a.can_advance());
    assert_eq!(a.advance(), AnimationStep::Show(2));
    assert!(a.can_advance());
    assert_eq!(a.advance(), AnimationStep::Show(3));
    assert!(a.can_advance());
    assert_eq!(a.advance(), AnimationStep::Show(3));
    assert!(!a.can_advance());
    let zero = Animation { frame: 0, speed: 0, count: 1, keys: vec!["a".to_string()] };
    assert!(!zero.can_advance());
    let big = Animation { frame: 0, speed: 0x10000, count: 0x10000, keys: vec!["a".to_string()] };
    assert!(!big.can_advance());
    let last = Animation { frame: 5, speed: 3, count: 2, keys: vec![] };
    assert!(last.can_advance());
}

#[test]
fn collision_groups_agree_with_the_physics_engine() {
    let kinds = [BodyKind::Player, BodyKind::Asteroid, BodyKind::Bullet, BodyKind::Other];
    for a in kinds {
        for b in kinds {
            let (x, y) = (collision_groups(a), collision_groups(b));
            let gx = InteractionGroups::new(Group::from_bits_retain(x.memberships), Group::from_bits_retain(x.filter));
            let gy = InteractionGroups::new(Group::from_bits_retain(y.memberships), Group::from_bits_retain(y.filter));
            assert_eq!(gx.test(gy), interact(a, b));
        }
    }
    assert!(!interact(BodyKind::Player, BodyKind::Bullet));
}
