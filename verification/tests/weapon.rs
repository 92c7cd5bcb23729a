use bevy::input::keyboard::KeyCode;
use bevy::input::Input;
use bevy::math::Vec3;
use laserscape::cooldown::Cooldown;
use laserscape::weapon::{fire_weapons, tick_timers, Weapon, Weapons};

const COOLDOWN: u64 = 150_000_000;
const FRAME: u64 = 16_666_667;

fn gun(trigger: KeyCode, x: f32) -> Weapon {
    Weapon { trigger, offset: Vec3::new(x, 5.0, 0.0), cooldown: Cooldown::new(COOLDOWN) }
}

fn ready(trigger: KeyCode, x: f32) -> Weapon {
    let mut w = gun(trigger, x);
    w.cooldown.tick(COOLDOWN);
    w
}

fn keyboard(keys: &[KeyCode]) -> Input<KeyCode> {
    let mut input: Input<KeyCode> = Input::default();
    for key in keys {
        input.press(*key);
    }
    input
}

#[test]
fn pull_trigger_fires_a_ready_weapon_and_starts_its_cooldown_over() {
    let mut w = ready(KeyCode::C, 20.0);
    assert!(w.pull_trigger(true));
    assert_eq!((w.cooldown.elapsed(), w.cooldown.finished()), (0, false));
    assert_eq!(w.trigger, KeyCode::C);
    assert_eq!(w.offset, Vec3::new(20.0, 5.0, 0.0));
}

#[test]
fn pull_trigger_without_the_key_does_nothing() {
    let mut w = ready(KeyCode::C, 20.0);
    assert!(!w.pull_trigger(false));
    assert_eq!((w.cooldown.elapsed(), w.cooldown.finished()), (COOLDOWN, true));
}

#[test]
fn pull_trigger_while_cooling_down_does_nothing() {
    let mut w = gun(KeyCode::C, 20.0);
    w.cooldown.tick(COOLDOWN - 1);
    assert!(!w.pull_trigger(true));
    assert_eq!((w.cooldown.elapsed(), w.cooldown.finished()), (COOLDOWN - 1, false));
}

#[test]
fn new_weapon_has_to_cool_down_before_its_first_shot() {
    let mut weapons = Weapons(vec![gun(KeyCode::C, 20.0)]);
    let input = keyboard(&[KeyCode::C]);
    assert_eq!(fire_weapons(&mut weapons, &input), vec![]);
    tick_timers(&mut weapons, COOLDOWN);
    assert_eq!(fire_weapons(&mut weapons, &input), vec![0]);
}

#[test]
fn weapon_does_not_fire_twice_in_one_frame() {
    let mut weapons = Weapons(vec![ready(KeyCode::C, 20.0)]);
    let input = keyboard(&[KeyCode::C]);
    assert_eq!(fire_weapons(&mut weapons, &input), vec![0]);
    assert_eq!(fire_weapons(&mut weapons, &input), vec![]);
}

#[test]
fn held_key_fires_at_the_rate_of_the_cooldown() {
    let mut weapons = Weapons(vec![ready(KeyCode::C, 20.0)]);
    let input = keyboard(&[KeyCode::C]);
    let mut shots: Vec<u64> = Vec::new();
    let mut now: u64 = 0;
    for _ in 0..60 {
        if fire_weapons(&mut weapons, &input) == vec![0] {
            shots.push(now);
        }
        tick_timers(&mut weapons, FRAME);
        now += FRAME;
    }
    assert_eq!(shots.len(), 7);
    assert_eq!(shots[0], 0);
    for pair in shots.windows(2) {
        assert!(pair[1] - pair[0] >= COOLDOWN);
        assert_eq!(pair[1] - pair[0], 9 * FRAME);
    }
}

#[test]
fn unheld_key_fires_nothing() {
    let mut weapons = Weapons(vec![ready(KeyCode::C, 20.0), ready(KeyCode::C, -20.0)]);
    let input = keyboard(&[KeyCode::N]);
    assert_eq!(fire_weapons(&mut weapons, &input), vec![]);
    assert!(weapons.0[0].cooldown.finished());
    assert!(weapons.0[1].cooldown.finished());
}

#[test]
fn weapons_on_one_key_fire_together() {
    let mut weapons = Weapons(vec![ready(KeyCode::C, 20.0), ready(KeyCode::C, -20.0)]);
    let input = keyboard(&[KeyCode::C]);
    assert_eq!(fire_weapons(&mut weapons, &input), vec![0, 1]);
    assert_eq!(weapons.0[0].cooldown.elapsed(), 0);
    assert_eq!(weapons.0[1].cooldown.elapsed(), 0);
}

#[test]
fn weapons_cool_down_independently() {
    let mut weapons = Weapons(vec![
        ready(KeyCode::C, 20.0),
        gun(KeyCode::C, -20.0),
        ready(KeyCode::N, 0.0),
        ready(KeyCode::C, 7.0),
    ]);
    let input = keyboard(&[KeyCode::C]);
    assert_eq!(fire_weapons(&mut weapons, &input), vec![0, 3]);
    assert_eq!(weapons.0[0].cooldown.elapsed(), 0);
    assert_eq!(weapons.0[1].cooldown.elapsed(), 0);
    assert!(!weapons.0[1].cooldown.finished());
    assert!(weapons.0[2].cooldown.finished());
    assert_eq!(weapons.0[3].cooldown.elapsed(), 0);
    assert_eq!(weapons.0[3].offset, Vec3::new(7.0, 5.0, 0.0));
    assert_eq!(weapons.0.len(), 4);
}

#[test]
fn fire_weapons_on_an_empty_list_fires_nothing() {
    let mut weapons = Weapons(Vec::new());
    let input = keyboard(&[KeyCode::C]);
    assert_eq!(fire_weapons(&mut weapons, &input), vec![]);
    tick_timers(&mut weapons, FRAME);
    assert!(weapons.0.is_empty());
}

#[test]
fn tick_timers_advances_every_running_cooldown() {
    let mut weapons = Weapons(vec![gun(KeyCode::C, 20.0), ready(KeyCode::C, -20.0), gun(KeyCode::N, 0.0)]);
    weapons.0[2].cooldown.tick(COOLDOWN - 10);
    tick_timers(&mut weapons, FRAME);
    assert_eq!((weapons.0[0].cooldown.elapsed(), weapons.0[0].cooldown.finished()), (FRAME, false));
    assert_eq!((weapons.0[1].cooldown.elapsed(), weapons.0[1].cooldown.finished()), (COOLDOWN, true));
    assert_eq!((weapons.0[2].cooldown.elapsed(), weapons.0[2].cooldown.finished()), (COOLDOWN, true));
    assert_eq!(weapons.0[0].trigger, KeyCode::C);
    assert_eq!(weapons.0[2].trigger, KeyCode::N);
}

#[test]
fn tick_timers_keeps_the_weapons_in_place() {
    let mut weapons = Weapons(vec![gun(KeyCode::C, 20.0), gun(KeyCode::N, -20.0)]);
    tick_timers(&mut weapons, 1);
    assert_eq!(weapons.0.len(), 2);
    assert_eq!(weapons.0[0].offset, Vec3::new(20.0, 5.0, 0.0));
    assert_eq!(weapons.0[1].offset, Vec3::new(-20.0, 5.0, 0.0));
    assert_eq!(weapons.0[1].trigger, KeyCode::N);
}
