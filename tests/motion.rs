use sm64ds_tunneling::fix::Fix;
use sm64ds_tunneling::player::{Character, Player, State};
use sm64ds_tunneling::yoshi::{self, Yoshi};

fn raw(f: Fix) -> i32 {
    f.val()
}

#[test]
fn new_sets_jump_velocity() {
    let p = Player::new(Character::Mario, Fix::new_raw(0), Fix::new_raw(0), 0);
    assert_eq!(raw(p.velocity_y()), 172032);
    assert_eq!(raw(p.position_y()), 0);
    let p = Player::new(Character::Yoshi, Fix::new_raw(0), Fix::new_raw(40960), 1);
    assert_eq!(raw(p.velocity_y()), 200887);
    let p = Player::new(Character::Wario, Fix::new_raw(204800), Fix::new_raw(-8192), 2);
    assert_eq!(raw(p.velocity_y()), 230023);
    assert!(p.triple_jump);
}

#[test]
fn first_update_only_arms_the_jump() {
    let mut p = Player::new(Character::Mario, Fix::new_raw(0), Fix::new_raw(0), 0);
    p.update(false);
    assert_eq!(p.state, State::Jump);
    assert_eq!(raw(p.velocity_y()), 172032 - 16384);
    assert_eq!(raw(p.position_y()), 172032 - 16384);
}

#[test]
fn rising_acceleration_depends_on_button() {
    let mut held = Player::new(Character::Mario, Fix::new_raw(0), Fix::new_raw(0), 0);
    held.update(true);
    let mut released = held.clone();
    held.update(true);
    released.update(false);
    assert_eq!(raw(held.velocity_y()), 155648 - 13312);
    assert_eq!(raw(released.velocity_y()), 155648 - 32768);
    assert_eq!(raw(held.position_y()), 155648 + 155648 - 13312);
}

#[test]
fn luigi_slow_fall_when_holding() {
    let mut p = Player::new(Character::Luigi, Fix::new_raw(0), Fix::new_raw(0), 0);
    p.velocity_y = Fix::new_raw(-100);
    p.update_jump_luigi(true);
    assert_eq!(raw(p.vert_accel), -4096);
    p.update_jump_luigi(false);
    assert_eq!(raw(p.vert_accel), -16384);
    p.update_jump(true);
    assert_eq!(raw(p.vert_accel), -16384);
}

#[test]
fn triple_jump_always_holds() {
    let mut a = Player::new(Character::Mario, Fix::new_raw(0), Fix::new_raw(0), 2);
    let mut b = a.clone();
    for _ in 0..5 {
        a.update(true);
        b.update(false);
    }
    assert_eq!(a, b);
}

#[test]
fn yoshi_flutter_starts_below_threshold() {
    let mut p = Player::new(Character::Yoshi, Fix::new_raw(0), Fix::new_raw(0), 0);
    p.state = State::Jump;
    p.velocity_y = Fix::new_raw(-40000);
    p.update_jump_yoshi(true);
    assert!(p.is_flutter_jumping);
    assert_eq!(raw(p.vert_accel), 0);
    p.update_jump_yoshi(true);
    assert_eq!(raw(p.velocity_y()), -40000 + 3072);
    p.update_jump_yoshi(false);
    assert!(!p.is_flutter_jumping);
    assert!(!p.can_flutter_jump);
    p.update_jump_yoshi(true);
    assert!(!p.is_flutter_jumping);
    assert_eq!(raw(p.vert_accel), -14745);
}

#[test]
fn velocity_is_clamped_at_terminal() {
    let mut p = Player::new(Character::Mario, Fix::new_raw(1000000), Fix::new_raw(0), 0);
    p.state = State::Jump;
    p.velocity_y = Fix::new_raw(-300000);
    p.update(false);
    assert_eq!(raw(p.velocity_y()), -307200);
    assert_eq!(raw(p.position_y()), 1000000 - 307200);
}

#[test]
fn ground_pound_from_floor_goes_below() {
    let mut p = Player::new(Character::Mario, Fix::new_raw(0), Fix::new_raw(0), 0);
    p.update_ground_pound_until_below();
    assert_eq!(raw(p.position_y()), -4096);
}

#[test]
fn ground_pound_falls_until_negative() {
    let mut p = Player::new(Character::Mario, Fix::new_raw(100000), Fix::new_raw(0), 0);
    p.state = State::Jump;
    p.update_ground_pound_until_below();
    assert_eq!(raw(p.position_y()), -96608);
    assert_eq!(raw(p.velocity_y()), -237568);
}

#[test]
fn identical_players_stay_identical() {
    let mut a = Player::new(Character::Luigi, Fix::new_raw(4096), Fix::new_raw(12345), 1);
    let mut b = Player::new(Character::Luigi, Fix::new_raw(4096), Fix::new_raw(12345), 1);
    for held in [true, true, false, true, false, false, true, true, true, false] {
        a.update(held);
        b.update(held);
        assert_eq!(a, b);
    }
}

#[test]
fn yoshi_standalone_model() {
    let mut y = Yoshi::new(Fix::new_raw(0), false);
    assert_eq!(raw(y.velocity_y()), 154812);
    y.update(true);
    assert_eq!(y.state, yoshi::State::Jump);
    assert_eq!(raw(y.position_y()), 154812 - 16384);
    y.update(true);
    assert_eq!(raw(y.vert_accel), -11059);
    y.update(false);
    assert_eq!(raw(y.vert_accel), -32768);
}

#[test]
fn update_until_counts_frames() {
    let mut p = Player::new(Character::Mario, Fix::new_raw(0), Fix::new_raw(0), 0);
    let frames = p.update_until(|_, frame| frame < 3, |q| q.position_y().val() < 0);
    let mut q = Player::new(Character::Mario, Fix::new_raw(0), Fix::new_raw(0), 0);
    let mut n = 0;
    while q.position_y().val() >= 0 {
        q.update(n < 3);
        n += 1;
    }
    assert_eq!(frames, n);
    assert_eq!(p, q);
    assert!(frames > 3);

    let mut r = Player::new(Character::Mario, Fix::new_raw(0), Fix::new_raw(0), 0);
    assert_eq!(r.update_until(|_, _| true, |_| true), 0);
}

#[test]
fn yoshi_update_until_counts_frames() {
    let mut y = Yoshi::new(Fix::new_raw(0), true);
    let frames = y.update_until(|_, _| false, |z| z.velocity_y().val() < 0);
    let mut z = Yoshi::new(Fix::new_raw(0), true);
    let mut n = 0;
    while z.velocity_y().val() >= 0 {
        z.update(false);
        n += 1;
    }
    assert_eq!(frames, n);
    assert_eq!(y, z);
}
