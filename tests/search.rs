use sm64ds_tunneling::fix::Fix;
use sm64ds_tunneling::player::{Buttons, Character, Player, State};
use sm64ds_tunneling::search::{explore, find_setups, tunnel_bfs, yoshi_bfs};
use sm64ds_tunneling::yoshi::Yoshi;

fn encode(inputs: &[Buttons]) -> String {
    inputs
        .iter()
        .map(|b| if b.pressed_r { 'g' } else if b.held_b { 'v' } else { '^' })
        .collect()
}

fn replay(mut p: Player, inputs: &[Buttons]) -> Player {
    for b in inputs {
        if b.pressed_r {
            p.update_ground_pound_until_below();
        } else {
            p.update(b.held_b);
        }
    }
    p
}

fn falling_mario(position: i32) -> Player {
    let mut p = Player::new(Character::Mario, Fix::new_raw(position), Fix::new_raw(0), 0);
    p.state = State::Jump;
    p.velocity_y = Fix::new_raw(-307200);
    p
}

#[test]
fn mario_single_jump_from_floor() {
    let setups = tunnel_bfs(Character::Mario, Fix::new_raw(0), Fix::new_raw(0), 0);
    let mut found: Vec<(String, i32)> = setups.iter().map(|(i, o)| (encode(i), *o)).collect();
    found.sort();
    let mut expected = vec![
        ("v^^^^^vvvvg".to_string(), 0),
        ("vvvvv^vvvv^vvvvvg".to_string(), 0),
        ("vvvvvv^vvvvvvvg".to_string(), 0),
    ];
    expected.sort();
    assert_eq!(found, expected);
}

#[test]
fn reported_paths_replay_to_their_offset() {
    let start = Player::new(Character::Mario, Fix::new_raw(0), Fix::new_raw(0), 1);
    let setups = tunnel_bfs(Character::Mario, Fix::new_raw(0), Fix::new_raw(0), 1);
    assert_eq!(setups.len(), 4);
    let mut ends = vec![];
    for (inputs, offset) in &setups {
        let end = replay(start.clone(), inputs);
        let off = (end.position_y() - Fix::new_raw(-204800)).val();
        assert_eq!(off, *offset);
        assert!(-62 <= off && off < 64);
        assert!(!ends.contains(&end));
        ends.push(end);
    }
}

#[test]
fn ground_pound_reaches_window_from_the_floor() {
    let setups = tunnel_bfs(Character::Luigi, Fix::new_raw(0), Fix::new_raw(0), 0);
    assert_eq!(setups.len(), 3);
    for (inputs, offset) in &setups {
        assert!(inputs.last().unwrap().pressed_r);
        assert_eq!(*offset, 0);
    }
}

#[test]
fn no_setups_is_an_empty_result() {
    assert!(tunnel_bfs(Character::Wario, Fix::new_raw(0), Fix::new_raw(0), 1).is_empty());
    assert!(tunnel_bfs(Character::Mario, Fix::new_raw(0), Fix::new_raw(0), 2).is_empty());
}

#[test]
fn small_scenario_discovers_each_state_once() {
    let nodes = explore(falling_mario(100000));
    assert_eq!(nodes.len(), 3);
    let mut seen: Vec<(i32, i32)> =
        nodes.iter().map(|n| (n.state.position_y().val(), n.state.velocity_y().val())).collect();
    seen.sort();
    assert_eq!(seen, vec![(-207200, -307200), (-96608, -237568), (100000, -307200)]);
    assert!(nodes[0].back.is_none());
    for n in &nodes[1..] {
        assert_eq!(n.back.unwrap().0, 0);
    }
}

#[test]
fn one_frame_into_the_window() {
    let setups = find_setups(falling_mario(102410));
    assert_eq!(setups.len(), 1);
    assert_eq!(setups[0].1, 10);
    assert_eq!(encode(&setups[0].0), "v");
}

#[test]
fn start_inside_window_is_reported_with_no_inputs() {
    let setups = find_setups(falling_mario(-204800));
    assert_eq!(setups.len(), 1);
    assert!(setups[0].0.is_empty());
    assert_eq!(setups[0].1, 0);
}

#[test]
fn yoshi_single_jump_without_speed_has_no_setup() {
    assert!(yoshi_bfs(Fix::new_raw(0), false).is_empty());
}

#[test]
fn yoshi_single_jump_explores_every_state() {
    let setups = find_setups(Yoshi::new(Fix::new_raw(0), false));
    assert!(setups.is_empty());
    let nodes = explore(Yoshi::new(Fix::new_raw(0), false));
    assert_eq!(nodes.len(), 196848);
}
