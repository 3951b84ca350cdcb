use animation_tree::animation::{Animation, ConfigError};
use animation_tree::driver::ControlDriver;
use animation_tree::tree::{AnimationNode, Frame, Node, SwitchNode};

const SECOND: u64 = 1_000_000_000;

fn driver(name: &str, auto: bool) -> ControlDriver {
    ControlDriver { name: String::from(name), auto }
}

fn leaf(name: &str, auto: bool, indices: &[usize]) -> AnimationNode {
    let mut frames = Vec::new();
    for index in indices {
        frames.push(Frame::new(*index));
    }
    AnimationNode { frames, driver: driver(name, auto) }
}

fn idle_animation(fps: i32) -> Animation {
    let root = SwitchNode {
        driver: driver("root", false),
        nodes: vec![Node::Leaf(leaf("idle", true, &[4, 5]))],
    };
    Animation::new(String::from("idle"), fps, root).unwrap()
}

fn direction_animation() -> Animation {
    let root = SwitchNode {
        driver: driver("direction", false),
        nodes: vec![Node::Leaf(leaf("down", true, &[10])), Node::Leaf(leaf("up", true, &[20]))],
    };
    Animation::new(String::from("walk"), 1, root).unwrap()
}

#[test]
fn automatic_leaf_cycles_through_its_frames() {
    let mut animation = idle_animation(1);
    let mut sprite = 0usize;
    animation.update(SECOND, &mut sprite);
    assert_eq!(sprite, 4);
    animation.update(SECOND, &mut sprite);
    assert_eq!(sprite, 5);
    animation.update(SECOND, &mut sprite);
    assert_eq!(sprite, 4);
}

#[test]
fn animate_runs_a_pass_without_the_timer() {
    let mut animation = idle_animation(1);
    let mut sprite = 99usize;
    animation.animate(&mut sprite);
    assert_eq!(sprite, 4);
    animation.animate(&mut sprite);
    assert_eq!(sprite, 5);
    animation.animate(&mut sprite);
    assert_eq!(sprite, 4);
}

#[test]
fn manual_switch_follows_what_callers_set() {
    let mut animation = direction_animation();
    let mut sprite = 0usize;
    animation.update(SECOND, &mut sprite);
    assert_eq!(sprite, 10);
    animation.update(SECOND, &mut sprite);
    assert_eq!(sprite, 10);
    animation.update(SECOND, &mut sprite);
    assert_eq!(sprite, 10);
    animation.set(String::from("direction"), 1);
    animation.update(SECOND, &mut sprite);
    assert_eq!(sprite, 20);
    animation.update(SECOND, &mut sprite);
    assert_eq!(sprite, 20);
}

#[test]
fn no_animation_at_a_rate_of_zero_or_less() {
    let root = SwitchNode { driver: driver("root", false), nodes: vec![Node::Leaf(leaf("idle", true, &[4]))] };
    assert_eq!(Animation::new(String::from("a"), 0, root).err(), Some(ConfigError::NonPositiveRate));
    let root = SwitchNode { driver: driver("root", false), nodes: vec![Node::Leaf(leaf("idle", true, &[4]))] };
    assert_eq!(Animation::new(String::from("a"), -5, root).err(), Some(ConfigError::NonPositiveRate));
}

#[test]
fn animation_over_a_branch_without_children_is_made() {
    let empty = SwitchNode { driver: driver("inner", true), nodes: Vec::new() };
    let root = SwitchNode { driver: driver("outer", false), nodes: vec![Node::Branch(empty)] };
    let made = Animation::new(String::from("a"), 12, root);
    assert!(made.is_ok());
    let mut animation = made.unwrap();
    let mut sprite = 7usize;
    animation.update(SECOND, &mut sprite);
    assert_eq!(sprite, 7);
    assert_eq!(animation.get(String::from("inner")), 0);
}

#[test]
fn animation_over_a_root_without_children_is_made() {
    let root = SwitchNode { driver: driver("outer", true), nodes: Vec::new() };
    let mut animation = Animation::new(String::from("a"), 1, root).unwrap();
    let mut sprite = 7usize;
    animation.animate(&mut sprite);
    assert_eq!(sprite, 7);
    assert_eq!(animation.get(String::from("outer")), 0);
}

#[test]
fn leaf_without_frames_leaves_the_sprite() {
    let root = SwitchNode { driver: driver("root", false), nodes: vec![Node::Leaf(leaf("idle", true, &[]))] };
    let mut animation = Animation::new(String::from("a"), 1, root).unwrap();
    let mut sprite = 7usize;
    animation.update(SECOND, &mut sprite);
    assert_eq!(sprite, 7);
    assert_eq!(animation.get(String::from("idle")), 0);
}

#[test]
fn update_before_the_period_changes_nothing() {
    let mut animation = idle_animation(2);
    let mut sprite = 99usize;
    animation.set(String::from("idle"), 1);
    animation.update(SECOND / 2 - 1, &mut sprite);
    assert_eq!(sprite, 99);
    assert_eq!(animation.get(String::from("idle")), 1);
    animation.update(1, &mut sprite);
    assert_eq!(sprite, 5);
    assert_eq!(animation.get(String::from("idle")), 2);
}

#[test]
fn update_runs_one_pass_for_many_periods() {
    let mut animation = idle_animation(10);
    let mut sprite = 0usize;
    animation.update(5 * SECOND, &mut sprite);
    assert_eq!(sprite, 4);
    assert_eq!(animation.get(String::from("idle")), 1);
    animation.update(SECOND / 10 - 1, &mut sprite);
    assert_eq!(sprite, 4);
    animation.update(1, &mut sprite);
    assert_eq!(sprite, 5);
}

#[test]
fn get_reads_what_is_staged_only() {
    let mut animation = direction_animation();
    let mut sprite = 0usize;
    assert_eq!(animation.get(String::from("direction")), 0);
    animation.set(String::from("direction"), 1);
    assert_eq!(animation.get(String::from("direction")), 1);
    assert_eq!(animation.get(String::from("direction")), 1);
    animation.update(SECOND, &mut sprite);
    assert_eq!(sprite, 20);
    assert_eq!(animation.get(String::from("direction")), 0);
    animation.update(SECOND, &mut sprite);
    assert_eq!(sprite, 20);
}

#[test]
fn get_shows_the_counter_that_a_pass_staged() {
    let mut animation = idle_animation(1);
    let mut sprite = 0usize;
    animation.update(SECOND, &mut sprite);
    assert_eq!(animation.get(String::from("idle")), 1);
    animation.update(SECOND, &mut sprite);
    assert_eq!(animation.get(String::from("idle")), 2);
    animation.update(SECOND, &mut sprite);
    assert_eq!(animation.get(String::from("idle")), 1);
    assert_eq!(animation.get(String::from("root")), 0);
}

#[test]
fn set_after_a_pass_wins_over_what_the_pass_staged() {
    let mut animation = idle_animation(1);
    let mut sprite = 0usize;
    animation.update(SECOND, &mut sprite);
    assert_eq!(sprite, 4);
    animation.set(String::from("idle"), 0);
    animation.update(SECOND, &mut sprite);
    assert_eq!(sprite, 4);
    animation.update(SECOND, &mut sprite);
    assert_eq!(sprite, 5);
}

#[test]
fn last_set_before_a_pass_wins() {
    let mut animation = direction_animation();
    let mut sprite = 0usize;
    animation.set(String::from("direction"), 1);
    animation.set(String::from("direction"), 0);
    animation.update(SECOND, &mut sprite);
    assert_eq!(sprite, 10);
    animation.set(String::from("direction"), 0);
    animation.set(String::from("direction"), 3);
    animation.update(SECOND, &mut sprite);
    assert_eq!(sprite, 20);
}

#[test]
fn two_level_tree_switches_between_animations() {
    let moving = SwitchNode {
        driver: driver("direction", false),
        nodes: vec![
            Node::Leaf(leaf("walk_down", true, &[10, 11, 12])),
            Node::Leaf(leaf("walk_up", true, &[20, 21])),
        ],
    };
    let root = SwitchNode {
        driver: driver("is_moving", false),
        nodes: vec![Node::Leaf(leaf("idle", true, &[1, 2])), Node::Branch(moving)],
    };
    let mut animation = Animation::new(String::from("player"), 1, root).unwrap();
    let mut sprite = 0usize;
    animation.update(SECOND, &mut sprite);
    assert_eq!(sprite, 1);
    animation.update(SECOND, &mut sprite);
    assert_eq!(sprite, 2);
    animation.set(String::from("is_moving"), 1);
    animation.update(SECOND, &mut sprite);
    assert_eq!(sprite, 10);
    animation.update(SECOND, &mut sprite);
    assert_eq!(sprite, 11);
    animation.set(String::from("direction"), 1);
    animation.update(SECOND, &mut sprite);
    assert_eq!(sprite, 20);
    animation.update(SECOND, &mut sprite);
    assert_eq!(sprite, 21);
    animation.set(String::from("direction"), 0);
    animation.update(SECOND, &mut sprite);
    assert_eq!(sprite, 12);
    animation.set(String::from("is_moving"), 0);
    animation.update(SECOND, &mut sprite);
    assert_eq!(sprite, 1);
}

#[test]
fn default_drivers_animate_on_their_own() {
    let node = AnimationNode {
        frames: vec![Frame::new(30), Frame::new(31), Frame::new(32)],
        driver: ControlDriver::default(),
    };
    let root = SwitchNode { driver: ControlDriver::default(), nodes: vec![Node::Leaf(node)] };
    let mut animation = Animation::new(String::from("spin"), 1, root).unwrap();
    let mut sprite = 0usize;
    animation.update(SECOND, &mut sprite);
    assert_eq!(sprite, 30);
    animation.update(SECOND, &mut sprite);
    assert_eq!(sprite, 31);
    animation.update(SECOND, &mut sprite);
    assert_eq!(sprite, 32);
    animation.update(SECOND, &mut sprite);
    assert_eq!(sprite, 30);
}
