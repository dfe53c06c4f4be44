use shelf_nav::input::InputSnapshot;
use shelf_nav::layout::ShelfStructure;
use shelf_nav::player::Player;
use shelf_nav::shelf::ShelfPosition;

fn on(level: u32, start: i32, end: i32) -> ShelfPosition {
    ShelfPosition { level, start, end }
}

fn left() -> InputSnapshot {
    InputSnapshot { left: true, right: false, up: false, down: false }
}

fn right() -> InputSnapshot {
    InputSnapshot { left: false, right: true, up: false, down: false }
}

fn up() -> InputSnapshot {
    InputSnapshot { left: false, right: false, up: true, down: false }
}

fn down() -> InputSnapshot {
    InputSnapshot { left: false, right: false, up: false, down: true }
}

fn nothing() -> InputSnapshot {
    InputSnapshot { left: false, right: false, up: false, down: false }
}

#[test]
fn a_new_player_stands_on_the_first_shelf() {
    let layout = ShelfStructure::default();
    let player = Player::new(&layout).unwrap();
    assert_eq!(player.shelf, on(0, -8, 8));
    let other = ShelfStructure { level_count: 3, width: 8, shelves: vec![on(2, 1, 2), on(0, 0, 1)] };
    assert_eq!(Player::new(&other).unwrap().shelf, on(2, 1, 2));
}

#[test]
fn there_is_no_player_without_a_shelf() {
    let layout = ShelfStructure { level_count: 6, width: 32, shelves: Vec::new() };
    assert_eq!(Player::new(&layout), None);
}

#[test]
fn tick_steps_onto_the_target() {
    let layout = ShelfStructure::default();
    let mut player = Player::new(&layout).unwrap();
    assert_eq!(player.tick(&layout, &up()), Some(on(1, 3, 7)));
    assert_eq!(player.shelf, on(1, 3, 7));
    assert_eq!(player.tick(&layout, &left()), Some(on(1, -12, 1)));
    assert_eq!(player.shelf, on(1, -12, 1));
    assert_eq!(player.tick(&layout, &right()), Some(on(1, 3, 7)));
    assert_eq!(player.shelf, on(1, 3, 7));
    assert_eq!(player.tick(&layout, &down()), Some(on(0, -8, 8)));
    assert_eq!(player.shelf, on(0, -8, 8));
}

#[test]
fn tick_without_a_target_keeps_the_player() {
    let layout = ShelfStructure::default();
    let mut player = Player::new(&layout).unwrap();
    assert_eq!(player.tick(&layout, &down()), None);
    assert_eq!(player.shelf, on(0, -8, 8));
    assert_eq!(player.tick(&layout, &left()), None);
    assert_eq!(player.shelf, on(0, -8, 8));
    assert_eq!(player.tick(&layout, &right()), None);
    assert_eq!(player.shelf, on(0, -8, 8));
}

#[test]
fn tick_without_input_keeps_the_player() {
    let layout = ShelfStructure::default();
    let mut player = Player { shelf: on(3, 5, 9) };
    assert_eq!(player.tick(&layout, &nothing()), None);
    assert_eq!(player, Player { shelf: on(3, 5, 9) });
}

#[test]
fn tick_acts_on_one_direction_only() {
    let layout = ShelfStructure::default();
    let mut player = Player { shelf: on(5, -1, 2) };
    let all = InputSnapshot { left: true, right: true, up: true, down: true };
    assert_eq!(player.tick(&layout, &all), Some(on(5, -7, -3)));
    assert_eq!(player.shelf, on(5, -7, -3));
    // Nothing lies to the left now: the tick is spent, right is not tried.
    assert_eq!(player.tick(&layout, &all), None);
    assert_eq!(player.shelf, on(5, -7, -3));
}

#[test]
fn a_climb_through_the_standard_scene() {
    let layout = ShelfStructure::default();
    let mut player = Player::new(&layout).unwrap();
    let path = [on(1, 3, 7), on(2, -3, 9), on(3, 5, 9), on(4, 1, 4), on(5, -1, 2)];
    for step in path {
        assert_eq!(player.tick(&layout, &up()), Some(step));
        assert_eq!(player.shelf, step);
    }
    assert_eq!(player.tick(&layout, &up()), None);
    assert_eq!(player.shelf, on(5, -1, 2));
    let back = [on(4, 1, 4), on(3, -7, 3), on(2, -3, 9), on(1, 3, 7), on(0, -8, 8)];
    for step in back {
        assert_eq!(player.tick(&layout, &down()), Some(step));
    }
    assert_eq!(player.tick(&layout, &down()), None);
}

#[test]
fn the_player_stays_on_shelves_of_the_layout() {
    let layout = ShelfStructure::default();
    let mut player = Player::new(&layout).unwrap();
    let inputs = [up(), left(), up(), right(), up(), up(), down(), right(), up(), left(), nothing(), up(), right(), right()];
    for input in inputs.iter() {
        player.tick(&layout, input);
        assert!(layout.contains(&player.shelf));
    }
    assert_eq!(player.shelf, on(5, 5, 8));
}

#[test]
fn tick_leaves_the_layout_unchanged() {
    let layout = ShelfStructure::default();
    let before = layout.clone();
    let mut player = Player::new(&layout).unwrap();
    for input in [up(), right(), down(), left(), nothing()].iter() {
        player.tick(&layout, input);
        assert_eq!(layout.level_count, before.level_count);
        assert_eq!(layout.width, before.width);
        assert_eq!(layout.shelves, before.shelves);
    }
}
