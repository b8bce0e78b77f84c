use snake_game::direction::opposite;
use snake_game::direction::Direction;
use snake_game::modulo::modulo;
use snake_game::modulo::wrap_dec;
use snake_game::modulo::wrap_inc;
use snake_game::point::move_point;
use snake_game::point::random_point;
use snake_game::point::Point;
use snake_game::snake::Snake;

#[test]
fn opposite_maps_each_direction() {
    assert_eq!(opposite(&Direction::Up), Direction::Down);
    assert_eq!(opposite(&Direction::Down), Direction::Up);
    assert_eq!(opposite(&Direction::Left), Direction::Right);
    assert_eq!(opposite(&Direction::Right), Direction::Left);
}

#[test]
fn opposite_is_involutive() {
    let dirs = vec![Direction::Up, Direction::Down, Direction::Left, Direction::Right];
    for d in dirs {
        assert_eq!(opposite(&opposite(&d)), d);
    }
}

#[test]
fn modulo_handles_negative_operands() {
    assert_eq!(modulo(-1, 10), 9);
    assert_eq!(modulo(-10, 10), 0);
    assert_eq!(modulo(-11, 10), 9);
    assert_eq!(modulo(7, 3), 1);
    assert_eq!(modulo(0, 5), 0);
    assert_eq!(modulo(5, 5), 0);
}

#[test]
fn wrap_inc_wraps_at_the_edge() {
    let mut x: isize = 9;
    wrap_inc(&mut x, 10);
    assert_eq!(x, 0);
    let mut y: isize = 3;
    wrap_inc(&mut y, 10);
    assert_eq!(y, 4);
}

#[test]
fn wrap_dec_wraps_at_zero() {
    let mut x: isize = 0;
    wrap_dec(&mut x, 10);
    assert_eq!(x, 9);
    let mut y: isize = 4;
    wrap_dec(&mut y, 10);
    assert_eq!(y, 3);
}

#[test]
fn move_point_steps_each_axis() {
    let bounds = Point::new(10isize, 10isize);
    let mut p = Point::new(5isize, 5isize);
    move_point(&Direction::Right, &mut p, &bounds);
    assert_eq!((p.x, p.y), (6, 5));
    move_point(&Direction::Left, &mut p, &bounds);
    assert_eq!((p.x, p.y), (5, 5));
    move_point(&Direction::Down, &mut p, &bounds);
    assert_eq!((p.x, p.y), (5, 6));
    move_point(&Direction::Up, &mut p, &bounds);
    assert_eq!((p.x, p.y), (5, 5));
}

#[test]
fn move_point_wraps_on_every_edge() {
    let bounds = Point::new(10isize, 10isize);
    let mut p = Point::new(9isize, 0isize);
    move_point(&Direction::Right, &mut p, &bounds);
    assert_eq!((p.x, p.y), (0, 0));
    move_point(&Direction::Left, &mut p, &bounds);
    assert_eq!((p.x, p.y), (9, 0));
    move_point(&Direction::Up, &mut p, &bounds);
    assert_eq!((p.x, p.y), (9, 9));
    move_point(&Direction::Down, &mut p, &bounds);
    assert_eq!((p.x, p.y), (9, 0));
}

#[test]
fn random_point_stays_in_bounds() {
    let bounds = Point::new(5isize, 5isize);
    for _ in 0..100 {
        let p = random_point(&bounds);
        assert!(0 <= p.x && p.x < 5);
        assert!(0 <= p.y && p.y < 5);
    }
}

#[test]
fn new_snake_has_three_segments_facing_right() {
    let s = Snake::new();
    assert_eq!(s.body.len(), 3);
    assert_eq!(s.direction(), Direction::Right);
    for step in s.body.iter() {
        assert_eq!(*step, Direction::Left);
    }
}

#[test]
fn grow_adds_a_segment_and_turns() {
    let mut s = Snake::new();
    s.grow(&Direction::Up);
    assert_eq!(s.body.len(), 4);
    assert_eq!(s.direction(), Direction::Up);
    assert_eq!(*s.body.front().unwrap(), Direction::Down);
}

#[test]
fn crawl_keeps_the_length_and_turns() {
    let mut s = Snake::new();
    s.crawl(&Direction::Up);
    assert_eq!(s.body.len(), 3);
    assert_eq!(s.direction(), Direction::Up);
    let steps: Vec<Direction> = s.body.iter().cloned().collect();
    assert_eq!(steps, vec![Direction::Down, Direction::Left, Direction::Left]);
}
