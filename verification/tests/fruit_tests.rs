use snake_game::fruit::fruit_color;
use snake_game::fruit::fruit_expiration_date;
use snake_game::fruit::fruit_score_value;
use snake_game::fruit::get_random_fruit;
use snake_game::fruit::Fruit;

const CATALOG: [char; 11] = ['🍇', '🍈', '🍉', '🍋', '🍍', '🍎', '🍏', '🍐', '🍑', '🍒', '🍓'];

#[test]
fn color_table_matches_catalog() {
    assert_eq!(fruit_color(&'🍏'), 47);
    assert_eq!(fruit_color(&'🍎'), 88);
    assert_eq!(fruit_color(&'🍇'), 54);
    assert_eq!(fruit_color(&'🍍'), 191);
    assert_eq!(fruit_color(&'x'), 0);
}

#[test]
fn expiration_table_matches_catalog() {
    assert_eq!(fruit_expiration_date(&'🍏'), 5000);
    assert_eq!(fruit_expiration_date(&'🍍'), 2500);
    assert_eq!(fruit_expiration_date(&'🍇'), 3000);
    assert_eq!(fruit_expiration_date(&'x'), 0);
}

#[test]
fn score_table_rewards_quick_rotters() {
    assert_eq!(fruit_score_value(&'🍏'), 1);
    assert_eq!(fruit_score_value(&'🍒'), 5);
    assert_eq!(fruit_score_value(&'🍍'), 11);
    assert_eq!(fruit_score_value(&'x'), 0);
}

#[test]
fn new_fruit_matches_the_tables() {
    let f = Fruit::new(&'🍇');
    assert_eq!(f.symbol, '🍇');
    assert_eq!(f.color, 54);
    assert_eq!(f.expiration_ms, 3000);
    assert_eq!(f.score_value(), 9);
}

#[test]
fn fresh_fruit_is_not_rotten() {
    let f = Fruit::new(&'🍏');
    assert!(!f.rotten());
}

#[test]
fn zero_lifetime_fruit_rots_at_once() {
    // An unknown symbol gets the neutral entry: a time-to-live of zero.
    let f = Fruit::new(&'x');
    let mut spins: u64 = 0;
    while !f.rotten() && spins < 2_000_000_000 {
        spins += 1;
    }
    assert!(f.rotten());
}

#[test]
fn rotten_at_compares_elapsed_to_lifetime() {
    let f = Fruit::new(&'🍇');
    assert!(!f.rotten_at(0));
    assert!(!f.rotten_at(3000));
    assert!(f.rotten_at(3001));
    let zero = Fruit::new(&'x');
    assert!(!zero.rotten_at(0));
    assert!(zero.rotten_at(1));
}

#[test]
fn random_fruit_comes_from_the_catalog() {
    for _ in 0..50 {
        let f = get_random_fruit();
        assert!(CATALOG.contains(&f.symbol));
        assert_eq!(f.color, fruit_color(&f.symbol));
        assert_eq!(f.expiration_ms, fruit_expiration_date(&f.symbol));
        assert!(f.score_value() >= 1);
    }
}
