use vstd::prelude::*;

use rand::seq::IndexedRandom;

verus! {

use vstd::pervasive::unreached;

/// `std::time::Instant` carried through as an opaque value: the library only
/// ever hands it back to the clock to ask how much time has passed.
#[verifier::external_type_specification]
#[verifier::external_body]
pub struct ExInstant(std::time::Instant);

/// Relies on std::time::Instant::now: the current point on the monotonic
/// clock. When the call is made decides what comes back, so nothing is
/// promised of the result.
#[verifier::external_body]
fn now_instant() -> std::time::Instant {
    std::time::Instant::now()
}

/// Relies on std::time::Instant::elapsed: the time since `created` on the
/// monotonic clock. When the call is made decides what comes back, so
/// nothing is promised of the result.
#[verifier::external_body]
fn elapsed_of(created: &std::time::Instant) -> std::time::Duration {
    created.elapsed()
}

/// Relies on std::time::Duration::as_millis: the duration in whole
/// milliseconds. A duration is opaque to the library, so nothing is promised
/// of the result.
#[verifier::external_body]
fn millis_of(d: &std::time::Duration) -> u128 {
    d.as_millis()
}

/// Relies on rand's IndexedRandom::choose on a slice: the rand source shows
/// that it returns None exactly when the slice is empty, and otherwise some
/// element of the slice, picked by the thread-local generator.
#[verifier::external_body]
fn choose_char(symbols: &[char]) -> (r: Option<char>)
    ensures
        match r {
            Some(c) => symbols@.contains(c),
            None => symbols@.len() == 0,
        },
{
    symbols.choose(&mut rand::rng()).copied()
}

/// The fixed catalog of fruit kinds that can be spawned.
pub open spec fn spec_catalog() -> Seq<char> {
    seq!['🍇', '🍈', '🍉', '🍋', '🍍', '🍎', '🍏', '🍐', '🍑', '🍒', '🍓']
}

/// The display color of each fruit kind; a symbol outside the catalog gets
/// the neutral entry 0.
pub open spec fn spec_fruit_color(symbol: char) -> u8 {
    match symbol {
        '🍏' => 47,
        '🍎' => 88,
        '🍐' => 36,
        '🍑' => 179,
        '🍒' => 169,
        '🍋' => 118,
        '🍉' => 9,
        '🍓' => 1,
        '🍇' => 54,
        '🍈' => 9,
        '🍍' => 191,
        _ => 0,
    }
}

/// How long each fruit kind stays fresh, in milliseconds; a symbol outside
/// the catalog rots at once.
pub open spec fn spec_fruit_expiration_ms(symbol: char) -> u64 {
    match symbol {
        '🍏' => 5000,
        '🍎' => 4750,
        '🍐' => 4500,
        '🍑' => 4250,
        '🍒' => 4000,
        '🍋' => 3750,
        '🍉' => 3500,
        '🍓' => 3250,
        '🍇' => 3000,
        '🍈' => 2750,
        '🍍' => 2500,
        _ => 0,
    }
}

/// How many points eating each fruit kind is worth: the quicker a kind rots,
/// the more it is worth. A symbol outside the catalog is worth nothing.
pub open spec fn spec_fruit_score_value(symbol: char) -> i32 {
    match symbol {
        '🍏' => 1,
        '🍎' => 2,
        '🍐' => 3,
        '🍑' => 4,
        '🍒' => 5,
        '🍋' => 6,
        '🍉' => 7,
        '🍓' => 8,
        '🍇' => 9,
        '🍈' => 10,
        '🍍' => 11,
        _ => 0,
    }
}

pub fn fruit_color(symbol: &char) -> (c: u8)
    ensures
        c == spec_fruit_color(*symbol),
{
    match *symbol {
        '🍏' => 47,
        '🍎' => 88,
        '🍐' => 36,
        '🍑' => 179,
        '🍒' => 169,
        '🍋' => 118,
        '🍉' => 9,
        '🍓' => 1,
        '🍇' => 54,
        '🍈' => 9,
        '🍍' => 191,
        _ => 0,
    }
}

pub fn fruit_expiration_date(symbol: &char) -> (ms: u64)
    ensures
        ms == spec_fruit_expiration_ms(*symbol),
{
    match *symbol {
        '🍏' => 5000,
        '🍎' => 4750,
        '🍐' => 4500,
        '🍑' => 4250,
        '🍒' => 4000,
        '🍋' => 3750,
        '🍉' => 3500,
        '🍓' => 3250,
        '🍇' => 3000,
        '🍈' => 2750,
        '🍍' => 2500,
        _ => 0,
    }
}

pub fn fruit_score_value(symbol: &char) -> (v: i32)
    ensures
        v == spec_fruit_score_value(*symbol),
{
    match *symbol {
        '🍏' => 1,
        '🍎' => 2,
        '🍐' => 3,
        '🍑' => 4,
        '🍒' => 5,
        '🍋' => 6,
        '🍉' => 7,
        '🍓' => 8,
        '🍇' => 9,
        '🍈' => 10,
        '🍍' => 11,
        _ => 0,
    }
}

/// A collectible spawned on the grid: a glyph, its display color, and a
/// fixed time-to-live past which the fruit counts as rotten. The color and
/// time-to-live are derived from the symbol by the fixed catalog tables.
pub struct Fruit {
    pub symbol: char,
    pub color: u8,
    pub expiration_ms: u64,
    pub created: std::time::Instant,
}

impl Fruit {
    /// The color and time-to-live always match the symbol's table entries.
    pub open spec fn wf(self) -> bool {
        &&& self.color == spec_fruit_color(self.symbol)
        &&& self.expiration_ms == spec_fruit_expiration_ms(self.symbol)
    }

    pub fn new(symbol: &char) -> (f: Fruit)
        ensures
            f.symbol == *symbol,
            f.wf(),
    {
        Fruit {
            symbol: *symbol,
            color: fruit_color(symbol),
            expiration_ms: fruit_expiration_date(symbol),
            created: now_instant(),
        }
    }

    /// The expiry rule on a known elapsed time: the fruit is rotten exactly
    /// when more time than its time-to-live has passed since creation.
    pub fn rotten_at(&self, elapsed_ms: u128) -> (r: bool)
        ensures
            r == (elapsed_ms > self.expiration_ms),
    {
        elapsed_ms > self.expiration_ms as u128
    }

    /// Whether the fruit's time-to-live has run out, read off the real
    /// clock. The clock decides the elapsed time, so which way this answers
    /// is not pinned down; the rule applied to it is `rotten_at`.
    pub fn rotten(&self) -> bool {
        let elapsed = elapsed_of(&self.created);
        let elapsed_ms = millis_of(&elapsed);
        self.rotten_at(elapsed_ms)
    }

    /// How many points this fruit is worth when eaten.
    pub fn score_value(&self) -> (v: i32)
        ensures
            v == spec_fruit_score_value(self.symbol),
            0 <= v <= 11,
    {
        fruit_score_value(&self.symbol)
    }
}

/// A fruit of a random kind out of the catalog: its symbol is one of the
/// eleven catalog entries, and its attributes match that symbol.
pub fn get_random_fruit() -> (f: Fruit)
    ensures
        spec_catalog().contains(f.symbol),
        f.wf(),
{
    let mut symbols: Vec<char> = Vec::new();
    symbols.push('🍇');
    symbols.push('🍈');
    symbols.push('🍉');
    symbols.push('🍋');
    symbols.push('🍍');
    symbols.push('🍎');
    symbols.push('🍏');
    symbols.push('🍐');
    symbols.push('🍑');
    symbols.push('🍒');
    symbols.push('🍓');
    proof {
        assert(symbols@ =~= spec_catalog());
    }
    match choose_char(symbols.as_slice()) {
        Some(c) => Fruit::new(&c),
        None => unreached(),
    }
}

} // verus!
