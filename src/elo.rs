use vstd::prelude::*;
use crate::expected::{lemma_points, lemma_points_positive, points, points_of, K_FACTOR};
use crate::text::same_text;

verus! {

/// A skill rating.
#[derive(Debug, Clone, Copy, PartialEq, Eq, Structural)]
pub struct Elo {
    pub rating: i32,
}

/// Who won a match: the first party, the second one, or neither.
#[derive(Debug, Clone, Copy, PartialEq, Eq, Structural)]
pub enum Winner {
    Draw,
    One,
    Two,
}

/// The rating every party starts from.
pub const DEFAULT_RATING: i32 = 1000;

/// A rating moved by `delta`, held to the range of `i32`.
pub open spec fn moved(rating: i32, delta: int) -> i32 {
    let v = rating as int + delta;
    if v > i32::MAX {
        i32::MAX
    } else if v < i32::MIN {
        i32::MIN
    } else {
        v as i32
    }
}

/// The ratings `(a, b)` after a match between them that `w` decided.
///
/// The winner gains K times the loser's expected score, the loser gives up K
/// times its own, both rounded down; on a draw both gain K / 2.
pub open spec fn updated(w: Winner, a: i32, b: i32) -> (i32, i32) {
    let ahead = a as int - b as int;
    match w {
        Winner::One => (moved(a, points(-ahead)), moved(b, points(ahead) - K_FACTOR)),
        Winner::Two => (moved(a, points(-ahead) - K_FACTOR), moved(b, points(ahead))),
        Winner::Draw => (moved(a, K_FACTOR / 2), moved(b, K_FACTOR / 2)),
    }
}

fn move_rating(rating: i32, delta: i64) -> (r: i32)
    requires
        -64 <= delta <= 64,
    ensures
        r == moved(rating, delta as int),
{
    let v: i64 = rating as i64 + delta;
    if v > i32::MAX as i64 {
        i32::MAX
    } else if v < i32::MIN as i64 {
        i32::MIN
    } else {
        v as i32
    }
}

impl Elo {
    /// A rating of 1000.
    pub fn new() -> (r: Elo)
        ensures
            r.rating == DEFAULT_RATING,
    {
        Elo { rating: DEFAULT_RATING }
    }

    /// The given rating.
    pub fn with_rating(rating: i32) -> (r: Elo)
        ensures
            r.rating == rating,
    {
        Elo { rating }
    }

    /// Moves both ratings after a match that `winner` decided.
    pub fn update_ratings(winner: Winner, one: &mut Elo, two: &mut Elo)
        ensures
            (final(one).rating, final(two).rating) == updated(
                winner,
                old(one).rating,
                old(two).rating,
            ),
    {
        let ahead: i64 = one.rating as i64 - two.rating as i64;
        match winner {
            Winner::One => {
                let gain = points_of(-ahead);
                let loss = points_of(ahead) - K_FACTOR;
                one.rating = move_rating(one.rating, gain);
                two.rating = move_rating(two.rating, loss);
            },
            Winner::Two => {
                let loss = points_of(-ahead) - K_FACTOR;
                let gain = points_of(ahead);
                one.rating = move_rating(one.rating, loss);
                two.rating = move_rating(two.rating, gain);
            },
            Winner::Draw => {
                two.rating = move_rating(two.rating, K_FACTOR / 2);
                one.rating = move_rating(one.rating, K_FACTOR / 2);
            },
        }
    }
}

/// When the first party wins, its rating goes up and the second party's goes
/// down, unless the winner was already more than 596 points ahead (it then
/// expected all but a sliver of the points and gains nothing), or a rating sits
/// at the end of the `i32` range.
pub proof fn lemma_winner_gains(a: i32, b: i32)
    requires
        a as int - b as int <= 596,
        a < i32::MAX,
        b > i32::MIN,
    ensures
        updated(Winner::One, a, b).0 > a,
        updated(Winner::One, a, b).1 < b,
{
    let ahead = a as int - b as int;
    lemma_points_positive(-ahead);
    lemma_points(ahead, 0);
}

/// The number that stands for a result in the settlement records.
pub open spec fn code_of(w: Winner) -> u32 {
    match w {
        Winner::One => 1,
        Winner::Two => 2,
        Winner::Draw => 3,
    }
}

/// The result that a record number stands for; unknown numbers are draws.
pub open spec fn winner_of_code(code: u32) -> Winner {
    if code == 1 {
        Winner::One
    } else if code == 2 {
        Winner::Two
    } else {
        Winner::Draw
    }
}

/// The side name that the betting form takes for a result.
pub open spec fn label_of(w: Winner) -> Seq<char> {
    match w {
        Winner::One => "player1"@,
        Winner::Two => "player2"@,
        Winner::Draw => ""@,
    }
}

/// The result that a side name stands for; any other text is a draw.
pub open spec fn winner_of_label(s: Seq<char>) -> Winner {
    if s == "player1"@ {
        Winner::One
    } else if s == "player2"@ {
        Winner::Two
    } else {
        Winner::Draw
    }
}

impl From<Winner> for u32 {
    fn from(item: Winner) -> (r: u32) {
        match item {
            Winner::One => 1,
            Winner::Two => 2,
            Winner::Draw => 3,
        }
    }
}

impl vstd::std_specs::convert::FromSpecImpl<Winner> for u32 {
    open spec fn obeys_from_spec() -> bool {
        true
    }

    open spec fn from_spec(v: Winner) -> u32 {
        code_of(v)
    }
}

impl From<u32> for Winner {
    fn from(item: u32) -> (r: Winner) {
        match item {
            1 => Winner::One,
            2 => Winner::Two,
            _ => Winner::Draw,
        }
    }
}

impl vstd::std_specs::convert::FromSpecImpl<u32> for Winner {
    open spec fn obeys_from_spec() -> bool {
        true
    }

    open spec fn from_spec(v: u32) -> Winner {
        winner_of_code(v)
    }
}

impl From<String> for Winner {
    fn from(item: String) -> (r: Winner) {
        if same_text(item.as_str(), "player1") {
            Winner::One
        } else if same_text(item.as_str(), "player2") {
            Winner::Two
        } else {
            Winner::Draw
        }
    }
}

impl vstd::std_specs::convert::FromSpecImpl<String> for Winner {
    open spec fn obeys_from_spec() -> bool {
        true
    }

    open spec fn from_spec(v: String) -> Winner {
        winner_of_label(v@)
    }
}

impl Winner {
    /// The side name that the betting form takes: `player1`, `player2`, or
    /// nothing for a draw.
    pub fn label(&self) -> (r: String)
        ensures
            r@ == label_of(*self),
    {
        match self {
            Winner::One => String::from_str("player1"),
            Winner::Two => String::from_str("player2"),
            Winner::Draw => {
                proof {
                    reveal_strlit("");
                }
                String::new()
            },
        }
    }

    /// The name of the result as a reader sees it.
    pub fn name(&self) -> (r: &'static str)
        ensures
            r@ == (match *self {
                Winner::Draw => "Draw"@,
                Winner::One => "One"@,
                Winner::Two => "Two"@,
            }),
    {
        match self {
            Winner::Draw => "Draw",
            Winner::One => "One",
            Winner::Two => "Two",
        }
    }
}

} // verus!
