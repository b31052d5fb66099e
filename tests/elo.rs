use salty_bettor::elo::{Elo, Winner};

#[test]
fn test_elo_update_one_lose() {
    let mut one = Elo::with_rating(800);
    let one_orig = one.clone();
    let mut two = Elo::new();
    Elo::update_ratings(Winner::Two, &mut one, &mut two);
    Elo::update_ratings(Winner::Two, &mut one, &mut two);
    Elo::update_ratings(Winner::Two, &mut one, &mut two);
    Elo::update_ratings(Winner::Two, &mut one, &mut two);
    Elo::update_ratings(Winner::Two, &mut one, &mut two);
    assert!(one.rating < one_orig.rating);
}

#[test]
fn test_elo_update_unbalanced_draw_one_lose() {
    let mut one = Elo::with_rating(800);
    let mut two = Elo::new();
    Elo::update_ratings(Winner::Draw, &mut one, &mut two);
    Elo::update_ratings(Winner::Draw, &mut one, &mut two);
    Elo::update_ratings(Winner::Draw, &mut one, &mut two);
    assert!(two.rating > one.rating);
}

#[test]
fn test_elo_update_balanced_draw() {
    let mut one = Elo::new();
    let mut two = Elo::new();
    Elo::update_ratings(Winner::Draw, &mut one, &mut two);
    Elo::update_ratings(Winner::Draw, &mut one, &mut two);
    Elo::update_ratings(Winner::Draw, &mut one, &mut two);
    assert_eq!(two.rating, one.rating);
}

#[test]
fn new_rating_is_one_thousand() {
    assert_eq!(Elo::new().rating, 1000);
    assert_eq!(Elo::with_rating(1337).rating, 1337);
}

#[test]
fn even_match_first_wins_moves_sixteen() {
    let mut one = Elo::new();
    let mut two = Elo::new();
    Elo::update_ratings(Winner::One, &mut one, &mut two);
    assert_eq!(one.rating, 1016);
    assert_eq!(two.rating, 984);
}

#[test]
fn underdog_loses_rounded_down() {
    // Expected score of 800 against 1000 is 0.2402...: 32 * that is 7.68.
    let mut one = Elo::with_rating(800);
    let mut two = Elo::new();
    Elo::update_ratings(Winner::Two, &mut one, &mut two);
    assert_eq!(one.rating, 792);
    assert_eq!(two.rating, 1007);
}

#[test]
fn underdog_wins_rounded_down() {
    let mut one = Elo::with_rating(800);
    let mut two = Elo::new();
    Elo::update_ratings(Winner::One, &mut one, &mut two);
    assert_eq!(one.rating, 824);
    assert_eq!(two.rating, 975);
}

#[test]
fn winner_rises_and_loser_falls_for_unequal_ratings() {
    let mut one = Elo::with_rating(1200);
    let mut two = Elo::with_rating(1100);
    Elo::update_ratings(Winner::One, &mut one, &mut two);
    assert!(one.rating > 1200);
    assert!(two.rating < 1100);
}

#[test]
fn far_favourite_gains_nothing() {
    let mut one = Elo::with_rating(2000);
    let mut two = Elo::new();
    Elo::update_ratings(Winner::One, &mut one, &mut two);
    assert_eq!(one.rating, 2000);
    assert_eq!(two.rating, 999);
}

#[test]
fn draw_adds_sixteen_to_both() {
    let mut one = Elo::with_rating(800);
    let mut two = Elo::new();
    Elo::update_ratings(Winner::Draw, &mut one, &mut two);
    assert_eq!(one.rating, 816);
    assert_eq!(two.rating, 1016);
}

#[test]
fn ratings_hold_at_the_top_of_the_range() {
    let mut one = Elo::with_rating(i32::MAX);
    let mut two = Elo::with_rating(i32::MIN);
    Elo::update_ratings(Winner::Draw, &mut one, &mut two);
    assert_eq!(one.rating, i32::MAX);
    assert_eq!(two.rating, i32::MIN + 16);
    Elo::update_ratings(Winner::Two, &mut two, &mut one);
    assert_eq!(one.rating, i32::MAX);
}

#[test]
fn winner_codes_round_trip() {
    assert_eq!(u32::from(Winner::One), 1);
    assert_eq!(u32::from(Winner::Two), 2);
    assert_eq!(u32::from(Winner::Draw), 3);
    assert_eq!(Winner::from(1u32), Winner::One);
    assert_eq!(Winner::from(2u32), Winner::Two);
    assert_eq!(Winner::from(3u32), Winner::Draw);
    assert_eq!(Winner::from(9u32), Winner::Draw);
}

#[test]
fn winner_labels() {
    assert_eq!(Winner::One.label(), "player1");
    assert_eq!(Winner::Two.label(), "player2");
    assert_eq!(Winner::Draw.label(), "");
    assert_eq!(Winner::from(String::from("player1")), Winner::One);
    assert_eq!(Winner::from(String::from("player2")), Winner::Two);
    assert_eq!(Winner::from(String::from("player3")), Winner::Draw);
    assert_eq!(Winner::One.name(), "One");
    assert_eq!(Winner::Draw.name(), "Draw");
}
