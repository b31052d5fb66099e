use salty_bettor::elo::{Elo, Winner};
use salty_bettor::game::Event;
use salty_bettor::player::Player;
use salty_bettor::state::{Settlement, State, Storage};

#[test]
fn unknown_party_starts_at_one_thousand() {
    let p = State::player_or_default(&String::from("nobody"), None);
    assert_eq!(p.name, "nobody");
    assert_eq!(p.elo.rating, 1000);
}

#[test]
fn found_party_keeps_its_rating() {
    let found = Player::new(String::from("test"), Elo::with_rating(1337));
    let p = State::player_or_default(&String::from("test"), Some(found));
    assert_eq!(p.name, "test");
    assert_eq!(p.elo.rating, 1337);
}

#[test]
fn only_decided_matches_are_recorded() {
    let event = Event::Decided(Winner::One, String::from("one"), String::from("two"));
    assert_eq!(
        State::settlement(&event),
        Some(Settlement {
            outcome: 1,
            one: String::from("one"),
            two: String::from("two"),
        })
    );
    let draw = Event::Decided(Winner::Draw, String::from("a"), String::from("b"));
    assert_eq!(State::settlement(&draw).map(|s| s.outcome), Some(3));
    assert_eq!(State::settlement(&Event::Locked), None);
    assert_eq!(
        State::settlement(&Event::Opened(String::from("a"), String::from("b"))),
        None
    );
}

#[test]
fn storage_choice() {
    assert_eq!(State::storage_for(&String::from("memory")), Storage::Memory);
    assert_eq!(
        State::storage_for(&String::from("/tmp/bets.db")),
        Storage::File(String::from("/tmp/bets.db"))
    );
}
