use salty_bettor::elo::Winner;
use salty_bettor::feed::{MatchState, MatchWatcher};
use salty_bettor::game::{Event, Game};
use salty_bettor::stream::{Event as StreamEvent, EventStream};

fn read(status: &str) -> MatchState {
    let mut state: MatchState = Default::default();
    state.p1name = String::from("X");
    state.p2name = String::from("Y");
    state.status = String::from(status);
    state
}

#[test]
fn test_process_stream_event_player_one_wins() {
    let mut state: MatchState = Default::default();
    state.status = String::from("1");
    state.p1name = String::from("winner");
    state.p1name = String::from("loser");

    let message = Game::classify(&state);
    assert_eq!(
        message,
        Event::Decided(Winner::One, state.p1name, state.p2name)
    );
}

#[test]
fn classify_each_status() {
    assert_eq!(
        Game::classify(&read("open")),
        Event::Opened(String::from("X"), String::from("Y"))
    );
    assert_eq!(Game::classify(&read("locked")), Event::Locked);
    assert_eq!(
        Game::classify(&read("1")),
        Event::Decided(Winner::One, String::from("X"), String::from("Y"))
    );
    assert_eq!(
        Game::classify(&read("2")),
        Event::Decided(Winner::Two, String::from("X"), String::from("Y"))
    );
    assert_eq!(
        Game::classify(&read("weird")),
        Event::Decided(Winner::Draw, String::from("X"), String::from("Y"))
    );
}

#[test]
fn repeated_read_emits_once() {
    let mut watcher = MatchWatcher::new();
    let first = watcher.observe(read("open"));
    let second = watcher.observe(read("locked"));
    let third = watcher.observe(read("locked"));
    let fourth = watcher.observe(read("1"));
    assert!(first.is_some());
    assert_eq!(Game::classify(&second.unwrap()), Event::Locked);
    assert!(third.is_none());
    assert!(fourth.is_some());
}

#[test]
fn first_read_is_fresh_even_when_empty() {
    let mut watcher = MatchWatcher::new();
    assert!(watcher.observe(MatchState::default()).is_some());
    assert!(watcher.observe(MatchState::default()).is_none());
}

#[test]
fn any_field_makes_a_read_fresh() {
    let mut watcher = MatchWatcher::new();
    let mut a = read("open");
    assert!(watcher.observe(a.duplicate()).is_some());
    a.p1total = String::from("1,000");
    assert!(watcher.observe(a.duplicate()).is_some());
    a.x = 3;
    assert!(watcher.observe(a.duplicate()).is_some());
    assert!(watcher.observe(a).is_none());
}

#[test]
fn stream_names_winner_first() {
    assert_eq!(
        EventStream::classify(&read("1")),
        StreamEvent::Decided(String::from("X"), String::from("Y"))
    );
    assert_eq!(
        EventStream::classify(&read("2")),
        StreamEvent::Decided(String::from("Y"), String::from("X"))
    );
    assert_eq!(EventStream::classify(&read("locked")), StreamEvent::Locked);
    assert_eq!(
        EventStream::classify(&read("open")),
        StreamEvent::Opened(String::from("X"), String::from("Y"))
    );
    assert_eq!(EventStream::classify(&read("weird")), StreamEvent::Unknown);
}
