use salty_bettor::bet::{Action, BetAttempt, Fatal, Stage};
use salty_bettor::elo::{Elo, Winner};
use salty_bettor::game::Game;

#[test]
fn wager_sizes() {
    assert_eq!(Game::wager(Some(5000)), 500);
    assert_eq!(Game::wager(Some(4200)), 420);
    assert_eq!(Game::wager(Some(4199)), 420);
    assert_eq!(Game::wager(Some(100)), 420);
    assert_eq!(Game::wager(Some(123456)), 12345);
    assert_eq!(Game::wager(None), 420);
}

#[test]
fn amount_reads_separators() {
    assert_eq!(Game::amount_in("1,234"), 1234);
    assert_eq!(Game::amount_in("98,765,432"), 98765432);
    assert_eq!(Game::amount_in("0"), 0);
    assert_eq!(Game::amount_in(""), 420);
    assert_eq!(Game::amount_in(",,"), 420);
    assert_eq!(Game::amount_in("12a"), 420);
    assert_eq!(Game::amount_in("4294967295"), 4294967295);
    assert_eq!(Game::amount_in("4294967296"), 420);
}

#[test]
fn balance_found_in_page() {
    let page = "<html><span class=\"dollar\" id=\"balance\">12,345</span></html>";
    assert_eq!(Game::balance_in_page(page), 12345);
    assert_eq!(Game::wager(Some(Game::balance_in_page(page))), 1234);
}

#[test]
fn balance_missing_from_page() {
    assert_eq!(Game::balance_in_page("<html>logged out</html>"), 420);
    assert_eq!(
        Game::balance_in_page("<span class=\"dollar\" id=\"balance\"></span>"),
        420
    );
}

#[test]
fn bet_reply_must_end_in_one() {
    assert!(Game::bet_accepted("1"));
    assert!(Game::bet_accepted("ok 1"));
    assert!(!Game::bet_accepted("10"));
    assert!(!Game::bet_accepted(""));
}

#[test]
fn equal_parties_favour_the_first() {
    let (bet, action) = BetAttempt::open(&Elo::new(), &Elo::new());
    assert_eq!(bet.side, Winner::One);
    assert_eq!(action, Action::PlaceBet(Winner::One));
}

#[test]
fn higher_rating_is_favoured() {
    let (bet, _) = BetAttempt::open(&Elo::with_rating(800), &Elo::new());
    assert_eq!(bet.side, Winner::Two);
    let (bet, _) = BetAttempt::open(&Elo::with_rating(1001), &Elo::new());
    assert_eq!(bet.side, Winner::One);
}

#[test]
fn accepted_bet_is_done() {
    let (mut bet, _) = BetAttempt::open(&Elo::new(), &Elo::new());
    assert_eq!(bet.report(true), Action::Done);
    assert_eq!(bet.stage, Stage::Over);
}

#[test]
fn refused_bet_retries_once_after_login() {
    let (mut bet, first) = BetAttempt::open(&Elo::new(), &Elo::new());
    assert_eq!(first, Action::PlaceBet(Winner::One));
    assert_eq!(bet.report(false), Action::Login);
    assert_eq!(bet.report(true), Action::PlaceBet(Winner::One));
    assert_eq!(bet.report(true), Action::Done);
}

#[test]
fn failed_login_is_fatal_without_retry() {
    let (mut bet, _) = BetAttempt::open(&Elo::new(), &Elo::new());
    assert_eq!(bet.report(false), Action::Login);
    assert_eq!(bet.report(false), Action::Abort(Fatal::LoginFailed));
    assert_eq!(bet.report(false), Action::Done);
}

#[test]
fn second_refusal_is_fatal() {
    let (mut bet, _) = BetAttempt::open(&Elo::new(), &Elo::new());
    assert_eq!(bet.report(false), Action::Login);
    assert_eq!(bet.report(true), Action::PlaceBet(Winner::One));
    assert_eq!(bet.report(false), Action::Abort(Fatal::BetFailed));
}
