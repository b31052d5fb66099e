use vstd::prelude::*;
use crate::elo::Winner;
use crate::feed::MatchState;
use crate::text::same_text;

verus! {

/// What a change in the match feed means.
#[derive(Debug, PartialEq)]
pub enum Event {
    Unknown,
    Opened(String, String),
    Locked,
    Decided(Winner, String, String),
}

/// The betting side of the match: reading the feed, sizing and checking bets.
pub struct Game {}

/// The wager placed when the balance is unknown or small.
pub const DEFAULT_WAGER: u32 = 420;

/// From this balance on, a tenth of it is wagered.
pub const SCALED_WAGER_FROM: u32 = 4200;

/// The result that a finished match's status code stands for: `1` and `2`
/// name the winning side, anything else is a draw.
pub open spec fn winner_of_status(code: Seq<char>) -> Winner {
    if code == "1"@ {
        Winner::One
    } else if code == "2"@ {
        Winner::Two
    } else {
        Winner::Draw
    }
}

/// The event that a fresh read of the feed stands for.
pub open spec fn classified(s: MatchState) -> Event {
    if s.status@ == "locked"@ {
        Event::Locked
    } else if s.status@ == "open"@ {
        Event::Opened(s.p1name, s.p2name)
    } else {
        Event::Decided(winner_of_status(s.status@), s.p1name, s.p2name)
    }
}

/// The amount to wager for a balance, `None` when it could not be read.
pub open spec fn wager_for(balance: Option<u32>) -> u32 {
    match balance {
        Some(m) => if m >= SCALED_WAGER_FROM {
            m / 10
        } else {
            DEFAULT_WAGER
        },
        None => DEFAULT_WAGER,
    }
}

pub open spec fn is_digit(c: char) -> bool {
    '0' <= c <= '9'
}

/// The characters of `s` without its thousands separators.
pub open spec fn without_commas(s: Seq<char>) -> Seq<char>
    decreases s.len(),
{
    if s.len() == 0 {
        s
    } else if s.last() == ',' {
        without_commas(s.drop_last())
    } else {
        without_commas(s.drop_last()).push(s.last())
    }
}

/// The number that a string of decimal digits spells.
pub open spec fn digits_value(s: Seq<char>) -> int
    decreases s.len(),
{
    if s.len() == 0 {
        0
    } else {
        digits_value(s.drop_last()) * 10 + (s.last() as int - '0' as int)
    }
}

/// A balance as the page writes it, with separators, read as a number; text
/// that is not one, or too large for a `u32`, gives the default wager.
pub open spec fn amount_of(s: Seq<char>) -> u32 {
    let t = without_commas(s);
    if t.len() > 0 && (forall|i: int| 0 <= i < t.len() ==> is_digit(#[trigger] t[i]))
        && digits_value(t) <= u32::MAX {
        digits_value(t) as u32
    } else {
        DEFAULT_WAGER
    }
}

/// The page's markup around the balance.
pub open spec fn balance_markup(d: Seq<char>) -> Seq<char> {
    "<span class=\"dollar\" id=\"balance\">"@ + d + "</span>"@
}

/// `page` shows the balance `d`: one or more digits and commas inside the
/// balance markup.
pub open spec fn shows_balance(page: Seq<char>, d: Seq<char>) -> bool {
    &&& d.len() > 0
    &&& forall|i: int| 0 <= i < d.len() ==> is_digit(#[trigger] d[i]) || d[i] == ','
    &&& exists|k: int|
        0 <= k && k + balance_markup(d).len() <= page.len() && #[trigger] page.subrange(
            k,
            k + balance_markup(d).len(),
        ) == balance_markup(d)
}

/// Relies on regex::Regex::captures, with the pattern
/// `<span class="dollar" id="balance">([0-9,]+)</span>`: it finds a match
/// whenever the page holds one, and its group is the balance text. The
/// pattern is fixed and valid, so building it does not fail.
#[verifier::external_body]
fn find_balance(page: &str) -> (r: Option<String>)
    ensures
        r matches Some(d) ==> shows_balance(page@, d@),
        r is None ==> forall|d: Seq<char>| !shows_balance(page@, d),
{
    match regex::Regex::new(r#"(?m)<span class="dollar" id="balance">([0-9,]+)</span>"#) {
        Ok(re) => re.captures(page).and_then(|c| c.get(1)).map(|m| m.as_str().to_string()),
        Err(_) => None,
    }
}

proof fn lemma_digits_grow(t: Seq<char>, c: char)
    requires
        is_digit(c),
    ensures
        digits_value(t.push(c)) >= digits_value(t) * 10,
        digits_value(t.push(c)) == digits_value(t) * 10 + (c as int - '0' as int),
{
    assert(t.push(c).drop_last() == t);
}

proof fn lemma_digits_nonneg(t: Seq<char>)
    requires
        forall|i: int| 0 <= i < t.len() ==> is_digit(#[trigger] t[i]),
    ensures
        digits_value(t) >= 0,
    decreases t.len(),
{
    if t.len() > 0 {
        let u = t.drop_last();
        assert forall|i: int| 0 <= i < u.len() implies is_digit(#[trigger] u[i]) by {
            assert(u[i] == t[i]);
        }
        lemma_digits_nonneg(u);
    }
}

impl Game {
    /// The event for a fresh read of the feed.
    pub fn classify(state: &MatchState) -> (e: Event)
        ensures
            e == classified(*state),
    {
        if same_text(state.status.as_str(), "locked") {
            Event::Locked
        } else if same_text(state.status.as_str(), "open") {
            Event::Opened(state.p1name.clone(), state.p2name.clone())
        } else {
            let winner = if same_text(state.status.as_str(), "1") {
                Winner::One
            } else if same_text(state.status.as_str(), "2") {
                Winner::Two
            } else {
                Winner::Draw
            };
            Event::Decided(winner, state.p1name.clone(), state.p2name.clone())
        }
    }

    /// The amount to wager, given the balance if it could be read.
    pub fn wager(balance: Option<u32>) -> (r: u32)
        ensures
            r == wager_for(balance),
    {
        match balance {
            Some(m) => if m >= SCALED_WAGER_FROM {
                m / 10
            } else {
                DEFAULT_WAGER
            },
            None => DEFAULT_WAGER,
        }
    }

    /// Reads a balance written with thousands separators.
    pub fn amount_in(text: &str) -> (r: u32)
        ensures
            r == amount_of(text@),
    {
        let n = text.unicode_len();
        let mut value: u64 = 0;
        let mut count: usize = 0;
        let mut too_big = false;
        let mut stray = false;
        let ghost mut digits: Seq<char> = Seq::empty();
        let mut i: usize = 0;
        while i < n
            invariant
                n == text@.len(),
                i <= n,
                digits == without_commas(text@.subrange(0, i as int)),
                count == digits.len(),
                count <= i,
                value <= u32::MAX,
                stray == !(forall|j: int| 0 <= j < digits.len() ==> is_digit(#[trigger] digits[j])),
                !stray && !too_big ==> value == digits_value(digits) && value <= u32::MAX,
                !stray && too_big ==> digits_value(digits) > u32::MAX,
            decreases n - i,
        {
            let c = text.get_char(i);
            proof {
                assert(text@.subrange(0, i + 1).drop_last() == text@.subrange(0, i as int));
                assert(text@.subrange(0, i + 1).last() == c);
            }
            if c != ',' {
                proof {
                    let next = digits.push(c);
                    if !stray && is_digit(c) {
                        lemma_digits_grow(digits, c);
                        lemma_digits_nonneg(digits);
                    }
                    if !is_digit(c) {
                        assert(!is_digit(next[digits.len() as int]));
                    }
                    if stray {
                        let j = choose|j: int| 0 <= j < digits.len() && !is_digit(#[trigger] digits[j]);
                        assert(next[j] == digits[j]);
                    }
                    if !stray && is_digit(c) {
                        assert forall|j: int| 0 <= j < next.len() implies is_digit(#[trigger] next[j]) by {
                            if j < digits.len() {
                                assert(next[j] == digits[j]);
                            }
                        }
                    }
                    digits = next;
                }
                count = count + 1;
                if c < '0' || c > '9' {
                    stray = true;
                } else if !too_big {
                    let d = (c as u32 - '0' as u32) as u64;
                    let next_value = value * 10 + d;
                    if next_value > u32::MAX as u64 {
                        too_big = true;
                    } else {
                        value = next_value;
                    }
                }
            }
            i = i + 1;
        }
        proof {
            assert(text@.subrange(0, n as int) == text@);
        }
        if count == 0 || stray || too_big {
            DEFAULT_WAGER
        } else {
            value as u32
        }
    }

    /// The balance that a page of the betting site shows; the default wager
    /// when it shows none or an unreadable one.
    pub fn balance_in_page(page: &str) -> (r: u32)
        ensures
            (exists|d: Seq<char>| shows_balance(page@, d) && r == amount_of(d)) || (forall|
                d: Seq<char>,
            | !shows_balance(page@, d) && r == DEFAULT_WAGER),
    {
        match find_balance(page) {
            Some(d) => Game::amount_in(d.as_str()),
            None => DEFAULT_WAGER,
        }
    }

    /// Whether the betting site took a bet: its reply ends in `1`.
    pub fn bet_accepted(body: &str) -> (r: bool)
        ensures
            r == (body@.len() > 0 && body@.last() == '1'),
    {
        let n = body.unicode_len();
        n > 0 && body.get_char(n - 1) == '1'
    }
}

} // verus!
