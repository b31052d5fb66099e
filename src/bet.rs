use vstd::prelude::*;
use crate::elo::{Elo, Winner};
use crate::expected::expected_at_least;
use vstd::arithmetic::power::{pow, lemma_pow_positive};

verus! {

/// Why a bet had to be given up, which ends the run.
#[derive(Debug, Clone, Copy, PartialEq, Eq, Structural)]
pub enum Fatal {
    /// Logging in again failed after a bet was refused.
    LoginFailed,
    /// The bet was refused again after a fresh login.
    BetFailed,
}

/// What the loop that places a bet must do next.
#[derive(Debug, Clone, Copy, PartialEq, Eq, Structural)]
pub enum Action {
    PlaceBet(Winner),
    Login,
    Done,
    Abort(Fatal),
}

/// Where a bet stands in its one-retry course.
#[derive(Debug, Clone, Copy, PartialEq, Eq, Structural)]
pub enum Stage {
    /// The first bet is out.
    First,
    /// It was refused and a login is out.
    Relogin,
    /// The login went through and the second bet is out.
    Retry,
    /// Nothing more is to be done.
    Over,
}

/// A bet on one side of an opened match, with its retry course.
#[derive(Debug, Clone, Copy, PartialEq, Eq, Structural)]
pub struct BetAttempt {
    pub side: Winner,
    pub stage: Stage,
}

/// The side that the ratings favour: the first party's expected score is at
/// least one half; ties go to the first party.
pub open spec fn favoured(one: i32, two: i32) -> Winner {
    if expected_at_least(one as int - two as int, 1, 2) {
        Winner::One
    } else {
        Winner::Two
    }
}

/// The next stage and action after the outcome `ok` of what `stage` had out.
pub open spec fn next_step(stage: Stage, side: Winner, ok: bool) -> (Stage, Action) {
    match stage {
        Stage::First => if ok {
            (Stage::Over, Action::Done)
        } else {
            (Stage::Relogin, Action::Login)
        },
        Stage::Relogin => if ok {
            (Stage::Retry, Action::PlaceBet(side))
        } else {
            (Stage::Over, Action::Abort(Fatal::LoginFailed))
        },
        Stage::Retry => if ok {
            (Stage::Over, Action::Done)
        } else {
            (Stage::Over, Action::Abort(Fatal::BetFailed))
        },
        Stage::Over => (Stage::Over, Action::Done),
    }
}

/// An expected score of one half or more is the same as a rating at least as
/// high as the opponent's.
pub proof fn lemma_half_means_not_behind(t: int)
    ensures
        expected_at_least(t, 1, 2) == (t >= 0),
{
    reveal_with_fuel(pow, 2);
    assert(pow(1, 400) == 1) by {
        vstd::arithmetic::power::lemma1_pow(400);
    }
    if t >= 0 {
        lemma_pow_positive(10, t as nat);
        assert(pow(1, 400) <= pow(1, 400) * pow(10, t as nat));
    } else {
        vstd::arithmetic::power::lemma_pow_increases(10, 1, (-t) as nat);
        assert(pow(10, 1) == 10);
        assert(pow(1, 400) * pow(10, (-t) as nat) > pow(1, 400));
    }
}

impl BetAttempt {
    /// Picks the favoured side of a match between `one` and `two` and sends
    /// the first bet on it.
    pub fn open(one: &Elo, two: &Elo) -> (r: (BetAttempt, Action))
        ensures
            r.0.side == favoured(one.rating, two.rating),
            r.0.stage == Stage::First,
            r.1 == Action::PlaceBet(r.0.side),
    {
        proof {
            lemma_half_means_not_behind(one.rating as int - two.rating as int);
        }
        let side = if one.rating >= two.rating {
            Winner::One
        } else {
            Winner::Two
        };
        (BetAttempt { side, stage: Stage::First }, Action::PlaceBet(side))
    }

    /// Takes in whether the last bet or login went through, and says what to
    /// do next: a refused bet gets one login and one more bet; a failed login,
    /// or a second refusal, ends the run.
    pub fn report(&mut self, ok: bool) -> (a: Action)
        ensures
            final(self).side == old(self).side,
            (final(self).stage, a) == next_step(old(self).stage, old(self).side, ok),
    {
        let (stage, action) = match self.stage {
            Stage::First => if ok {
                (Stage::Over, Action::Done)
            } else {
                (Stage::Relogin, Action::Login)
            },
            Stage::Relogin => if ok {
                (Stage::Retry, Action::PlaceBet(self.side))
            } else {
                (Stage::Over, Action::Abort(Fatal::LoginFailed))
            },
            Stage::Retry => if ok {
                (Stage::Over, Action::Done)
            } else {
                (Stage::Over, Action::Abort(Fatal::BetFailed))
            },
            Stage::Over => (Stage::Over, Action::Done),
        };
        self.stage = stage;
        action
    }
}

/// The actions that a bet course at `stage` takes when what it has out comes
/// back with the outcomes `oks`, in order.
pub open spec fn course(stage: Stage, side: Winner, oks: Seq<bool>) -> Seq<Action>
    decreases oks.len(),
{
    if oks.len() == 0 {
        Seq::empty()
    } else {
        let (next, action) = next_step(stage, side, oks[0]);
        seq![action] + course(next, side, oks.subrange(1, oks.len() as int))
    }
}

/// How many bets a run of actions places.
pub open spec fn bets_in(actions: Seq<Action>) -> nat
    decreases actions.len(),
{
    if actions.len() == 0 {
        0
    } else {
        (if actions[0] is PlaceBet {
            1nat
        } else {
            0nat
        }) + bets_in(actions.subrange(1, actions.len() as int))
    }
}

/// How many logins a run of actions asks for.
pub open spec fn logins_in(actions: Seq<Action>) -> nat
    decreases actions.len(),
{
    if actions.len() == 0 {
        0
    } else {
        (if actions[0] is Login {
            1nat
        } else {
            0nat
        }) + logins_in(actions.subrange(1, actions.len() as int))
    }
}

proof fn lemma_course_bounds(stage: Stage, side: Winner, oks: Seq<bool>)
    ensures
        bets_in(course(stage, side, oks)) <= (if stage == Stage::First || stage == Stage::Relogin {
            1nat
        } else {
            0nat
        }),
        logins_in(course(stage, side, oks)) <= (if stage == Stage::First {
            1nat
        } else {
            0nat
        }),
    decreases oks.len(),
{
    if oks.len() > 0 {
        let (next, action) = next_step(stage, side, oks[0]);
        let rest = oks.subrange(1, oks.len() as int);
        let tail = course(next, side, rest);
        lemma_course_bounds(next, side, rest);
        let all = course(stage, side, oks);
        assert(all == seq![action] + tail);
        assert(all.subrange(1, all.len() as int) == tail);
    }
}

/// Whatever comes back, one bet course places at most two bets, the first
/// one included, and logs in again at most once.
pub proof fn lemma_one_retry(side: Winner, oks: Seq<bool>)
    ensures
        1 + bets_in(course(Stage::First, side, oks)) <= 2,
        logins_in(course(Stage::First, side, oks)) <= 1,
{
    lemma_course_bounds(Stage::First, side, oks);
}

} // verus!
