//! What an exchange does to the match: the damage, the advantage, and the
//! signal that says where the match goes next.

use crate::combo::{ChoiceSelection, GameData, ResolveResult};
use crate::types::{Choice, Dimension, Outcome, Player};
use vstd::prelude::*;

verus! {

/// Where the match goes after an exchange.
#[derive(Debug, Copy, Clone, PartialEq, Eq, Structural)]
pub enum Signal {
    /// A player is out of health.
    MatchOver,
    /// The first exchange was a draw: the elements are picked anew.
    RestartFromElement,
    /// The streak goes on with the next action.
    ContinueActionLoop,
    /// The first exchange was won: its winner holds the advantage.
    AdvantageAnnounced,
    /// The holder of the advantage lost an exchange: the elements are
    /// picked anew.
    ComboBreaker,
}

impl Signal {
    /// The signal after an exchange that ended in `outcome` and was number
    /// `exchanges` since the elements were picked, where `advantage` held
    /// the advantage before it and the players are left with `health_one`
    /// and `health_two`.
    pub open spec fn of(
        outcome: Outcome,
        exchanges: int,
        advantage: Player,
        health_one: int,
        health_two: int,
    ) -> Signal {
        if health_one <= 0 || health_two <= 0 {
            Signal::MatchOver
        } else {
            match outcome {
                Outcome::Draw => if exchanges == 1 {
                    Signal::RestartFromElement
                } else {
                    Signal::ContinueActionLoop
                },
                Outcome::PlayerOne => if exchanges == 1 {
                    Signal::AdvantageAnnounced
                } else if advantage == Player::One {
                    Signal::ContinueActionLoop
                } else {
                    Signal::ComboBreaker
                },
                Outcome::PlayerTwo => if exchanges == 1 {
                    Signal::AdvantageAnnounced
                } else if advantage == Player::Two {
                    Signal::ContinueActionLoop
                } else {
                    Signal::ComboBreaker
                },
            }
        }
    }

    /// Whether the signal sends the match back to picking elements.
    pub open spec fn restarts_spec(self) -> bool {
        self == Signal::RestartFromElement || self == Signal::ComboBreaker
    }

    /// Whether the signal sends the match back to picking elements.
    pub fn restarts(self) -> (r: bool)
        ensures
            r == self.restarts_spec(),
    {
        match self {
            Signal::RestartFromElement | Signal::ComboBreaker => true,
            _ => false,
        }
    }

    /// Whether the signal is announced before the match goes on: all are
    /// but the end of the match and the plain next action.
    pub open spec fn is_announced_spec(self) -> bool {
        self == Signal::RestartFromElement || self == Signal::ComboBreaker || self
            == Signal::AdvantageAnnounced
    }

    /// Whether the signal is announced before the match goes on.
    pub fn is_announced(self) -> (r: bool)
        ensures
            r == self.is_announced_spec(),
    {
        match self {
            Signal::RestartFromElement | Signal::ComboBreaker | Signal::AdvantageAnnounced => true,
            _ => false,
        }
    }
}

/// What one exchange makes of the match: `post` is the record after the
/// exchange that `pre` holds, `result` its result and `signal` where the
/// match goes.
///
/// The actions are compared and the exchange is counted. The loser's
/// health goes down by the damage. What both players picked is cleared. A
/// player out of health ends the match. Else a first exchange that is won
/// gives its winner the advantage, and a first exchange that is drawn, or a
/// later one that the holder of the advantage loses, sets the count back
/// to zero; the advantage stays with its holder even then.
pub open spec fn round_step(
    pre: GameData,
    post: GameData,
    result: ResolveResult,
    signal: Signal,
) -> bool {
    &&& result == pre.resolve_spec(Dimension::Action)
    &&& post.player_one.health == pre.player_one.health - pre.damage_to(Player::One)
    &&& post.player_two.health == pre.player_two.health - pre.damage_to(Player::Two)
    &&& post.player_one.choice_selection == ChoiceSelection::empty()
    &&& post.player_two.choice_selection == ChoiceSelection::empty()
    &&& post.player_one.input == pre.player_one.input
    &&& post.player_two.input == pre.player_two.input
    &&& signal == Signal::of(
        result.outcome,
        pre.action + 1,
        pre.advantage,
        post.player_one.health as int,
        post.player_two.health as int,
    )
    &&& post.action == if signal.restarts_spec() {
        0
    } else {
        pre.action + 1
    }
    &&& post.advantage == if signal == Signal::AdvantageAnnounced {
        result.winner_spec().unwrap()
    } else {
        pre.advantage
    }
}

/// Resolves the exchange at hand and takes it into the record.
pub fn apply_round(state: &mut GameData) -> (r: (ResolveResult, Signal))
    requires
        old(state).can_process(),
    ensures
        round_step(*old(state), *final(state), r.0, r.1),
{
    let result = state.get_action_result();
    state.process_turn();
    if state.can_end_game() {
        return (result, Signal::MatchOver);
    }
    let signal = match (result.outcome, state.action) {
        (Outcome::Draw, 1) => back_to_element(state),
        (Outcome::Draw, _) => loop_action(&result, state),
        (Outcome::PlayerOne, 1) => advantage(&result, state),
        (Outcome::PlayerTwo, 1) => advantage(&result, state),
        (Outcome::PlayerOne, _) => loop_action(&result, state),
        (Outcome::PlayerTwo, _) => loop_action(&result, state),
    };
    (result, signal)
}

/// No advantage: the round restarts with the count at zero.
fn back_to_element(state: &mut GameData) -> (r: Signal)
    ensures
        r == Signal::RestartFromElement,
        final(state).action == 0,
        final(state).player_one == old(state).player_one,
        final(state).player_two == old(state).player_two,
        final(state).advantage == old(state).advantage,
{
    state.action = 0;
    Signal::RestartFromElement
}

/// After a later exchange: the streak goes on unless the player who won is
/// not the one who holds the advantage.
fn loop_action(result: &ResolveResult, state: &mut GameData) -> (r: Signal)
    ensures
        r == match (result.outcome, old(state).advantage) {
            (Outcome::PlayerOne, Player::Two) => Signal::ComboBreaker,
            (Outcome::PlayerTwo, Player::One) => Signal::ComboBreaker,
            _ => Signal::ContinueActionLoop,
        },
        final(state).action == if r == Signal::ComboBreaker {
            0
        } else {
            old(state).action
        },
        final(state).player_one == old(state).player_one,
        final(state).player_two == old(state).player_two,
        final(state).advantage == old(state).advantage,
{
    match (result.outcome, state.advantage) {
        (Outcome::PlayerOne, Player::Two) => combo_breaker(state),
        (Outcome::PlayerTwo, Player::One) => combo_breaker(state),
        _ => Signal::ContinueActionLoop,
    }
}

/// The holder of the advantage lost: the round restarts with the count at
/// zero, and the advantage stays where it was.
fn combo_breaker(state: &mut GameData) -> (r: Signal)
    ensures
        r == Signal::ComboBreaker,
        final(state).action == 0,
        final(state).player_one == old(state).player_one,
        final(state).player_two == old(state).player_two,
        final(state).advantage == old(state).advantage,
{
    state.action = 0;
    Signal::ComboBreaker
}

/// The first exchange was won: its winner holds the advantage from now on.
fn advantage(result: &ResolveResult, state: &mut GameData) -> (r: Signal)
    requires
        result.outcome != Outcome::Draw,
    ensures
        r == Signal::AdvantageAnnounced,
        final(state).advantage == result.winner_spec().unwrap(),
        final(state).action == old(state).action,
        final(state).player_one == old(state).player_one,
        final(state).player_two == old(state).player_two,
{
    match result.outcome {
        Outcome::PlayerOne => {
            state.advantage = Player::One;
        },
        Outcome::PlayerTwo => {
            state.advantage = Player::Two;
        },
        _ => (),
    }
    Signal::AdvantageAnnounced
}

/// A player who is out of health after an exchange ends the match,
/// whatever the exchange was; and nothing else does.
pub proof fn lemma_health_floor_ends_match(
    pre: GameData,
    post: GameData,
    result: ResolveResult,
    signal: Signal,
)
    requires
        round_step(pre, post, result, signal),
    ensures
        signal == Signal::MatchOver <==> post.can_end_game_spec(),
        signal == Signal::MatchOver ==> post.action == pre.action + 1 && post.advantage
            == pre.advantage,
{
}

/// An exchange takes health off the loser only: one or two from the
/// player who lost, nothing from the winner, nothing at all in a draw.
pub proof fn lemma_damage_is_bounded(
    pre: GameData,
    post: GameData,
    result: ResolveResult,
    signal: Signal,
)
    requires
        round_step(pre, post, result, signal),
    ensures
        result.outcome == Outcome::Draw ==> post.player_one.health == pre.player_one.health
            && post.player_two.health == pre.player_two.health,
        result.outcome == Outcome::PlayerOne ==> post.player_one.health == pre.player_one.health
            && pre.player_two.health - 2 <= post.player_two.health < pre.player_two.health,
        result.outcome == Outcome::PlayerTwo ==> post.player_two.health == pre.player_two.health
            && pre.player_one.health - 2 <= post.player_one.health < pre.player_one.health,
        result.outcome == Outcome::PlayerOne ==> (post.player_two.health == pre.player_two.health
            - 2 <==> pre.player_one.choice_selection.can_double_spec()),
        result.outcome == Outcome::PlayerTwo ==> (post.player_one.health == pre.player_one.health
            - 2 <==> pre.player_two.choice_selection.can_double_spec()),
{
}

/// A player who picked no action does not win the exchange, and loses it
/// to any action; two players without an action draw.
pub proof fn lemma_missing_action_never_wins(pre: GameData)
    ensures
        pre.player_one.choice_selection.action is Unset ==> pre.resolve_spec(
            Dimension::Action,
        ).outcome != Outcome::PlayerOne,
        pre.player_two.choice_selection.action is Unset ==> pre.resolve_spec(
            Dimension::Action,
        ).outcome != Outcome::PlayerTwo,
        pre.player_one.choice_selection.action is Unset
            && pre.player_two.choice_selection.action is Unset ==> pre.resolve_spec(
            Dimension::Action,
        ) == (ResolveResult { outcome: Outcome::Draw, choice: Choice::Unset }),
        pre.player_one.choice_selection.action is Unset
            && !(pre.player_two.choice_selection.action is Unset) ==> pre.resolve_spec(
            Dimension::Action,
        ).outcome == Outcome::PlayerTwo,
        !(pre.player_one.choice_selection.action is Unset)
            && pre.player_two.choice_selection.action is Unset ==> pre.resolve_spec(
            Dimension::Action,
        ).outcome == Outcome::PlayerOne,
{
}

/// A draw in the first exchange after the elements were picked restarts
/// the round: the count is back at zero and nobody lost health. Both
/// players have health left, else the match is over instead.
pub proof fn lemma_first_draw_restarts(
    pre: GameData,
    post: GameData,
    result: ResolveResult,
    signal: Signal,
)
    requires
        round_step(pre, post, result, signal),
        pre.action == 0,
        result.outcome == Outcome::Draw,
        pre.player_one.health > 0,
        pre.player_two.health > 0,
    ensures
        signal == Signal::RestartFromElement,
        post.action == 0,
        post.player_one.health == pre.player_one.health,
        post.player_two.health == pre.player_two.health,
        post.advantage == pre.advantage,
{
}

/// The advantage loop. The player who wins the first exchange holds the
/// advantage. While both players have health left, a later exchange that
/// the holder wins, or that is drawn, goes on to the next action, and one
/// that the holder loses breaks the combo: the count is back at zero, and
/// the advantage stays with the holder.
pub proof fn lemma_advantage_loop(
    first: GameData,
    announced: GameData,
    first_result: ResolveResult,
    first_signal: Signal,
    later: GameData,
    after: GameData,
    later_result: ResolveResult,
    later_signal: Signal,
)
    requires
        round_step(first, announced, first_result, first_signal),
        first.action == 0,
        first_result.outcome != Outcome::Draw,
        !announced.can_end_game_spec(),
        later.advantage == announced.advantage,
        later.action >= 1,
        round_step(later, after, later_result, later_signal),
        !after.can_end_game_spec(),
    ensures
        first_signal == Signal::AdvantageAnnounced,
        announced.action == 1,
        Some(announced.advantage) == first_result.winner_spec(),
        later_result.winner_spec() == Some(announced.advantage) ==> later_signal
            == Signal::ContinueActionLoop && after.action == later.action + 1,
        later_result.outcome == Outcome::Draw ==> later_signal == Signal::ContinueActionLoop
            && after.action == later.action + 1,
        later_result.winner_spec() == Some(announced.advantage.opponent_spec()) ==> later_signal
            == Signal::ComboBreaker && after.action == 0,
        after.advantage == announced.advantage,
{
}


} // verus!
