//! The phases of a match and what moves the match from one to the next:
//! the clock of each phase, the picks that a phase takes, and the exchange
//! that is resolved when the actions are in.

pub mod countdown;
pub mod resolve_action;

use crate::combo::{ChoiceSelection, GameData, ResolveResult};
use crate::computer::ComputerPlayer;
use crate::config::{
    COUNTDOWN_TIME, MAX_HEALTH, RESOLVE_ACTION_TIME, REVEAL_TIME, RESOLVE_ANNOUNCED_TIME, ROUND_START_TIME, SELECT_ACTION_TIME,
    SELECT_ELEMENT_TIME,
};
use crate::events::SelectionEvent;
use crate::flow::countdown::Countdown;
use crate::flow::resolve_action::{apply_round, round_step, Signal};
use crate::settings::{GameMode, GameSettings};
use crate::state::{GameState, UiState};
use crate::types::{Choice, Dimension, Outcome, Player};
use vstd::prelude::*;

verus! {

/// How long each phase of a match lasts, in milliseconds.
#[derive(Debug, Copy, Clone, PartialEq, Eq, Structural)]
pub struct PhaseDurations {
    pub round_start: u64,
    pub select_element: u64,
    pub select_action: u64,
    /// An exchange that nothing is announced after.
    pub resolve_action: u64,
    /// An exchange with the announcement that follows it.
    pub resolve_announced: u64,
    /// The end of a selection phase over which the countdown is shown.
    pub countdown: u64,
    /// The start of an exchange over which the picks are revealed.
    pub reveal: u64,
}

impl Default for PhaseDurations {
    fn default() -> (r: PhaseDurations)
        ensures
            r == PhaseDurations::default_spec(),
    {
        PhaseDurations {
            round_start: ROUND_START_TIME,
            select_element: SELECT_ELEMENT_TIME,
            select_action: SELECT_ACTION_TIME,
            resolve_action: RESOLVE_ACTION_TIME,
            resolve_announced: RESOLVE_ANNOUNCED_TIME,
            countdown: COUNTDOWN_TIME,
            reveal: REVEAL_TIME,
        }
    }
}

impl PhaseDurations {
    /// How long `state` lasts when it is entered after `signal`. A phase
    /// outside a match has no clock.
    pub open spec fn of_spec(self, state: GameState, signal: Option<Signal>) -> u64 {
        match state {
            GameState::GameStart => self.round_start,
            GameState::SelectElement => self.select_element,
            GameState::SelectAction => self.select_action,
            GameState::ResolveAction => if signal matches Some(s) && s.is_announced_spec() {
                self.resolve_announced
            } else {
                self.resolve_action
            },
            _ => 0,
        }
    }

    /// How long `state` lasts when it is entered after `signal`.
    pub fn of(&self, state: GameState, signal: Option<Signal>) -> (r: u64)
        ensures
            r == self.of_spec(state, signal),
    {
        match state {
            GameState::GameStart => self.round_start,
            GameState::SelectElement => self.select_element,
            GameState::SelectAction => self.select_action,
            GameState::ResolveAction => match signal {
                Some(s) => if s.is_announced() {
                    self.resolve_announced
                } else {
                    self.resolve_action
                },
                None => self.resolve_action,
            },
            _ => 0,
        }
    }
}

/// The phase that follows the exchange that `signal` came from: the end
/// of the match, the elements anew, or the next action.
pub open spec fn next_state_spec(signal: Option<Signal>) -> GameState {
    match signal {
        Some(Signal::MatchOver) => GameState::GameOver,
        Some(Signal::ContinueActionLoop) => GameState::SelectAction,
        Some(Signal::AdvantageAnnounced) => GameState::SelectAction,
        _ => GameState::SelectElement,
    }
}

/// The phase that follows the exchange that `signal` came from.
pub fn next_state(signal: Option<Signal>) -> (r: GameState)
    ensures
        r == next_state_spec(signal),
{
    match signal {
        Some(Signal::MatchOver) => GameState::GameOver,
        Some(Signal::ContinueActionLoop) => GameState::SelectAction,
        Some(Signal::AdvantageAnnounced) => GameState::SelectAction,
        _ => GameState::SelectElement,
    }
}

/// All that the game holds at one moment.
#[derive(Debug)]
pub struct FlowState {
    /// The phase.
    pub state: GameState,
    /// The clock of the phase.
    pub timer: Countdown,
    pub durations: PhaseDurations,
    pub settings: GameSettings,
    /// The record of the match.
    pub game_data: GameData,
    pub computer: ComputerPlayer,
    /// The result of the last exchange.
    pub last_result: ResolveResult,
    /// The signal of the last exchange, if there was one in this match.
    pub signal: Option<Signal>,
    /// What player one had picked when the last exchange was resolved.
    pub revealed_one: ChoiceSelection,
    /// What player two had picked when the last exchange was resolved.
    pub revealed_two: ChoiceSelection,
}

impl FlowState {
    /// Whether the game, as it stands, takes `choice` as a pick for
    /// `dimension`: the phase is the one in which that kind is picked, and
    /// the pick is of that kind.
    pub open spec fn accepts(self, dimension: Dimension, choice: Choice) -> bool {
        self.state.accepts_spec() == Some(dimension) && choice.fits_spec(dimension)
    }

    /// The game after `player` submitted `choice` for `dimension`: the
    /// pick is recorded where it is accepted, and nothing changes where it
    /// is not.
    pub open spec fn submit_spec(
        self,
        player: Player,
        dimension: Dimension,
        choice: Choice,
    ) -> FlowState {
        if self.accepts(dimension, choice) {
            FlowState { game_data: self.game_data.with_choice(player, dimension, choice), ..self }
        } else {
            self
        }
    }

    /// What is reported when `player` submits `choice` for `dimension`:
    /// the change of the pick, where the pick is accepted and differs from
    /// what was picked.
    pub open spec fn submit_event(
        self,
        player: Player,
        dimension: Dimension,
        choice: Choice,
    ) -> Option<SelectionEvent> {
        if self.accepts(dimension, choice) {
            SelectionEvent::of_change(
                player,
                dimension,
                self.game_data.player_spec(player).choice_selection.get_spec(dimension),
                choice,
            )
        } else {
            None
        }
    }

    /// The game as it enters `state`: the clock is set to the full time of
    /// the phase, or stopped where the phase is outside a match.
    pub open spec fn entering(self, state: GameState) -> FlowState {
        FlowState {
            state,
            timer: if state.in_match_spec() {
                Countdown { remaining: self.durations.of_spec(state, self.signal), finished: false }
            } else {
                Countdown { remaining: 0, finished: true }
            },
            ..self
        }
    }

    /// What the screen lays over the game. While a pick is made it is
    /// the title of the phase, and over the last part of the phase the
    /// countdown. Over the first part of an exchange it is what both
    /// players picked. At any other time it is nothing.
    pub open spec fn ui_state_spec(self) -> UiState {
        match self.state {
            GameState::SelectElement | GameState::SelectAction => if self.timer.remaining
                <= self.durations.countdown {
                UiState::Countdown
            } else {
                UiState::Title
            },
            GameState::ResolveAction => if self.timer.remaining + self.durations.reveal
                > self.durations.of_spec(GameState::ResolveAction, self.signal) {
                UiState::Reveal
            } else {
                UiState::Hidden
            },
            _ => UiState::Hidden,
        }
    }

    /// What is shown of `player`'s last exchange.
    pub open spec fn revealed_spec(self, player: Player) -> ChoiceSelection {
        match player {
            Player::One => self.revealed_one,
            Player::Two => self.revealed_two,
        }
    }
}

/// The step from selecting actions to resolving them. What both players
/// picked is kept for showing, the exchange is resolved and taken into the
/// record, and the clock is set for showing it. A record whose numbers are
/// at the end of their range takes no more exchanges: the match ends
/// there.
pub open spec fn resolve_step(pre: FlowState, post: FlowState) -> bool {
    &&& post.state == GameState::ResolveAction
    &&& post.durations == pre.durations
    &&& post.settings == pre.settings
    &&& post.computer == pre.computer
    &&& post.revealed_one == pre.game_data.player_one.choice_selection
    &&& post.revealed_two == pre.game_data.player_two.choice_selection
    &&& post.signal is Some
    &&& if pre.game_data.can_process() {
        round_step(pre.game_data, post.game_data, post.last_result, post.signal.unwrap())
    } else {
        &&& post.game_data == pre.game_data
        &&& post.last_result == pre.game_data.resolve_spec(Dimension::Action)
        &&& post.signal == Some(Signal::MatchOver)
    }
    &&& post.timer == (Countdown {
        remaining: pre.durations.of_spec(GameState::ResolveAction, post.signal),
        finished: false,
    })
}

/// What a tick of `delta` milliseconds makes of the game: `post` is the
/// game after it, and `moved` the phase that was entered, if one was.
///
/// Outside a match a tick does nothing. In a match it counts the clock of
/// the phase down, and only on the tick on which the clock expires the
/// game moves: from the opening to the elements, from the elements to the
/// actions, from the actions to their resolution, and from there to
/// wherever the signal of the exchange sends it.
pub open spec fn tick_step(
    pre: FlowState,
    delta: u64,
    post: FlowState,
    moved: Option<GameState>,
) -> bool {
    if !pre.state.in_match_spec() {
        post == pre && moved is None
    } else if !pre.timer.expires_on(delta) {
        post == (FlowState { timer: pre.timer.after_tick(delta), ..pre }) && moved is None
    } else {
        match pre.state {
            GameState::GameStart => {
                &&& post == pre.entering(GameState::SelectElement)
                &&& moved == Some(GameState::SelectElement)
            },
            GameState::SelectElement => {
                &&& post == pre.entering(GameState::SelectAction)
                &&& moved == Some(GameState::SelectAction)
            },
            GameState::SelectAction => {
                &&& resolve_step(pre, post)
                &&& moved == Some(GameState::ResolveAction)
            },
            _ => {
                &&& post == pre.entering(next_state_spec(pre.signal))
                &&& moved == Some(next_state_spec(pre.signal))
            },
        }
    }
}

/// What a tick of `delta` milliseconds makes of the computer's part of
/// the game: `post` is the game after it and `event` what is reported.
///
/// The computer plays only where no person plays the second player, and
/// only in a phase that takes picks. There its clock is counted down, and
/// on the tick on which the clock expires the computer submits a pick for
/// player two and sets its clock for the next one.
pub open spec fn bot_step(
    pre: FlowState,
    delta: u64,
    post: FlowState,
    event: Option<SelectionEvent>,
) -> bool {
    match (pre.settings.game_mode, pre.state.accepts_spec()) {
        (GameMode::SinglePlayer, Some(dimension)) => if pre.computer.timer.expires_on(delta) {
            &&& post.computer.is_waiting()
            &&& exists|choice: Choice|
                {
                    &&& ComputerPlayer::may_pick(
                        dimension,
                        pre.game_data.player_two.choice_selection.element,
                        choice,
                    )
                    &&& post == (FlowState {
                        computer: post.computer,
                        ..pre.submit_spec(Player::Two, dimension, choice)
                    })
                    &&& event == pre.submit_event(Player::Two, dimension, choice)
                }
        } else {
            &&& post == (FlowState {
                computer: ComputerPlayer { timer: pre.computer.timer.after_tick(delta) },
                ..pre
            })
            &&& event is None
        },
        _ => post == pre && event is None,
    }
}

/// The game: its state, and the only ways to change it.
#[derive(Debug)]
pub struct Flow {
    inner: FlowState,
}

impl View for Flow {
    type V = FlowState;

    closed spec fn view(&self) -> FlowState {
        self.inner
    }
}

impl Default for Flow {
    fn default() -> (r: Flow)
        ensures
            r@.state == GameState::Idle,
            r@.durations == PhaseDurations::default_spec(),
            r@.is_blank(),
    {
        Flow::new(PhaseDurations::default())
    }
}

impl PhaseDurations {
    /// The times that the game is played with unless others are given.
    pub open spec fn default_spec() -> PhaseDurations {
        PhaseDurations {
            round_start: ROUND_START_TIME,
            select_element: SELECT_ELEMENT_TIME,
            select_action: SELECT_ACTION_TIME,
            resolve_action: RESOLVE_ACTION_TIME,
            resolve_announced: RESOLVE_ANNOUNCED_TIME,
            countdown: COUNTDOWN_TIME,
            reveal: REVEAL_TIME,
        }
    }
}

impl FlowState {
    /// Whether nothing of a match is in the state: a fresh record, the
    /// computer at its start, no exchange resolved or shown, the clock at
    /// zero.
    pub open spec fn is_blank(self) -> bool {
        &&& self.timer == (Countdown { remaining: 0, finished: false })
        &&& self.settings.game_mode == GameMode::SinglePlayer
        &&& self.game_data.is_fresh()
        &&& self.game_data.advantage == Player::One
        &&& self.computer == ComputerPlayer::first()
        &&& self.last_result == (ResolveResult { outcome: Outcome::Draw, choice: Choice::Unset })
        &&& self.signal is None
        &&& self.revealed_one == ChoiceSelection::empty()
        &&& self.revealed_two == ChoiceSelection::empty()
    }
}

impl Flow {
    /// A game in which nothing was started yet, with the phases lasting
    /// as `durations` says.
    pub fn new(durations: PhaseDurations) -> (r: Flow)
        ensures
            r@.state == GameState::Idle,
            r@.durations == durations,
            r@.is_blank(),
    {
        Flow {
            inner: FlowState {
                state: GameState::Idle,
                timer: Countdown::default(),
                durations,
                settings: GameSettings::default(),
                game_data: GameData::default(),
                computer: ComputerPlayer::default(),
                last_result: ResolveResult::default(),
                signal: None,
                revealed_one: ChoiceSelection::default(),
                revealed_two: ChoiceSelection::default(),
            },
        }
    }

    /// The state of the game, to read.
    pub fn snapshot(&self) -> (r: &FlowState)
        ensures
            *r == self@,
    {
        &self.inner
    }

    /// The phase that the game is in.
    pub fn current_phase(&self) -> (r: GameState)
        ensures
            r == self@.state,
    {
        self.inner.state
    }

    /// What `player` has picked for the exchange at hand.
    pub fn choice_selection(&self, player: Player) -> (r: ChoiceSelection)
        ensures
            r == self@.game_data.player_spec(player).choice_selection,
    {
        self.inner.game_data.player(player).choice_selection
    }

    /// The health that `player` has left.
    pub fn health(&self, player: Player) -> (r: i32)
        ensures
            r == self@.game_data.player_spec(player).health,
    {
        self.inner.game_data.player(player).health
    }

    /// The result of the last exchange; a draw without a choice before the
    /// first one.
    pub fn last_resolve_result(&self) -> (r: ResolveResult)
        ensures
            r == self@.last_result,
    {
        self.inner.last_result
    }

    /// The signal of the last exchange, if there was one in this match.
    pub fn last_signal(&self) -> (r: Option<Signal>)
        ensures
            r == self@.signal,
    {
        self.inner.signal
    }

    /// Who won the first exchange of the running streak.
    pub fn advantage_holder(&self) -> (r: Player)
        ensures
            r == self@.game_data.advantage,
    {
        self.inner.game_data.advantage
    }

    /// What `player` had picked when the last exchange was resolved.
    pub fn revealed(&self, player: Player) -> (r: ChoiceSelection)
        ensures
            r == self@.revealed_spec(player),
    {
        match player {
            Player::One => self.inner.revealed_one,
            Player::Two => self.inner.revealed_two,
        }
    }

    /// What the screen lays over the game.
    pub fn ui_state(&self) -> (r: UiState)
        ensures
            r == self@.ui_state_spec(),
    {
        match self.inner.state {
            GameState::SelectElement | GameState::SelectAction => if self.inner.timer.remaining
                <= self.inner.durations.countdown {
                UiState::Countdown
            } else {
                UiState::Title
            },
            GameState::ResolveAction => {
                let whole = self.inner.durations.of(GameState::ResolveAction, self.inner.signal);
                let reveal = self.inner.durations.reveal;
                if whole < reveal || self.inner.timer.remaining > whole - reveal {
                    UiState::Reveal
                } else {
                    UiState::Hidden
                }
            },
            _ => UiState::Hidden,
        }
    }

    /// The milliseconds that are left of the phase.
    pub fn remaining(&self) -> (r: u64)
        ensures
            r == self@.timer.remaining,
    {
        self.inner.timer.remaining
    }

    /// Shows the title screen. That is done before anything was started
    /// and when a match is over; at any other time nothing changes.
    pub fn show_title(&mut self) -> (shown: bool)
        ensures
            shown == (old(self)@.state == GameState::Idle || old(self)@.state
                == GameState::GameOver),
            final(self)@ == if shown {
                FlowState { state: GameState::Title, ..old(self)@ }
            } else {
                old(self)@
            },
    {
        match self.inner.state {
            GameState::Idle | GameState::GameOver => {
                self.inner.state = GameState::Title;
                true
            },
            _ => false,
        }
    }

    /// Starts a match in `mode` from the title screen: the record is made
    /// ready, nothing of an earlier match is left, and the opening begins.
    /// Anywhere but on the title screen nothing changes.
    pub fn start_game(&mut self, mode: GameMode) -> (started: bool)
        ensures
            started == (old(self)@.state == GameState::Title),
            !started ==> final(self)@ == old(self)@,
            started ==> {
                &&& final(self)@.state == GameState::GameStart
                &&& final(self)@.timer == (Countdown {
                    remaining: old(self)@.durations.round_start,
                    finished: false,
                })
                &&& final(self)@.durations == old(self)@.durations
                &&& final(self)@.settings.game_mode == mode
                &&& final(self)@.game_data.is_set_up(mode)
                &&& final(self)@.game_data.advantage == old(self)@.game_data.advantage
                &&& final(self)@.computer == ComputerPlayer::first()
                &&& final(self)@.last_result == (ResolveResult {
                    outcome: Outcome::Draw,
                    choice: Choice::Unset,
                })
                &&& final(self)@.signal is None
                &&& final(self)@.revealed_one == ChoiceSelection::empty()
                &&& final(self)@.revealed_two == ChoiceSelection::empty()
            },
    {
        if self.inner.state != GameState::Title {
            return false;
        }
        self.inner.settings.game_mode = mode;
        self.inner.game_data.setup(mode);
        self.inner.computer = ComputerPlayer::default();
        self.inner.last_result = ResolveResult::default();
        self.inner.signal = None;
        self.inner.revealed_one = ChoiceSelection::default();
        self.inner.revealed_two = ChoiceSelection::default();
        self.inner.state = GameState::GameStart;
        self.inner.timer.reset(self.inner.durations.round_start);
        true
    }

    /// Takes `choice` as the pick of `player` for `dimension`, and reports
    /// the change if it is one. A pick is taken only in the phase in which
    /// its kind is picked, and only if it is of that kind; any other is
    /// ignored.
    pub fn submit_selection(&mut self, player: Player, dimension: Dimension, choice: Choice) -> (r:
        Option<SelectionEvent>)
        ensures
            final(self)@ == old(self)@.submit_spec(player, dimension, choice),
            r == old(self)@.submit_event(player, dimension, choice),
    {
        if self.inner.state.accepts() == Some(dimension) && choice.fits(dimension) {
            self.inner.game_data.select(player, dimension, choice)
        } else {
            None
        }
    }

    /// Takes the keys that `player` holds down as a pick: that of the
    /// first key in `pressed` that is bound for the player, for the kind
    /// that the phase takes. Where no such key is pressed, or the phase
    /// takes no picks, nothing changes.
    pub fn handle_input(&mut self, player: Player, pressed: &Vec<u32>) -> (r: Option<
        SelectionEvent,
    >)
        ensures
            match (
                old(self)@.state.accepts_spec(),
                old(self)@.game_data.player_spec(player).input.selected_spec(pressed@),
            ) {
                (Some(dimension), Some(selection)) => {
                    &&& final(self)@ == old(self)@.submit_spec(
                        player,
                        dimension,
                        selection.get_spec(dimension),
                    )
                    &&& r == old(self)@.submit_event(
                        player,
                        dimension,
                        selection.get_spec(dimension),
                    )
                },
                _ => final(self)@ == old(self)@ && r is None,
            },
    {
        let Some(dimension) = self.inner.state.accepts() else {
            return None;
        };
        let Some(selection) = self.inner.game_data.player(player).input.selected(pressed) else {
            return None;
        };
        self.submit_selection(player, dimension, selection.get(dimension))
    }

    /// Lets `delta` milliseconds pass for the computer: where it plays
    /// and its clock expires, it picks for player two.
    pub fn update_bot(&mut self, delta: u64) -> (r: Option<SelectionEvent>)
        ensures
            bot_step(old(self)@, delta, final(self)@, r),
    {
        if self.inner.settings.game_mode != GameMode::SinglePlayer {
            return None;
        }
        let Some(dimension) = self.inner.state.accepts() else {
            return None;
        };
        if !self.inner.computer.timer.tick(delta) {
            return None;
        }
        let element = self.inner.game_data.player_two.choice_selection.element;
        let choice = ComputerPlayer::pick(dimension, &element);
        let event = self.submit_selection(Player::Two, dimension, choice);
        self.inner.computer.reset();
        proof {
            let pre = old(self)@;
            let post = self@;
            assert(post == (FlowState {
                computer: post.computer,
                ..pre.submit_spec(Player::Two, dimension, choice)
            }));
            assert(event == pre.submit_event(Player::Two, dimension, choice));
            assert(ComputerPlayer::may_pick(
                dimension,
                pre.game_data.player_two.choice_selection.element,
                choice,
            ));
        }
        event
    }

    /// Lets `delta` milliseconds pass for the match, and says which phase
    /// was entered, if one was.
    pub fn tick(&mut self, delta: u64) -> (moved: Option<GameState>)
        ensures
            tick_step(old(self)@, delta, final(self)@, moved),
    {
        if !self.inner.state.in_match() {
            return None;
        }
        if !self.inner.timer.tick(delta) {
            return None;
        }
        let next = match self.inner.state {
            GameState::GameStart => GameState::SelectElement,
            GameState::SelectElement => GameState::SelectAction,
            GameState::SelectAction => {
                self.resolve_exchange();
                GameState::ResolveAction
            },
            _ => next_state(self.inner.signal),
        };
        self.enter(next);
        Some(next)
    }

    /// Keeps what both players picked for showing, and resolves the
    /// exchange if the record can take it.
    fn resolve_exchange(&mut self)
        ensures
            final(self)@.state == old(self)@.state,
            final(self)@.timer == old(self)@.timer,
            final(self)@.durations == old(self)@.durations,
            final(self)@.settings == old(self)@.settings,
            final(self)@.computer == old(self)@.computer,
            final(self)@.revealed_one == old(self)@.game_data.player_one.choice_selection,
            final(self)@.revealed_two == old(self)@.game_data.player_two.choice_selection,
            final(self)@.signal is Some,
            if old(self)@.game_data.can_process() {
                round_step(
                    old(self)@.game_data,
                    final(self)@.game_data,
                    final(self)@.last_result,
                    final(self)@.signal.unwrap(),
                )
            } else {
                &&& final(self)@.game_data == old(self)@.game_data
                &&& final(self)@.last_result == old(self)@.game_data.resolve_spec(Dimension::Action)
                &&& final(self)@.signal == Some(Signal::MatchOver)
            },
    {
        self.inner.revealed_one = self.inner.game_data.player_one.choice_selection;
        self.inner.revealed_two = self.inner.game_data.player_two.choice_selection;
        if self.inner.game_data.check_can_process() {
            let (result, signal) = apply_round(&mut self.inner.game_data);
            self.inner.last_result = result;
            self.inner.signal = Some(signal);
        } else {
            self.inner.last_result = self.inner.game_data.get_action_result();
            self.inner.signal = Some(Signal::MatchOver);
        }
    }

    /// Enters `state` and sets the clock of the phase.
    fn enter(&mut self, state: GameState)
        ensures
            final(self)@ == old(self)@.entering(state),
    {
        self.inner.state = state;
        if state.in_match() {
            let duration = self.inner.durations.of(state, self.inner.signal);
            self.inner.timer.reset(duration);
        } else {
            self.inner.timer.stop();
        }
    }
}

impl FlowState {
    /// What holds of the game at every moment of its course: every pick
    /// is of its own kind; no player has more than full health; elements
    /// and actions are picked only while both players have health left;
    /// elements are picked only with no exchange counted; an exchange on
    /// show has a signal, and the match goes on from it only while both
    /// players have health left; a match that is over ended on the signal
    /// that says so.
    pub open spec fn is_sound(self) -> bool {
        &&& self.game_data.player_one.choice_selection.well_kinded()
        &&& self.game_data.player_two.choice_selection.well_kinded()
        &&& self.game_data.player_one.health <= MAX_HEALTH
        &&& self.game_data.player_two.health <= MAX_HEALTH
        &&& self.state == GameState::GameStart ==> self.game_data.action == 0
        &&& self.state == GameState::SelectElement ==> self.game_data.action == 0
        &&& self.state.accepts_spec() is Some || self.state == GameState::GameStart
            ==> !self.game_data.can_end_game_spec()
        &&& self.state == GameState::ResolveAction ==> self.signal is Some
        &&& self.state == GameState::ResolveAction && self.signal != Some(Signal::MatchOver)
            ==> !self.game_data.can_end_game_spec()
        &&& self.state == GameState::ResolveAction && (self.signal == Some(
            Signal::RestartFromElement,
        ) || self.signal == Some(Signal::ComboBreaker)) ==> self.game_data.action == 0
        &&& self.state == GameState::GameOver ==> self.signal == Some(Signal::MatchOver)
    }

    /// Whether `next` may follow `self` as the phase of a match.
    pub open spec fn may_move(state: GameState, next: GameState) -> bool {
        match state {
            GameState::GameStart => next == GameState::SelectElement,
            GameState::SelectElement => next == GameState::SelectAction,
            GameState::SelectAction => next == GameState::ResolveAction,
            GameState::ResolveAction => next == GameState::SelectAction || next
                == GameState::SelectElement || next == GameState::GameOver,
            _ => false,
        }
    }
}

/// A game in which nothing was started, the title screen, and a match
/// that was just started all are as the game is at every moment.
pub proof fn lemma_invariant_at_start(state: FlowState, mode: GameMode)
    requires
        state.state == GameState::Idle || state.state == GameState::Title || state.state
            == GameState::GameStart,
        state.is_blank() || state.game_data.is_set_up(mode),
        state.signal is None,
    ensures
        state.is_sound(),
{
}

/// Showing the title keeps the game as it is at every moment.
pub proof fn lemma_title_keeps_invariant(pre: FlowState)
    requires
        pre.is_sound(),
        pre.state == GameState::Idle || pre.state == GameState::GameOver,
    ensures
        (FlowState { state: GameState::Title, ..pre }).is_sound(),
{
}

/// A tick keeps the game as it is at every moment.
pub proof fn lemma_tick_keeps_invariant(
    pre: FlowState,
    delta: u64,
    post: FlowState,
    moved: Option<GameState>,
)
    requires
        pre.is_sound(),
        tick_step(pre, delta, post, moved),
    ensures
        post.is_sound(),
{
}

/// A submitted pick keeps the game as it is at every moment.
pub proof fn lemma_submit_keeps_invariant(
    pre: FlowState,
    player: Player,
    dimension: Dimension,
    choice: Choice,
)
    requires
        pre.is_sound(),
    ensures
        pre.submit_spec(player, dimension, choice).is_sound(),
{
}

/// A tick of the computer keeps the game as it is at every moment.
pub proof fn lemma_bot_keeps_invariant(
    pre: FlowState,
    delta: u64,
    post: FlowState,
    event: Option<SelectionEvent>,
)
    requires
        pre.is_sound(),
        bot_step(pre, delta, post, event),
    ensures
        post.is_sound(),
{
    if pre.settings.game_mode == GameMode::SinglePlayer && pre.state.accepts_spec() is Some
        && pre.computer.timer.expires_on(delta) {
        let dimension = pre.state.accepts_spec().unwrap();
        let choice = choose|choice: Choice|
            {
                &&& ComputerPlayer::may_pick(
                    dimension,
                    pre.game_data.player_two.choice_selection.element,
                    choice,
                )
                &&& post == (FlowState {
                    computer: post.computer,
                    ..pre.submit_spec(Player::Two, dimension, choice)
                })
                &&& event == pre.submit_event(Player::Two, dimension, choice)
            };
        lemma_submit_keeps_invariant(pre, Player::Two, dimension, choice);
    }
}

/// The phases follow one another in a fixed order, and only the clock
/// moves the match on: a tick on which the clock of the phase does not
/// expire leaves the phase as it is, whatever was picked; a tick on which
/// it expires moves the match one phase on. After an exchange the match
/// goes to the end if a player is out of health, back to the elements
/// after a restart or a broken combo, and straight to the next action
/// otherwise.
pub proof fn lemma_phases_follow_in_order(
    pre: FlowState,
    delta: u64,
    post: FlowState,
    moved: Option<GameState>,
)
    requires
        tick_step(pre, delta, post, moved),
    ensures
        moved is None ==> post.state == pre.state,
        moved is Some <==> pre.state.in_match_spec() && pre.timer.expires_on(delta),
        moved matches Some(next) ==> post.state == next && FlowState::may_move(pre.state, next),
        !pre.state.in_match_spec() ==> post == pre,
        pre.state == GameState::ResolveAction && moved is Some ==> post.game_data == pre.game_data
            && post.state == next_state_spec(pre.signal),
        pre.state != GameState::SelectAction ==> post.game_data == pre.game_data
            && post.last_result == pre.last_result && post.signal == pre.signal,
{
}

/// A pick is taken in the phase of its kind and in no other, it changes
/// nothing but the pick itself, and submitting it again changes and
/// reports nothing.
pub proof fn lemma_picks_are_taken_in_their_phase(
    pre: FlowState,
    player: Player,
    dimension: Dimension,
    choice: Choice,
)
    ensures
        pre.state.accepts_spec() != Some(dimension) ==> pre.submit_spec(player, dimension, choice)
            == pre && pre.submit_event(player, dimension, choice) is None,
        pre.accepts(dimension, choice) ==> pre.submit_spec(
            player,
            dimension,
            choice,
        ).game_data.player_spec(player).choice_selection.get_spec(dimension) == choice,
        pre.submit_spec(player, dimension, choice).state == pre.state,
        pre.submit_spec(player, dimension, choice).timer == pre.timer,
        pre.submit_spec(player, dimension, choice).game_data.player_spec(
            player.opponent_spec(),
        ) == pre.game_data.player_spec(player.opponent_spec()),
        pre.submit_spec(player, dimension, choice).game_data.player_spec(player).health
            == pre.game_data.player_spec(player).health,
        pre.submit_spec(player, dimension, choice).submit_spec(player, dimension, choice)
            == pre.submit_spec(player, dimension, choice),
        pre.submit_spec(player, dimension, choice).submit_event(player, dimension, choice) is None,
{
}


/// Where a signal sends the match: to its end when a player is out of
/// health, back to the elements after a restart or a broken combo, and
/// straight to the next action, past the elements, in the advantage loop.
pub proof fn lemma_signals_lead_to_phases(signal: Signal)
    ensures
        signal == Signal::MatchOver <==> next_state_spec(Some(signal)) == GameState::GameOver,
        signal.restarts_spec() <==> next_state_spec(Some(signal)) == GameState::SelectElement,
        signal == Signal::ContinueActionLoop || signal == Signal::AdvantageAnnounced
            <==> next_state_spec(Some(signal)) == GameState::SelectAction,
{
}

} // verus!
