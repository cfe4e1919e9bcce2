//! The course of a session: menu, play, game over.

use vstd::prelude::*;

use crate::health::Health;

verus! {

/// Whether the menu is up or a game is on.
#[derive(Debug, Hash, Eq, PartialEq, Clone, Copy, Structural)]
pub enum AppState {
    Menu,
    InGame,
}

/// How the game stands once the menu is left.
#[derive(Debug, Hash, Eq, PartialEq, Clone, Copy, Structural)]
pub enum GameState {
    Paused,
    Ongoing,
    GameOver,
}

impl Default for AppState {
    /// A session opens in the menu.
    fn default() -> (state: AppState)
        ensures
            state == AppState::Menu,
    {
        AppState::Menu
    }
}

impl Default for GameState {
    /// No game runs until one is started.
    fn default() -> (state: GameState)
        ensures
            state == GameState::Paused,
    {
        GameState::Paused
    }
}

/// What the pointer does to the play button.
#[derive(Debug, Eq, PartialEq, Clone, Copy, Structural)]
pub enum Interaction {
    Pressed,
    Hovered,
    Idle,
}

/// The look of the play button.
#[derive(Debug, Eq, PartialEq, Clone, Copy, Structural)]
pub enum ButtonColor {
    Normal,
    Hovered,
    Pressed,
}

/// The answer of the menu to the pointer: how the button looks, and the state
/// to move to, if any. Pressing the button starts the game.
pub open spec fn spec_menu(interaction: Interaction) -> (ButtonColor, Option<AppState>) {
    match interaction {
        Interaction::Pressed => (ButtonColor::Pressed, Some(AppState::InGame)),
        Interaction::Hovered => (ButtonColor::Hovered, None),
        Interaction::Idle => (ButtonColor::Normal, None),
    }
}

/// Answers the pointer: how the button looks now, and the state to move to,
/// if any.
#[verifier::when_used_as_spec(spec_menu)]
pub fn menu(interaction: Interaction) -> (answer: (ButtonColor, Option<AppState>))
    ensures
        answer == spec_menu(interaction),
{
    match interaction {
        Interaction::Pressed => (ButtonColor::Pressed, Some(AppState::InGame)),
        Interaction::Hovered => (ButtonColor::Hovered, None),
        Interaction::Idle => (ButtonColor::Normal, None),
    }
}

/// The state that the health of the player calls for: game over once a
/// player is there and dead, else no change.
pub open spec fn spec_check_health(player: Option<Health>) -> Option<GameState> {
    if player matches Some(health) && health.is_dead() {
        Some(GameState::GameOver)
    } else {
        None
    }
}

/// Looks at the player's health once and says whether the game is over.
#[verifier::when_used_as_spec(spec_check_health)]
pub fn check_health(player: Option<Health>) -> (next: Option<GameState>)
    ensures
        next == spec_check_health(player),
{
    match player {
        Some(health) => if health.is_dead() {
            Some(GameState::GameOver)
        } else {
            None
        },
        None => None,
    }
}

/// Both state variables of a session.
#[derive(Debug, Eq, PartialEq, Clone, Copy, Structural)]
pub struct GameFlow {
    pub app: AppState,
    pub game: GameState,
}

impl GameFlow {
    /// Movement, contact tracking, damage and the health check run only in a
    /// game that is on.
    pub open spec fn spec_gameplay_runs(&self) -> bool {
        self.app == AppState::InGame && self.game == GameState::Ongoing
    }

    /// The flow after the menu has answered the pointer: a press in the menu
    /// starts a game, anything else changes nothing.
    pub open spec fn after_menu(self, interaction: Interaction) -> GameFlow {
        if self.app == AppState::Menu && interaction == Interaction::Pressed {
            GameFlow { app: AppState::InGame, game: GameState::Ongoing }
        } else {
            self
        }
    }

    /// The flow after one look at the player's health: a running game with a
    /// dead player is over, anything else changes nothing.
    pub open spec fn after_health_check(self, player: Option<Health>) -> GameFlow {
        if self.spec_gameplay_runs() && spec_check_health(player) == Some(GameState::GameOver) {
            GameFlow { app: self.app, game: GameState::GameOver }
        } else {
            self
        }
    }

    /// A session at its start: in the menu, with no game running.
    pub fn new() -> (flow: GameFlow)
        ensures
            flow.app == AppState::Menu,
            flow.game == GameState::Paused,
            !flow.spec_gameplay_runs(),
    {
        GameFlow { app: AppState::Menu, game: GameState::Paused }
    }

    /// Whether the gameplay steps run in this state.
    #[verifier::when_used_as_spec(spec_gameplay_runs)]
    pub fn gameplay_runs(&self) -> (runs: bool)
        ensures
            runs == self.spec_gameplay_runs(),
    {
        self.app == AppState::InGame && self.game == GameState::Ongoing
    }

    /// Hands the pointer's doing to the menu and follows its answer. Outside
    /// the menu there is no button, so nothing happens and `None` is returned.
    pub fn handle_menu(&mut self, interaction: Interaction) -> (color: Option<ButtonColor>)
        ensures
            *final(self) == old(self).after_menu(interaction),
            color == if old(self).app == AppState::Menu {
                Some(menu(interaction).0)
            } else {
                None
            },
    {
        if self.app == AppState::Menu {
            let (color, next) = menu(interaction);
            if let Some(app) = next {
                self.app = app;
                self.game = GameState::Ongoing;
            }
            Some(color)
        } else {
            None
        }
    }

    /// Looks at the player's health and ends a running game whose player is
    /// dead. The look may be repeated at will.
    pub fn handle_health(&mut self, player: Option<Health>)
        ensures
            *final(self) == old(self).after_health_check(player),
            old(self).game == GameState::GameOver ==> *final(self) == *old(self),
    {
        if self.gameplay_runs() {
            if let Some(game) = check_health(player) {
                self.game = game;
            }
        }
    }
}

/// Looking at the same health twice is the same as looking once, and a game
/// that is over stays over whatever the health.
pub proof fn lemma_health_check_idempotent(flow: GameFlow, player: Option<Health>)
    ensures
        flow.after_health_check(player).after_health_check(player) == flow.after_health_check(
            player,
        ),
        flow.game == GameState::GameOver ==> flow.after_health_check(player) == flow,
{
}

/// Game over is final: neither the menu nor the health check leads out of it.
pub proof fn lemma_game_over_is_terminal(
    flow: GameFlow,
    interaction: Interaction,
    player: Option<Health>,
)
    requires
        flow.app == AppState::InGame,
        flow.game == GameState::GameOver,
    ensures
        flow.after_menu(interaction) == flow,
        flow.after_health_check(player) == flow,
        !flow.spec_gameplay_runs(),
{
}

} // verus!
