//! The screens of the game and the rules for moving between them.

use vstd::prelude::*;

verus! {

/// The screen that the game shows.
#[derive(Clone, Eq, PartialEq, Debug, Hash, Structural)]
pub enum GameState {
    About,
    Error,
    Game,
    Lobby,
    Settings,
    Splash,
}

impl GameState {
    /// Every screen, in declaration order.
    pub open spec fn spec_all() -> Seq<GameState> {
        seq![
            GameState::About,
            GameState::Error,
            GameState::Game,
            GameState::Lobby,
            GameState::Settings,
            GameState::Splash,
        ]
    }

    /// Every screen, in declaration order.
    pub fn all() -> (states: Vec<GameState>)
        ensures
            states@ == GameState::spec_all(),
    {
        let mut states: Vec<GameState> = Vec::new();
        states.push(GameState::About);
        states.push(GameState::Error);
        states.push(GameState::Game);
        states.push(GameState::Lobby);
        states.push(GameState::Settings);
        states.push(GameState::Splash);
        assert(states@ =~= GameState::spec_all());
        states
    }

    /// The screen that the game starts on.
    pub fn initial() -> (state: GameState)
        ensures
            state == GameState::Splash,
    {
        GameState::Splash
    }

    /// Whether the screen has nothing behind it yet.
    pub open spec fn spec_is_placeholder(&self) -> bool {
        *self == GameState::About || *self == GameState::Lobby || *self == GameState::Settings
    }

    /// Whether the screen has nothing behind it yet.
    #[verifier::when_used_as_spec(spec_is_placeholder)]
    pub fn is_placeholder(&self) -> (placeholder: bool)
        ensures
            placeholder == self.spec_is_placeholder(),
    {
        match self {
            GameState::About | GameState::Lobby | GameState::Settings => true,
            GameState::Error | GameState::Game | GameState::Splash => false,
        }
    }

    /// Where entering this screen leads at once: a placeholder gives way to
    /// the error screen, every other screen stays.
    pub fn redirect_on_enter(&self) -> (next: Option<GameState>)
        ensures
            next == if self.is_placeholder() {
                Some(GameState::Error)
            } else {
                None::<GameState>
            },
            next != Some(*self),
    {
        if self.is_placeholder() {
            Some(GameState::Error)
        } else {
            None
        }
    }

    /// The screen that the toggle key leads to: from the game back to the
    /// splash screen, from anywhere else into the game.
    pub open spec fn spec_toggled(&self) -> GameState {
        if *self == GameState::Game {
            GameState::Splash
        } else {
            GameState::Game
        }
    }

    /// The screen that the toggle key leads to: from the game back to the
    /// splash screen, from anywhere else into the game.
    #[verifier::when_used_as_spec(spec_toggled)]
    pub fn toggled(&self) -> (next: GameState)
        ensures
            next == self.spec_toggled(),
            next != *self,
    {
        match self {
            GameState::Game => GameState::Splash,
            _ => GameState::Game,
        }
    }
}

/// What the toggle key does in this tick: nothing unless it was just pressed,
/// else a change to the toggled screen.
pub fn state_change(current: &GameState, toggle_just_pressed: bool) -> (next: Option<GameState>)
    ensures
        next == if toggle_just_pressed {
            Some(current.toggled())
        } else {
            None::<GameState>
        },
        next != Some(*current),
{
    if toggle_just_pressed {
        Some(current.toggled())
    } else {
        None
    }
}

/// Toggling twice from the game or from the splash screen leads back; from
/// any screen, toggling leads to one of those two.
pub proof fn lemma_toggle_alternates(state: GameState)
    ensures
        state.toggled() == GameState::Game || state.toggled() == GameState::Splash,
        state == GameState::Game || state == GameState::Splash ==> state.toggled().toggled()
            == state,
{
}

} // verus!
