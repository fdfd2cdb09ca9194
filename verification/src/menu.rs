//! The buttons of the splash screen and what a pointer does to them.

use vstd::prelude::*;
use crate::state::GameState;

verus! {

/// The buttons of the splash screen.
#[derive(Debug, PartialEq, Eq, Clone, Copy, Structural)]
pub enum ButtonID {
    Solo,
    Multiplayer,
    Quit,
    About,
    Settings,
}

/// What the pointer is doing to a button.
#[derive(Debug, PartialEq, Eq, Clone, Copy, Structural)]
pub enum Interaction {
    /// The button has been clicked.
    Clicked,
    /// The pointer rests on the button.
    Hovered,
    /// The pointer is elsewhere.
    Idle,
}

/// The background colours that a button takes.
#[derive(Debug, PartialEq, Eq, Clone, Copy, Structural)]
pub enum ButtonTint {
    Black,
    Gray,
}

/// What the game does in answer to a button.
#[derive(Debug, PartialEq, Eq, Clone, Structural)]
pub enum ButtonResponse {
    /// Leave the splash screen for another screen.
    Enter(GameState),
    /// Close the game.
    Quit,
    /// Paint the button.
    Tint(ButtonTint),
}

impl ButtonID {
    /// What a click on this button asks for.
    pub open spec fn spec_on_click(self) -> ButtonResponse {
        match self {
            ButtonID::Solo => ButtonResponse::Enter(GameState::Game),
            ButtonID::Multiplayer => ButtonResponse::Enter(GameState::Lobby),
            ButtonID::Settings => ButtonResponse::Enter(GameState::Settings),
            ButtonID::About => ButtonResponse::Enter(GameState::About),
            ButtonID::Quit => ButtonResponse::Quit,
        }
    }

    /// What a click on this button asks for.
    #[verifier::when_used_as_spec(spec_on_click)]
    pub fn on_click(self) -> (response: ButtonResponse)
        ensures
            response == self.spec_on_click(),
    {
        match self {
            ButtonID::Solo => ButtonResponse::Enter(GameState::Game),
            ButtonID::Multiplayer => ButtonResponse::Enter(GameState::Lobby),
            ButtonID::Settings => ButtonResponse::Enter(GameState::Settings),
            ButtonID::About => ButtonResponse::Enter(GameState::About),
            ButtonID::Quit => ButtonResponse::Quit,
        }
    }

    /// The colour of a button that nothing points at.
    pub fn resting_tint() -> (tint: ButtonTint)
        ensures
            tint == ButtonTint::Black,
    {
        ButtonTint::Black
    }
}

/// The answer to one button in one tick, given its interaction and whether
/// that interaction changed in this tick. An interaction that did not change
/// gets no answer; a click gets what the button asks for; hovering paints the
/// button gray and leaving it paints it black.
pub open spec fn spec_button_response(
    interaction: Interaction,
    id: ButtonID,
    changed: bool,
) -> Option<ButtonResponse> {
    if !changed {
        None
    } else {
        Some(
            match interaction {
                Interaction::Clicked => id.spec_on_click(),
                Interaction::Hovered => ButtonResponse::Tint(ButtonTint::Gray),
                Interaction::Idle => ButtonResponse::Tint(ButtonTint::Black),
            },
        )
    }
}

/// The answer to one button in one tick, given its interaction and whether
/// that interaction changed in this tick.
#[verifier::when_used_as_spec(spec_button_response)]
pub fn button_response(interaction: Interaction, id: ButtonID, changed: bool) -> (response: Option<
    ButtonResponse,
>)
    ensures
        response == spec_button_response(interaction, id, changed),
{
    if !changed {
        return None;
    }
    match interaction {
        Interaction::Clicked => Some(id.on_click()),
        Interaction::Hovered => Some(ButtonResponse::Tint(ButtonTint::Gray)),
        Interaction::Idle => Some(ButtonResponse::Tint(ButtonTint::Black)),
    }
}

/// No button leads back to the splash screen that shows it, only a click
/// ever leaves that screen or closes the game, and the buttons lead to
/// different places.
pub proof fn lemma_buttons_leave_the_splash_screen(
    interaction: Interaction,
    id: ButtonID,
    other: ButtonID,
    changed: bool,
)
    ensures
        button_response(interaction, id, changed) != Some(
            ButtonResponse::Enter(GameState::Splash),
        ),
        button_response(interaction, id, changed) matches Some(ButtonResponse::Tint(_))
            <==> changed && interaction != Interaction::Clicked,
        id != other ==> id.on_click() != other.on_click(),
{
}

} // verus!
