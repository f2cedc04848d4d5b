//! A button that follows the pointer: hovered, pressed, released.

use vstd::prelude::*;

verus! {

/// What the pointer does to a button at the moment.
#[derive(Debug, Clone, Copy)]
pub enum ButtonState {
    Unhover,
    Hover,
    Press,
}

/// What happened to a button in its last update.
#[derive(Debug, Clone, Copy)]
pub enum ButtonResponse {
    Hover,
    Unhover,
    Press,
    Release,
}

/// The state that follows `state` when the pointer is over the button
/// (`hovering`) and its key is down (`pressing`).
///
/// A press counts only when it starts over the button, and a pressed
/// button stays pressed until the key is let go, wherever the pointer is.
pub open spec fn next_state(state: ButtonState, hovering: bool, pressing: bool) -> ButtonState {
    match state {
        ButtonState::Unhover => if hovering && !pressing {
            ButtonState::Hover
        } else {
            ButtonState::Unhover
        },
        ButtonState::Hover => if !hovering {
            ButtonState::Unhover
        } else if pressing {
            ButtonState::Press
        } else {
            ButtonState::Hover
        },
        ButtonState::Press => if pressing {
            ButtonState::Press
        } else if hovering {
            ButtonState::Hover
        } else {
            ButtonState::Unhover
        },
    }
}

/// What the step from `state` to its successor reports: nothing where the
/// state stays; else the state entered, but for a key let go over the
/// button, which is a release.
pub open spec fn response_to(state: ButtonState, hovering: bool, pressing: bool) -> Option<
    ButtonResponse,
> {
    match (state, next_state(state, hovering, pressing)) {
        (ButtonState::Unhover, ButtonState::Hover) => Some(ButtonResponse::Hover),
        (ButtonState::Hover, ButtonState::Unhover) => Some(ButtonResponse::Unhover),
        (ButtonState::Hover, ButtonState::Press) => Some(ButtonResponse::Press),
        (ButtonState::Press, ButtonState::Hover) => Some(ButtonResponse::Release),
        (ButtonState::Press, ButtonState::Unhover) => Some(ButtonResponse::Unhover),
        _ => None,
    }
}

/// A button with its state and what its last update reported.
pub struct StateButton {
    state: ButtonState,
    response: Option<ButtonResponse>,
}

impl StateButton {
    /// The current state.
    pub closed spec fn state(&self) -> ButtonState {
        self.state
    }

    /// What the last update reported.
    pub closed spec fn response(&self) -> Option<ButtonResponse> {
        self.response
    }

    /// A button that the pointer is not over, with nothing to report.
    pub fn new() -> (r: StateButton)
        ensures
            r.state() is Unhover,
            r.response() is None,
    {
        StateButton { state: ButtonState::Unhover, response: None }
    }

    /// Takes the pointer's position and key into account.
    pub fn update_with_input(&mut self, hovering: bool, pressing: bool)
        ensures
            final(self).state() == next_state(old(self).state(), hovering, pressing),
            final(self).response() == response_to(old(self).state(), hovering, pressing),
    {
        self.response = None;
        match self.state {
            ButtonState::Unhover => {
                if hovering && !pressing {
                    self.response = Some(ButtonResponse::Hover);
                    self.state = ButtonState::Hover;
                }
            },
            ButtonState::Hover => {
                if !hovering {
                    self.response = Some(ButtonResponse::Unhover);
                    self.state = ButtonState::Unhover;
                } else if pressing {
                    self.response = Some(ButtonResponse::Press);
                    self.state = ButtonState::Press;
                }
            },
            ButtonState::Press => {
                if !pressing {
                    if hovering {
                        self.response = Some(ButtonResponse::Release);
                        self.state = ButtonState::Hover;
                    } else {
                        self.response = Some(ButtonResponse::Unhover);
                        self.state = ButtonState::Unhover;
                    }
                }
            },
        }
    }

    /// The current state.
    pub fn get_state(&self) -> (r: &ButtonState)
        ensures
            *r == self.state(),
    {
        &self.state
    }

    /// What the last update reported.
    pub fn get_response(&self) -> (r: Option<ButtonResponse>)
        ensures
            r == self.response(),
    {
        self.response
    }
}

} // verus!
