use yee_player::button::{ButtonResponse, ButtonState, StateButton};

fn button_in(state: ButtonState) -> StateButton {
    let mut button = StateButton::new();
    match state {
        ButtonState::Unhover => {}
        ButtonState::Hover => button.update_with_input(true, false),
        ButtonState::Press => {
            button.update_with_input(true, false);
            button.update_with_input(true, true);
        }
    }
    button
}

fn step(
    state: ButtonState,
    hovering: bool,
    pressing: bool,
) -> (ButtonState, Option<ButtonResponse>) {
    let mut button = button_in(state);
    button.update_with_input(hovering, pressing);
    (*button.get_state(), button.get_response())
}

#[test]
fn new_button_is_not_hovered() {
    let button = StateButton::new();
    assert!(matches!(button.get_state(), ButtonState::Unhover));
    assert!(button.get_response().is_none());
}

#[test]
fn unhovered_button() {
    assert!(matches!(
        step(ButtonState::Unhover, true, false),
        (ButtonState::Hover, Some(ButtonResponse::Hover))
    ));
    assert!(matches!(
        step(ButtonState::Unhover, true, true),
        (ButtonState::Unhover, None)
    ));
    assert!(matches!(
        step(ButtonState::Unhover, false, true),
        (ButtonState::Unhover, None)
    ));
    assert!(matches!(
        step(ButtonState::Unhover, false, false),
        (ButtonState::Unhover, None)
    ));
}

#[test]
fn hovered_button() {
    assert!(matches!(
        step(ButtonState::Hover, false, false),
        (ButtonState::Unhover, Some(ButtonResponse::Unhover))
    ));
    assert!(matches!(
        step(ButtonState::Hover, false, true),
        (ButtonState::Unhover, Some(ButtonResponse::Unhover))
    ));
    assert!(matches!(
        step(ButtonState::Hover, true, false),
        (ButtonState::Hover, None)
    ));
    assert!(matches!(
        step(ButtonState::Hover, true, true),
        (ButtonState::Press, Some(ButtonResponse::Press))
    ));
}

#[test]
fn pressed_button() {
    assert!(matches!(
        step(ButtonState::Press, false, false),
        (ButtonState::Unhover, Some(ButtonResponse::Unhover))
    ));
    assert!(matches!(
        step(ButtonState::Press, true, false),
        (ButtonState::Hover, Some(ButtonResponse::Release))
    ));
    assert!(matches!(
        step(ButtonState::Press, true, true),
        (ButtonState::Press, None)
    ));
    assert!(matches!(
        step(ButtonState::Press, false, true),
        (ButtonState::Press, None)
    ));
}

#[test]
fn response_lasts_one_update() {
    let mut button = StateButton::new();
    button.update_with_input(true, false);
    assert!(matches!(button.get_response(), Some(ButtonResponse::Hover)));
    button.update_with_input(true, false);
    assert!(button.get_response().is_none());
    assert!(matches!(button.get_state(), ButtonState::Hover));
}

#[test]
fn click_is_hover_press_release() {
    let mut button = StateButton::new();
    button.update_with_input(true, false);
    button.update_with_input(true, true);
    assert!(matches!(button.get_response(), Some(ButtonResponse::Press)));
    button.update_with_input(true, false);
    assert!(matches!(button.get_response(), Some(ButtonResponse::Release)));
    assert!(matches!(button.get_state(), ButtonState::Hover));
}
