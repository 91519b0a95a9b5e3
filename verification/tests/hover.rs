use composition_session::hover::AppController;
use composition_session::hover::AppState;
use composition_session::hover::Controller;
use composition_session::hover::Model;
use composition_session::hover::PointerState;

#[test]
fn fresh_state_is_released() {
    let s = AppState::new();
    assert_eq!(s.pointer_state(), PointerState::Released);
    assert_eq!(AppState::default().pointer_state(), PointerState::Released);
}

#[test]
fn model_tracks_the_latest_update() {
    let mut s = AppState::new();
    s.update_hover(10, 20);
    assert_eq!(s.pointer_state(), PointerState::Hovered { x: 10, y: 20 });
    s.update_press(30, 40);
    assert_eq!(s.pointer_state(), PointerState::Pressed { x: 30, y: 40 });
    s.release();
    assert_eq!(s.pointer_state(), PointerState::Released);
}

#[test]
fn controller_presses_in_contact_and_hovers_otherwise() {
    let mut c = AppController::new(AppState::new());
    c.on_pointer_update(10, 20, false);
    assert_eq!(c.model.pointer_state(), PointerState::Hovered { x: 10, y: 20 });
    c.on_pointer_update(10, 20, true);
    assert_eq!(c.model.pointer_state(), PointerState::Pressed { x: 10, y: 20 });
    c.on_pointer_leave();
    assert_eq!(c.model.pointer_state(), PointerState::Released);
}
