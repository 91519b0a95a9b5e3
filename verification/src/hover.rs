//! The hover-dot model and controller: a small model-view-controller core
//! driven by pen input. Positions are whole client-space pixels; the
//! renderer that wants fractional centres converts at the draw site.

use vstd::prelude::*;

verus! {

/// The state of the pointer: released, hovering, or pressing, with the
/// position of the dot to draw in the latter two.
#[derive(Clone, Copy, Debug, PartialEq, Eq, Structural)]
pub enum PointerState {
    Released,
    Hovered { x: i32, y: i32 },
    Pressed { x: i32, y: i32 },
}

/// The behaviour of the app's state: a pointer state that the input side
/// updates and the paint side reads.
pub trait Model: Sized {
    /// The pointer state the model currently holds.
    spec fn state(&self) -> PointerState;

    /// The pointer hovers at `(x, y)`.
    fn update_hover(&mut self, x: i32, y: i32)
        ensures
            final(self).state() == (PointerState::Hovered { x, y }),
    ;

    /// The pointer presses at `(x, y)`.
    fn update_press(&mut self, x: i32, y: i32)
        ensures
            final(self).state() == (PointerState::Pressed { x, y }),
    ;

    /// The pointer left.
    fn release(&mut self)
        ensures
            final(self).state() == PointerState::Released,
    ;

    /// Reads the current pointer state.
    fn pointer_state(&self) -> (r: PointerState)
        ensures
            r == self.state(),
    ;
}

/// Concrete implementation of the model.
pub struct AppState {
    pointer_state: PointerState,
}

impl AppState {
    /// A fresh state with the pointer released.
    pub fn new() -> (s: AppState)
        ensures
            s.state() == PointerState::Released,
    {
        AppState { pointer_state: PointerState::Released }
    }
}

impl Default for AppState {
    fn default() -> (s: AppState)
        ensures
            s.state() == PointerState::Released,
    {
        AppState::new()
    }
}

impl Model for AppState {
    closed spec fn state(&self) -> PointerState {
        self.pointer_state
    }

    fn update_hover(&mut self, x: i32, y: i32) {
        self.pointer_state = PointerState::Hovered { x, y };
    }

    fn update_press(&mut self, x: i32, y: i32) {
        self.pointer_state = PointerState::Pressed { x, y };
    }

    fn release(&mut self) {
        self.pointer_state = PointerState::Released;
    }

    fn pointer_state(&self) -> (r: PointerState) {
        self.pointer_state
    }
}

/// How input events modify the model: an update becomes a press while the
/// pointer is in contact and a hover while it is not, and a leave releases.
pub trait Controller: Sized {
    /// The pointer state of the model this controller drives.
    spec fn model_state(&self) -> PointerState;

    /// A pointer update at `(x, y)` with the given contact state.
    fn on_pointer_update(&mut self, x: i32, y: i32, in_contact: bool)
        ensures
            in_contact ==> final(self).model_state() == (PointerState::Pressed { x, y }),
            !in_contact ==> final(self).model_state() == (PointerState::Hovered { x, y }),
    ;

    /// The pointer left the window.
    fn on_pointer_leave(&mut self)
        ensures
            final(self).model_state() == PointerState::Released,
    ;
}

/// Concrete controller tied to a model.
pub struct AppController<M: Model> {
    pub model: M,
}

impl<M: Model> AppController<M> {
    /// A controller over the given model.
    pub fn new(model: M) -> (c: AppController<M>)
        ensures
            c.model == model,
    {
        AppController { model }
    }
}

impl<M: Model> Controller for AppController<M> {
    open spec fn model_state(&self) -> PointerState {
        self.model.state()
    }

    fn on_pointer_update(&mut self, x: i32, y: i32, in_contact: bool) {
        if in_contact {
            self.model.update_press(x, y);
        } else {
            self.model.update_hover(x, y);
        }
    }

    fn on_pointer_leave(&mut self) {
        self.model.release();
    }
}

} // verus!
