//! The input router: transforms recognised pointer messages from screen
//! space into host-window client space and forwards them to the negotiated
//! content surface's input sink — or drops them, silently and harmlessly,
//! while no surface has been negotiated yet.

use vstd::prelude::*;
use crate::geometry::Point;
use crate::geometry::client_x_of;
use crate::geometry::client_y_of;
use crate::geometry::fits_i32;
use crate::geometry::screen_to_client;
use crate::geometry::transform_fits;
use crate::messages::PointerKind;
use crate::messages::RawPointer;
use crate::messages::kind_of_message;
use crate::messages::message_code_of_kind;
use crate::messages::message_of_kind;
use crate::negotiation::ContentSurfaceHandle;

verus! {

/// One invocation of the content surface's input sink: the event kind, the
/// position already transformed into client space, the modifier-key
/// bitmask, and the signed wheel delta.
#[derive(Clone, Copy, Debug, PartialEq, Eq, Structural)]
pub struct SinkEvent {
    pub kind: PointerKind,
    pub position: Point,
    pub modifiers: u16,
    pub wheel_delta: i16,
}

impl SinkEvent {
    /// The wheel delta carries information only on a wheel event.
    pub open spec fn wf(self) -> bool {
        self.kind != PointerKind::Wheel ==> self.wheel_delta == 0
    }

    /// The three words of the native sink invocation, exactly as the sink
    /// reads them: the event-kind code (the message word the kind arrived
    /// by), the modifier bitmask widened, and the wheel delta as a 32-bit
    /// two's-complement word.
    pub fn sink_call_words(&self) -> (r: (u32, u32, u32))
        ensures
            r.0 == message_of_kind(self.kind),
            kind_of_message(r.0) == Some(self.kind),
            r.1 == self.modifiers,
            self.wheel_delta >= 0 ==> r.2 == self.wheel_delta,
            self.wheel_delta < 0 ==> r.2 == self.wheel_delta + 0x1_0000_0000,
    {
        let code = message_code_of_kind(self.kind);
        let keys: u32 = self.modifiers as u32;
        let data: u32 = if self.wheel_delta >= 0 {
            self.wheel_delta as u32
        } else {
            ((self.wheel_delta as i64) + 0x1_0000_0000) as u32
        };
        (code, keys, data)
    }
}

/// Routes one pointer event. With a negotiated surface present, the event's
/// screen position is transformed by exact offset subtraction into client
/// space and the sink invocation is returned for the shell to deliver; the
/// kind, modifiers and wheel delta pass through unchanged. With no surface
/// yet, the event is dropped — no sink invocation — which is an expected
/// transient state during startup, not an error.
pub fn route(event: &RawPointer, origin: Point, surface: &Option<ContentSurfaceHandle>) -> (r:
    Option<SinkEvent>)
    requires
        surface is Some ==> transform_fits(event.screen_position, origin),
    ensures
        surface is None ==> r is None,
        surface is Some ==> (r matches Some(s) && {
            &&& s.kind == event.kind
            &&& s.position.x == client_x_of(event.screen_position, origin)
            &&& s.position.y == client_y_of(event.screen_position, origin)
            &&& s.modifiers == event.modifiers
            &&& s.wheel_delta == event.wheel_delta
        }),
        event.wf() ==> (r matches Some(s) ==> s.wf()),
{
    match surface {
        None => None,
        Some(_) => {
            let position = screen_to_client(event.screen_position, origin);
            Some(
                SinkEvent {
                    kind: event.kind,
                    position,
                    modifiers: event.modifiers,
                    wheel_delta: event.wheel_delta,
                },
            )
        },
    }
}

/// Every screen position a pointer message can decode to — both packed
/// coordinates are 16-bit signed values — transforms exactly over `origin`.
pub open spec fn pointer_transform_fits(origin: Point) -> bool {
    &&& fits_i32(-0x8000 - origin.x)
    &&& fits_i32(0x7FFF - origin.x)
    &&& fits_i32(-0x8000 - origin.y)
    &&& fits_i32(0x7FFF - origin.y)
}

/// A decoded pointer position lies in the 16-bit signed range on both
/// axes, so an origin that satisfies [`pointer_transform_fits`] makes its
/// transform exact.
pub proof fn lemma_decoded_position_transform_fits(p: Point, origin: Point)
    requires
        -0x8000 <= p.x <= 0x7FFF,
        -0x8000 <= p.y <= 0x7FFF,
        pointer_transform_fits(origin),
    ensures
        transform_fits(p, origin),
{
}

} // verus!
