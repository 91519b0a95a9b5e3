//! Decoding of host-window messages: recognising the pointer messages the
//! session claims, and extracting the packed coordinate, modifier, and wheel
//! words from the raw message parameters.

use vstd::prelude::*;
use crate::geometry::Point;
use crate::geometry::Size;

verus! {

/// Host message word for a pointer move.
pub const WM_MOUSEMOVE: u32 = 0x0200;
/// Host message word for the primary button going down.
pub const WM_LBUTTONDOWN: u32 = 0x0201;
/// Host message word for the primary button going up.
pub const WM_LBUTTONUP: u32 = 0x0202;
/// Host message word for the secondary button going down.
pub const WM_RBUTTONDOWN: u32 = 0x0204;
/// Host message word for the secondary button going up.
pub const WM_RBUTTONUP: u32 = 0x0205;
/// Host message word for a wheel turn.
pub const WM_MOUSEWHEEL: u32 = 0x020A;
/// Host message word for a client-area size change.
pub const WM_SIZE: u32 = 0x0005;
/// Host message word for the destroy signal.
pub const WM_DESTROY: u32 = 0x0002;

/// The kinds of pointer event the session recognises and forwards to the
/// content surface's input sink.
#[derive(Clone, Copy, Debug, PartialEq, Eq, Structural)]
pub enum PointerKind {
    Move,
    PrimaryDown,
    PrimaryUp,
    SecondaryDown,
    SecondaryUp,
    Wheel,
}

/// Which pointer kind, if any, a host message word stands for. Messages
/// outside this table are not the router's concern and pass through to the
/// host's default handling.
pub open spec fn kind_of_message(msg: u32) -> Option<PointerKind> {
    if msg == WM_MOUSEMOVE {
        Some(PointerKind::Move)
    } else if msg == WM_LBUTTONDOWN {
        Some(PointerKind::PrimaryDown)
    } else if msg == WM_LBUTTONUP {
        Some(PointerKind::PrimaryUp)
    } else if msg == WM_RBUTTONDOWN {
        Some(PointerKind::SecondaryDown)
    } else if msg == WM_RBUTTONUP {
        Some(PointerKind::SecondaryUp)
    } else if msg == WM_MOUSEWHEEL {
        Some(PointerKind::Wheel)
    } else {
        None
    }
}

/// The message word a pointer kind is carried by; the content surface's
/// input sink expects this same word as the event-kind code.
pub open spec fn message_of_kind(kind: PointerKind) -> u32 {
    match kind {
        PointerKind::Move => WM_MOUSEMOVE,
        PointerKind::PrimaryDown => WM_LBUTTONDOWN,
        PointerKind::PrimaryUp => WM_LBUTTONUP,
        PointerKind::SecondaryDown => WM_RBUTTONDOWN,
        PointerKind::SecondaryUp => WM_RBUTTONUP,
        PointerKind::Wheel => WM_MOUSEWHEEL,
    }
}

/// Recognises a pointer message word.
pub fn classify_pointer_message(msg: u32) -> (r: Option<PointerKind>)
    ensures
        r == kind_of_message(msg),
{
    if msg == WM_MOUSEMOVE {
        Some(PointerKind::Move)
    } else if msg == WM_LBUTTONDOWN {
        Some(PointerKind::PrimaryDown)
    } else if msg == WM_LBUTTONUP {
        Some(PointerKind::PrimaryUp)
    } else if msg == WM_RBUTTONDOWN {
        Some(PointerKind::SecondaryDown)
    } else if msg == WM_RBUTTONUP {
        Some(PointerKind::SecondaryUp)
    } else if msg == WM_MOUSEWHEEL {
        Some(PointerKind::Wheel)
    } else {
        None
    }
}

/// The event-kind code handed to the input sink for a recognised kind.
pub fn message_code_of_kind(kind: PointerKind) -> (r: u32)
    ensures
        r == message_of_kind(kind),
        kind_of_message(r) == Some(kind),
{
    match kind {
        PointerKind::Move => WM_MOUSEMOVE,
        PointerKind::PrimaryDown => WM_LBUTTONDOWN,
        PointerKind::PrimaryUp => WM_LBUTTONUP,
        PointerKind::SecondaryDown => WM_RBUTTONDOWN,
        PointerKind::SecondaryUp => WM_RBUTTONUP,
        PointerKind::Wheel => WM_MOUSEWHEEL,
    }
}

/// Classification and the kind-to-code table are mutual inverses: every
/// recognised message word maps to a kind whose code is that word, and
/// every kind's code is classified back to that kind.
pub proof fn lemma_kind_message_roundtrip(msg: u32, kind: PointerKind)
    ensures
        kind_of_message(msg) == Some(kind) ==> message_of_kind(kind) == msg,
        kind_of_message(message_of_kind(kind)) == Some(kind),
{
}

/// The low 16 bits of a raw message parameter.
pub open spec fn low_word(v: u64) -> u64 {
    v & 0xFFFF
}

/// Bits 16..32 of a raw message parameter.
pub open spec fn high_word(v: u64) -> u64 {
    (v >> 16) & 0xFFFF
}

/// A 16-bit word read as a two's-complement signed value.
pub open spec fn signed_word(w: u64) -> int
    recommends
        w < 0x10000,
{
    if w < 0x8000 {
        w as int
    } else {
        w - 0x10000
    }
}

/// The packed words of a message parameter are 16-bit values, so their
/// signed readings lie in the 16-bit signed range.
pub proof fn lemma_word_bounds(v: u64)
    ensures
        low_word(v) < 0x10000,
        high_word(v) < 0x10000,
        -0x8000 <= signed_word(low_word(v)) <= 0x7FFF,
        -0x8000 <= signed_word(high_word(v)) <= 0x7FFF,
{
    assert(v & 0xFFFF < 0x10000) by (bit_vector);
    assert((v >> 16) & 0xFFFF < 0x10000) by (bit_vector);
}

/// The packed x coordinate: the low word of the position parameter,
/// sign-extended.
pub fn x_of_position_param(lparam: u64) -> (r: i32)
    ensures
        r as int == signed_word(low_word(lparam)),
{
    let w: u16 = (lparam & 0xFFFF) as u16;
    proof {
        assert(((lparam & 0xFFFF) as u16) as u64 == lparam & 0xFFFF) by (bit_vector);
    }
    if w < 0x8000 {
        w as i32
    } else {
        (w as i32) - 0x10000
    }
}

/// The packed y coordinate: the high word of the position parameter,
/// sign-extended.
pub fn y_of_position_param(lparam: u64) -> (r: i32)
    ensures
        r as int == signed_word(high_word(lparam)),
{
    let w: u16 = ((lparam >> 16) & 0xFFFF) as u16;
    proof {
        assert((((lparam >> 16) & 0xFFFF) as u16) as u64 == (lparam >> 16) & 0xFFFF)
            by (bit_vector);
    }
    if w < 0x8000 {
        w as i32
    } else {
        (w as i32) - 0x10000
    }
}

/// The modifier-key bitmask: the low word of the key-state parameter.
pub fn modifiers_of_keystate_param(wparam: u64) -> (r: u16)
    ensures
        r as int == low_word(wparam) as int,
{
    let w: u16 = (wparam & 0xFFFF) as u16;
    proof {
        assert(((wparam & 0xFFFF) as u16) as u64 == wparam & 0xFFFF) by (bit_vector);
    }
    w
}

/// The signed wheel delta: the high word of the key-state parameter,
/// read as two's complement.
pub fn wheel_of_keystate_param(wparam: u64) -> (r: i16)
    ensures
        r as int == signed_word(high_word(wparam)),
{
    let w: u16 = ((wparam >> 16) & 0xFFFF) as u16;
    proof {
        assert((((wparam >> 16) & 0xFFFF) as u16) as u64 == (wparam >> 16) & 0xFFFF)
            by (bit_vector);
    }
    if w < 0x8000 {
        w as i16
    } else {
        ((w as i32) - 0x10000) as i16
    }
}

/// The new client-area size packed in a size message: width in the low word,
/// height in the high word.
pub fn size_of_size_param(lparam: u64) -> (r: Size)
    ensures
        r.width as int == low_word(lparam) as int,
        r.height as int == high_word(lparam) as int,
{
    let w: u16 = (lparam & 0xFFFF) as u16;
    let h: u16 = ((lparam >> 16) & 0xFFFF) as u16;
    proof {
        assert(((lparam & 0xFFFF) as u16) as u64 == lparam & 0xFFFF) by (bit_vector);
        assert((((lparam >> 16) & 0xFFFF) as u16) as u64 == (lparam >> 16) & 0xFFFF)
            by (bit_vector);
    }
    Size { width: w as u32, height: h as u32 }
}

/// A pointer message as decoded from the raw message parameters: the kind,
/// the position in screen space as the host delivered it, the modifier-key
/// bitmask, and the signed wheel delta, which is zero for every kind but a
/// wheel turn.
#[derive(Clone, Copy, Debug, PartialEq, Eq, Structural)]
pub struct RawPointer {
    pub kind: PointerKind,
    pub screen_position: Point,
    pub modifiers: u16,
    pub wheel_delta: i16,
}

impl RawPointer {
    /// The wheel delta carries information only on a wheel event; for every
    /// other kind it is zero.
    pub open spec fn wf(self) -> bool {
        self.kind != PointerKind::Wheel ==> self.wheel_delta == 0
    }
}

/// Decodes a host message into a pointer event, or reports that the message
/// is not one the router claims.
pub fn decode_pointer_message(msg: u32, wparam: u64, lparam: u64) -> (r: Option<RawPointer>)
    ensures
        r is Some <==> kind_of_message(msg) is Some,
        r matches Some(e) ==> {
            &&& Some(e.kind) == kind_of_message(msg)
            &&& e.screen_position.x as int == signed_word(low_word(lparam))
            &&& e.screen_position.y as int == signed_word(high_word(lparam))
            &&& e.modifiers as int == low_word(wparam) as int
            &&& e.wheel_delta as int == (if e.kind is Wheel {
                signed_word(high_word(wparam))
            } else {
                0
            })
            &&& e.wf()
        },
{
    match classify_pointer_message(msg) {
        None => None,
        Some(kind) => {
            let x = x_of_position_param(lparam);
            let y = y_of_position_param(lparam);
            let modifiers = modifiers_of_keystate_param(wparam);
            let wheel_delta: i16 = if let PointerKind::Wheel = kind {
                wheel_of_keystate_param(wparam)
            } else {
                0
            };
            Some(RawPointer {
                kind,
                screen_position: Point { x, y },
                modifiers,
                wheel_delta,
            })
        },
    }
}

} // verus!
