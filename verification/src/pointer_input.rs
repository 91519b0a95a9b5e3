//! Decoding of raw pointer-input messages (pen, touch, and mouse delivered
//! through the pointer message family): the packed pointer identifier, the
//! pointer flags, the device kind, and the action a window procedure takes
//! for each message word.

use vstd::prelude::*;
use crate::messages::low_word;

verus! {

/// Host message word for a pointer update.
pub const WM_POINTERUPDATE: u32 = 0x0245;
/// Host message word for a pointer going down.
pub const WM_POINTERDOWN: u32 = 0x0246;
/// Host message word for a pointer going up.
pub const WM_POINTERUP: u32 = 0x0247;
/// Host message word for a pointer entering detection range.
pub const WM_POINTERENTER: u32 = 0x0249;
/// Host message word for a pointer leaving detection range.
pub const WM_POINTERLEAVE: u32 = 0x024A;
/// Host message word for a paint request.
pub const WM_PAINT: u32 = 0x000F;

/// The pointer-flag bit set while the pointer is in contact with the
/// surface.
pub const POINTER_FLAG_INCONTACT: u32 = 0x0004;
/// The pointer-flag bit marking the primary pointer.
pub const POINTER_FLAG_PRIMARY: u32 = 0x2000;
/// The pointer-flag bit set while the source is confident the input was
/// intentional (absent on a likely palm touch).
pub const POINTER_FLAG_CONFIDENCE: u32 = 0x4000;

/// The pointer identifier packed in the low word of the key-state
/// parameter of every pointer message.
pub fn pointer_id_of_param(wparam: u64) -> (r: u32)
    ensures
        r as int == low_word(wparam) as int,
{
    let w: u16 = (wparam & 0xFFFF) as u16;
    proof {
        assert(((wparam & 0xFFFF) as u16) as u64 == wparam & 0xFFFF) by (bit_vector);
    }
    w as u32
}

/// Whether the pointer is in contact with the surface.
pub fn pointer_in_contact(flags: u32) -> (r: bool)
    ensures
        r == (flags & POINTER_FLAG_INCONTACT != 0),
{
    flags & POINTER_FLAG_INCONTACT != 0
}

/// Whether the pointer is the primary pointer.
pub fn pointer_is_primary(flags: u32) -> (r: bool)
    ensures
        r == (flags & POINTER_FLAG_PRIMARY != 0),
{
    flags & POINTER_FLAG_PRIMARY != 0
}

/// Whether the source is confident the input was intentional.
pub fn pointer_has_confidence(flags: u32) -> (r: bool)
    ensures
        r == (flags & POINTER_FLAG_CONFIDENCE != 0),
{
    flags & POINTER_FLAG_CONFIDENCE != 0
}

/// The kind of device behind a pointer, from the host's input-type code.
#[derive(Clone, Copy, Debug, PartialEq, Eq, Structural)]
pub enum DeviceKind {
    Touch,
    Pen,
    Mouse,
    Touchpad,
    Other,
}

/// Which device kind an input-type code stands for: touch is 2, pen 3,
/// mouse 4, touchpad 5; anything else is a generic pointer.
pub open spec fn device_kind_of(code: u32) -> DeviceKind {
    if code == 2 {
        DeviceKind::Touch
    } else if code == 3 {
        DeviceKind::Pen
    } else if code == 4 {
        DeviceKind::Mouse
    } else if code == 5 {
        DeviceKind::Touchpad
    } else {
        DeviceKind::Other
    }
}

/// Classifies the host's pointer input-type code.
pub fn classify_device(code: u32) -> (r: DeviceKind)
    ensures
        r == device_kind_of(code),
{
    if code == 2 {
        DeviceKind::Touch
    } else if code == 3 {
        DeviceKind::Pen
    } else if code == 4 {
        DeviceKind::Mouse
    } else if code == 5 {
        DeviceKind::Touchpad
    } else {
        DeviceKind::Other
    }
}

/// What a pointer message word asks for, before any refinement by device
/// or contact state.
#[derive(Clone, Copy, Debug, PartialEq, Eq, Structural)]
pub enum PointerAction {
    Down,
    Up,
    Update,
    Enter,
    Leave,
    Other,
}

/// The action each pointer message word stands for.
pub open spec fn pointer_action_of(msg: u32) -> PointerAction {
    if msg == WM_POINTERDOWN {
        PointerAction::Down
    } else if msg == WM_POINTERUP {
        PointerAction::Up
    } else if msg == WM_POINTERUPDATE {
        PointerAction::Update
    } else if msg == WM_POINTERENTER {
        PointerAction::Enter
    } else if msg == WM_POINTERLEAVE {
        PointerAction::Leave
    } else {
        PointerAction::Other
    }
}

/// Classifies a pointer message word.
pub fn classify_pointer_action(msg: u32) -> (r: PointerAction)
    ensures
        r == pointer_action_of(msg),
{
    if msg == WM_POINTERDOWN {
        PointerAction::Down
    } else if msg == WM_POINTERUP {
        PointerAction::Up
    } else if msg == WM_POINTERUPDATE {
        PointerAction::Update
    } else if msg == WM_POINTERENTER {
        PointerAction::Enter
    } else if msg == WM_POINTERLEAVE {
        PointerAction::Leave
    } else {
        PointerAction::Other
    }
}

/// What a pen pointer message means once the contact state is known: an
/// update while in contact is a move, an update out of contact a hover,
/// and enter or leave out of contact report the hover range.
#[derive(Clone, Copy, Debug, PartialEq, Eq, Structural)]
pub enum PenAction {
    HoverEntered,
    HoverLeft,
    Down,
    Up,
    Move,
    Hover,
    Other,
}

/// The pen reading of a pointer message word and a contact state.
pub open spec fn pen_action_of(msg: u32, in_contact: bool) -> PenAction {
    if msg == WM_POINTERENTER && !in_contact {
        PenAction::HoverEntered
    } else if msg == WM_POINTERLEAVE && !in_contact {
        PenAction::HoverLeft
    } else if msg == WM_POINTERDOWN {
        PenAction::Down
    } else if msg == WM_POINTERUP {
        PenAction::Up
    } else if msg == WM_POINTERUPDATE {
        if in_contact {
            PenAction::Move
        } else {
            PenAction::Hover
        }
    } else {
        PenAction::Other
    }
}

/// Classifies a pointer message word as a pen action.
pub fn classify_pen_action(msg: u32, in_contact: bool) -> (r: PenAction)
    ensures
        r == pen_action_of(msg, in_contact),
{
    if msg == WM_POINTERENTER && !in_contact {
        PenAction::HoverEntered
    } else if msg == WM_POINTERLEAVE && !in_contact {
        PenAction::HoverLeft
    } else if msg == WM_POINTERDOWN {
        PenAction::Down
    } else if msg == WM_POINTERUP {
        PenAction::Up
    } else if msg == WM_POINTERUPDATE {
        if in_contact {
            PenAction::Move
        } else {
            PenAction::Hover
        }
    } else {
        PenAction::Other
    }
}

} // verus!
