//! The host window as the session sees it: its identity, its current
//! client-area size, and the pointer cursor last applied to it.

use vstd::prelude::*;
use crate::geometry::Size;

verus! {

/// A native window the session is hosted in. The native handle is opaque;
/// the session reads only its identity, its client-area size, and which
/// cursor shape was last applied.
#[derive(Clone, Copy, Debug, PartialEq, Eq, Structural)]
pub struct HostWindow {
    /// Identity of the native window; a created window never has identity 0.
    pub handle: u64,
    /// Current client-area size, as last reported by the host.
    pub client_size: Size,
    /// The cursor shape last applied to the window, if any; cursor shapes
    /// are carried by their native handle value.
    pub cursor: Option<u64>,
}

impl HostWindow {
    /// A host window stands for a window that was actually created.
    pub open spec fn wf(self) -> bool {
        self.handle != 0
    }

    /// The window with `cursor` applied as its pointer appearance.
    pub open spec fn with_cursor(self, cursor: u64) -> HostWindow {
        HostWindow { cursor: Some(cursor), ..self }
    }

    /// The window with its client-area size updated.
    pub open spec fn with_client_size(self, size: Size) -> HostWindow {
        HostWindow { client_size: size, ..self }
    }
}

/// Relays a cursor-shape notification from the content surface to the host
/// window: the new shape becomes the window's pointer appearance, and
/// nothing else about the window changes.
pub fn on_cursor_changed(host: &mut HostWindow, new_cursor: u64)
    ensures
        *final(host) == old(host).with_cursor(new_cursor),
{
    host.cursor = Some(new_cursor);
}

/// Cursor relay is idempotent: repeating a notification with the same shape
/// leaves the window exactly as the first notification left it.
pub proof fn lemma_cursor_relay_idempotent(host: HostWindow, cursor: u64)
    ensures
        host.with_cursor(cursor).with_cursor(cursor) == host.with_cursor(cursor),
{
}

} // verus!
