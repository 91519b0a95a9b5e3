//! A session that negotiates, composites, and drives input for an embedded
//! rendering surface hosted inside a native visual tree.
//!
//! The session is modelled as a state machine over plain values. The native
//! collaborators — the host window, the compositor, and the embedded content
//! surface — are opaque: this crate decides what to do at each lifecycle
//! point (negotiation outcome, resize, pointer message, destroy signal) and
//! an unverified shell performs the native calls those decisions call for.

pub mod geometry;
pub mod host;
pub mod hover;
pub mod messages;
pub mod negotiation;
pub mod pointer_input;
pub mod router;
pub mod session;
pub mod visuals;

pub use geometry::Point;
pub use geometry::Size;
