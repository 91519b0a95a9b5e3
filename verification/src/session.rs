//! The session loop: the top-level state machine that owns the host window,
//! drives negotiation, builds the composition tree on success, and handles
//! every host message at the right lifecycle point.
//!
//! The shell around the session performs the native work — it issues the
//! asynchronous acquisition calls, pumps messages, delivers sink
//! invocations, and pushes bounds — and hands each outcome and each raw
//! message to the session, which decides what happens next.

use vstd::prelude::*;
use crate::geometry::Point;
use crate::geometry::Size;
use crate::geometry::client_x_of;
use crate::geometry::client_y_of;
use crate::geometry::transform_fits;
use crate::host::HostWindow;
use crate::host::on_cursor_changed;
use crate::messages::WM_DESTROY;
use crate::messages::WM_SIZE;
use crate::messages::decode_pointer_message;
use crate::messages::kind_of_message;
use crate::messages::RawPointer;
use crate::messages::lemma_word_bounds;
use crate::messages::low_word;
use crate::messages::high_word;
use crate::messages::signed_word;
use crate::messages::size_of_size_param;
use crate::negotiation::ContentSurfaceHandle;
use crate::negotiation::Environment;
use crate::negotiation::NegotiationError;
use crate::negotiation::NegotiationState;
use crate::negotiation::StepCompletion;
use crate::negotiation::complete_controller;
use crate::negotiation::complete_environment;
use crate::negotiation::controller_result_of;
use crate::negotiation::environment_result_of;
use crate::router::SinkEvent;
use crate::router::lemma_decoded_position_transform_fits;
use crate::router::pointer_transform_fits;
use crate::router::route;
use crate::visuals::VisualTree;

verus! {

/// The lifecycle states of a session.
#[derive(Clone, Copy, Debug, PartialEq, Eq, Structural)]
pub enum SessionPhase {
    /// The host window exists; negotiation has not been invoked yet.
    Created,
    /// Negotiation is under way.
    Negotiating,
    /// Negotiation succeeded and the visual tree is built; the message loop
    /// routes input, pushes bounds on resize, and relays cursor changes.
    Ready,
    /// The host window received its destroy signal; the loop is winding
    /// down.
    ShuttingDown,
    /// The loop has exited and resources are released — or negotiation
    /// failed and the session never entered `Ready`.
    Terminated,
}

/// A failed explicit bounds push after a resize. It is surfaced to the
/// shell, which logs it and lets the session continue with stale bounds: a
/// visual glitch, not data loss, so not worth terminating for.
#[derive(Clone, Copy, Debug, PartialEq, Eq, Structural)]
pub enum ResizeError {
    BoundsPushFailed,
}

/// What the session decided about one host message; the shell performs the
/// native call each outcome stands for.
#[derive(Clone, Copy, Debug, PartialEq, Eq, Structural)]
pub enum MessageOutcome {
    /// A recognised pointer message: deliver this invocation to the content
    /// surface's input sink and mark the message handled.
    Forward(SinkEvent),
    /// A recognised pointer message with no negotiated surface to receive
    /// it: drop it, mark the message handled, report no error.
    Dropped,
    /// The client area changed size: push these pixel bounds to the content
    /// handle now.
    PushBounds(Size),
    /// The client area changed size before any content surface existed;
    /// nothing to push.
    SizeNoted,
    /// The destroy signal: post the quit message so the loop exits.
    Quit,
    /// Not a message this session claims: hand it to the host's default
    /// handling unmodified.
    PassThrough,
}

/// One embedded-surface session: the host window it owns, where negotiation
/// stands, the single mutable cell holding the negotiated surface once it
/// exists, the composition tree, and the error that ended negotiation if
/// one did.
pub struct Session {
    pub phase: SessionPhase,
    pub host: HostWindow,
    pub negotiation: NegotiationState,
    /// The shared session state: absent until negotiation completes,
    /// present from then until shutdown, and always checked, never assumed
    /// present.
    pub surface: Option<ContentSurfaceHandle>,
    pub tree: Option<VisualTree>,
    pub failure: Option<NegotiationError>,
}

impl Session {
    /// What holds from the moment the session is ready until the loop
    /// exits: the negotiated handle is in the shared cell, the tree is
    /// well-formed with both children attached — overlay strictly above
    /// content — the content layer is bound to that same handle, and the
    /// bounds last pushed to it equal the host window's current client
    /// size.
    pub open spec fn composited(self) -> bool {
        &&& self.negotiation matches NegotiationState::Complete(h)
        &&& self.surface == Some(h)
        &&& self.tree matches Some(t) && {
            &&& t.wf()
            &&& t.content is Some
            &&& t.overlay is Some
            &&& t.content_handle() == h
            &&& t.pushed_bounds == Some(self.host.client_size)
        }
        &&& self.failure is None
    }

    /// The two sessions hold the same composition: the same visual nodes
    /// in the same sibling order — so the same z-order — with the same
    /// layers attached to the same target.
    pub open spec fn same_composition(a: Session, b: Session) -> bool {
        match (a.tree, b.tree) {
            (Some(t0), Some(t1)) => {
                &&& t1.nodes@ == t0.nodes@
                &&& t1.content == t0.content
                &&& t1.overlay == t0.overlay
                &&& t1.target == t0.target
            },
            (None, None) => true,
            _ => false,
        }
    }

    /// The session invariant, phase by phase.
    pub open spec fn wf(self) -> bool {
        &&& self.host.wf()
        &&& (self.failure matches Some(e) <==> self.negotiation matches NegotiationState::Failed(
            e,
        ))
        &&& match self.phase {
            SessionPhase::Created => {
                &&& self.negotiation is Idle
                &&& self.surface is None
                &&& self.tree is None
            },
            SessionPhase::Negotiating => {
                &&& self.negotiation is Idle || self.negotiation is EnvironmentReady
                &&& self.surface is None
                &&& self.tree is None
            },
            SessionPhase::Ready => self.composited(),
            SessionPhase::ShuttingDown => self.composited(),
            SessionPhase::Terminated => self.surface is None && self.tree is None,
        }
    }

    /// A new session over a created host window.
    pub fn new(host: HostWindow) -> (s: Session)
        requires
            host.wf(),
        ensures
            s.wf(),
            s.phase is Created,
            s.host == host,
    {
        Session {
            phase: SessionPhase::Created,
            host,
            negotiation: NegotiationState::Idle,
            surface: None,
            tree: None,
            failure: None,
        }
    }

    /// Enters negotiation: the shell now issues the asynchronous
    /// environment acquisition and blocks on its one-shot completion.
    pub fn begin_negotiation(&mut self)
        requires
            old(self).wf(),
            old(self).phase is Created,
        ensures
            final(self).wf(),
            final(self).phase is Negotiating,
            final(self).negotiation is Idle,
            final(self).host == old(self).host,
    {
        self.phase = SessionPhase::Negotiating;
    }

    /// Takes the environment step on its completion. On success the session
    /// stays in negotiation, holding the environment for the second step,
    /// which the shell now issues. On failure — an error code, or success
    /// with no object — the session terminates with that error and the
    /// second step is never reached.
    pub fn complete_environment_step(&mut self, completion: StepCompletion) -> (r: Result<
        Environment,
        NegotiationError,
    >)
        requires
            old(self).wf(),
            old(self).phase is Negotiating,
            old(self).negotiation is Idle,
        ensures
            final(self).wf(),
            final(self).host == old(self).host,
            r == environment_result_of(completion),
            r matches Ok(env) ==> {
                &&& final(self).phase is Negotiating
                &&& final(self).negotiation == NegotiationState::EnvironmentReady(env)
            },
            r matches Err(e) ==> {
                &&& final(self).phase is Terminated
                &&& final(self).failure == Some(e)
                &&& final(self).surface is None
            },
    {
        let mut state = self.negotiation;
        let r = complete_environment(&mut state, completion);
        self.negotiation = state;
        if r.is_err() {
            self.phase = SessionPhase::Terminated;
            self.failure = match r {
                Err(e) => Some(e),
                Ok(_) => None,
            };
        }
        r
    }

    /// Takes the controller step on its completion. On success the session
    /// becomes ready: the visual tree is built — root bound to the host
    /// window's target, content child bound to the negotiated handle,
    /// overlay child strictly above it — the handle enters the shared cell,
    /// and the initial bounds are pushed once, before the first paint. On
    /// failure the session terminates with that error, never entering
    /// `Ready`.
    pub fn complete_controller_step(&mut self, completion: StepCompletion) -> (r: Result<
        ContentSurfaceHandle,
        NegotiationError,
    >)
        requires
            old(self).wf(),
            old(self).phase is Negotiating,
            old(self).negotiation is EnvironmentReady,
        ensures
            final(self).wf(),
            final(self).host == old(self).host,
            r == controller_result_of(completion),
            r matches Ok(h) ==> {
                &&& final(self).phase is Ready
                &&& final(self).surface == Some(h)
                &&& final(self).composited()
            },
            r matches Err(e) ==> {
                &&& final(self).phase is Terminated
                &&& final(self).failure == Some(e)
                &&& final(self).surface is None
            },
    {
        let mut state = self.negotiation;
        let r = complete_controller(&mut state, completion);
        self.negotiation = state;
        match r {
            Ok(handle) => {
                let mut tree = VisualTree::create_root(&self.host);
                tree.attach_content(handle);
                tree.attach_overlay();
                tree.on_resize(&handle, self.host.client_size);
                self.tree = Some(tree);
                self.surface = Some(handle);
                self.phase = SessionPhase::Ready;
            },
            Err(e) => {
                self.phase = SessionPhase::Terminated;
                self.failure = Some(e);
            },
        }
        r
    }

    /// Notes the host window's new client-area size. While a content
    /// surface is attached this invokes the resize push — the explicit
    /// bounds update the embedded surface needs on every resize — and
    /// returns the bounds the shell must push now, before any further
    /// message is handled. Before negotiation completes there is nothing to
    /// push and only the recorded size changes.
    pub fn handle_resize(&mut self, new_size: Size) -> (push: Option<Size>)
        requires
            old(self).wf(),
        ensures
            final(self).wf(),
            final(self).phase == old(self).phase,
            final(self).surface == old(self).surface,
            final(self).host == old(self).host.with_client_size(new_size),
            old(self).surface is Some ==> push == Some(new_size),
            old(self).surface is None ==> push is None && final(self).tree == old(self).tree,
            Session::same_composition(*old(self), *final(self)),
            old(self).surface is Some ==> (final(self).tree matches Some(t) && t.pushed_bounds
                == Some(new_size)),
    {
        self.host.client_size = new_size;
        match self.surface {
            Some(handle) => {
                match &mut self.tree {
                    Some(tree) => tree.on_resize(&handle, new_size),
                    None => proof {
                        assert(false);
                    },
                }
                Some(new_size)
            },
            None => None,
        }
    }

    /// Routes one decoded pointer event (see [`route`]): transformed and
    /// forwarded once a surface is negotiated, dropped without error while
    /// none is.
    pub fn route_input(&self, event: &RawPointer, origin: Point) -> (r: Option<SinkEvent>)
        requires
            self.wf(),
            self.surface is Some ==> transform_fits(event.screen_position, origin),
        ensures
            self.surface is None ==> r is None,
            self.surface is Some ==> (r matches Some(s) && {
                &&& s.kind == event.kind
                &&& s.position.x == client_x_of(event.screen_position, origin)
                &&& s.position.y == client_y_of(event.screen_position, origin)
                &&& s.modifiers == event.modifiers
                &&& s.wheel_delta == event.wheel_delta
            }),
    {
        route(event, origin, &self.surface)
    }

    /// Relays a cursor-shape notification pushed by the content surface:
    /// the new shape becomes the host window's pointer appearance and
    /// nothing else changes. Repeated notifications with the same shape are
    /// harmless.
    pub fn relay_cursor(&mut self, new_cursor: u64)
        requires
            old(self).wf(),
        ensures
            final(self).wf(),
            *final(self) == (Session { host: old(self).host.with_cursor(new_cursor), ..*old(self) }),
    {
        on_cursor_changed(&mut self.host, new_cursor);
    }

    /// Takes the destroy/close signal: a ready session starts shutting
    /// down; in any other phase the signal changes nothing.
    pub fn handle_destroy(&mut self)
        requires
            old(self).wf(),
        ensures
            final(self).wf(),
            old(self).phase is Ready ==> *final(self) == (Session {
                phase: SessionPhase::ShuttingDown,
                ..*old(self)
            }),
            !(old(self).phase is Ready) ==> *final(self) == *old(self),
    {
        if let SessionPhase::Ready = self.phase {
            self.phase = SessionPhase::ShuttingDown;
        }
    }

    /// The loop has exited: releases the surface and the tree and
    /// terminates.
    pub fn finish(&mut self)
        requires
            old(self).wf(),
            old(self).phase is ShuttingDown,
        ensures
            final(self).wf(),
            final(self).phase is Terminated,
            final(self).surface is None,
            final(self).tree is None,
            final(self).failure is None,
    {
        self.surface = None;
        self.tree = None;
        self.phase = SessionPhase::Terminated;
    }

    /// The process exit status a terminated session calls for: zero after a
    /// clean shutdown, nonzero exactly when negotiation failed.
    pub fn exit_code(&self) -> (r: i32)
        requires
            self.wf(),
            self.phase is Terminated,
        ensures
            r == 0 <==> self.failure is None,
            self.failure is Some ==> r == 1,
    {
        match self.failure {
            None => 0,
            Some(_) => 1,
        }
    }

    /// Handles one raw host message, as the window procedure does: a
    /// recognised pointer message is decoded, transformed over `origin`
    /// (the screen position of the window's client-area origin) and
    /// forwarded — or dropped while no surface exists; a size message
    /// updates the client size and owes a bounds push; the destroy signal
    /// starts shutdown; every other message passes through to default
    /// handling, untouched.
    pub fn handle_message(&mut self, msg: u32, wparam: u64, lparam: u64, origin: Point) -> (r:
        MessageOutcome)
        requires
            old(self).wf(),
            old(self).surface is Some ==> pointer_transform_fits(origin),
        ensures
            final(self).wf(),
            final(self).surface == old(self).surface,
            Session::same_composition(*old(self), *final(self)),
            match kind_of_message(msg) {
                Some(k) => {
                    &&& *final(self) == *old(self)
                    &&& (old(self).surface is None ==> r is Dropped)
                    &&& (old(self).surface is Some ==> (r matches MessageOutcome::Forward(s) && {
                        &&& s.kind == k
                        &&& s.position.x == signed_word(low_word(lparam)) - origin.x
                        &&& s.position.y == signed_word(high_word(lparam)) - origin.y
                        &&& s.modifiers == low_word(wparam)
                        &&& s.wheel_delta == (if k is Wheel {
                            signed_word(high_word(wparam))
                        } else {
                            0int
                        })
                    }))
                },
                None => {
                    if msg == WM_SIZE {
                        &&& final(self).phase == old(self).phase
                        &&& final(self).host.client_size.width == low_word(lparam)
                        &&& final(self).host.client_size.height == high_word(lparam)
                        &&& (old(self).surface is Some ==> r == MessageOutcome::PushBounds(
                            final(self).host.client_size,
                        ))
                        &&& (old(self).surface is None ==> r is SizeNoted)
                    } else if msg == WM_DESTROY {
                        &&& r is Quit
                        &&& (old(self).phase is Ready ==> final(self).phase is ShuttingDown)
                        &&& (!(old(self).phase is Ready) ==> *final(self) == *old(self))
                    } else {
                        &&& r is PassThrough
                        &&& *final(self) == *old(self)
                    }
                },
            },
    {
        if let Some(raw) = decode_pointer_message(msg, wparam, lparam) {
            proof {
                lemma_word_bounds(lparam);
                if self.surface is Some {
                    lemma_decoded_position_transform_fits(raw.screen_position, origin);
                }
            }
            match self.route_input(&raw, origin) {
                Some(event) => MessageOutcome::Forward(event),
                None => MessageOutcome::Dropped,
            }
        } else if msg == WM_SIZE {
            let new_size = size_of_size_param(lparam);
            match self.handle_resize(new_size) {
                Some(bounds) => MessageOutcome::PushBounds(bounds),
                None => MessageOutcome::SizeNoted,
            }
        } else if msg == WM_DESTROY {
            self.handle_destroy();
            MessageOutcome::Quit
        } else {
            MessageOutcome::PassThrough
        }
    }
}

/// Input received before negotiation completes is dropped: in the created
/// and negotiating phases the shared session state holds no surface, so
/// routing makes zero sink invocations — an expected transient state, not
/// an error.
pub proof fn lemma_input_before_ready_is_dropped(s: Session)
    requires
        s.wf(),
        s.phase is Created || s.phase is Negotiating,
    ensures
        s.surface is None,
{
}

/// A pointer event is forwarded exactly when a negotiated surface is
/// present, and in every such session state the bounds pushed to the
/// content surface already equal the host window's current client size: a
/// resize owes its push before the next input event is forwarded to the
/// sink, and the resize handler restores the equality before it returns.
pub proof fn lemma_bounds_current_when_forwarding(s: Session)
    requires
        s.wf(),
        s.surface is Some,
    ensures
        s.phase is Ready || s.phase is ShuttingDown,
        s.tree matches Some(t) && t.pushed_bounds == Some(s.host.client_size),
{
}

/// From the moment the session becomes ready until it terminates, the
/// overlay visual's sibling position is strictly above the content
/// visual's.
pub proof fn lemma_overlay_above_content_while_ready(s: Session)
    requires
        s.wf(),
        s.phase is Ready || s.phase is ShuttingDown,
    ensures
        s.tree matches Some(t) && {
            &&& t.content is Some
            &&& t.overlay is Some
            &&& t.content->0 < t.overlay->0
        },
{
}

} // verus!
