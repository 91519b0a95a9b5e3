//! The layered visual composition tree: a root bound to the host window's
//! drawing target, a content child bound to the negotiated surface, and an
//! owner-drawn overlay child kept strictly above the content in z-order.
//!
//! The tree is an insert-only arena. Siblings are ordered by arena index:
//! every attachment inserts at the top of the root's child order, so a
//! larger index means a position strictly above in z-order.

use vstd::prelude::*;
use crate::geometry::Point;
use crate::geometry::Size;
use crate::host::HostWindow;
use crate::negotiation::ContentSurfaceHandle;

verus! {

/// A paint colour with alpha; alpha zero is fully transparent.
#[derive(Clone, Copy, Debug, PartialEq, Eq, Structural)]
pub struct Color {
    pub a: u8,
    pub r: u8,
    pub g: u8,
    pub b: u8,
}

/// The fully transparent colour: visually inert paint.
pub fn transparent_color() -> (c: Color)
    ensures
        c == (Color { a: 0, r: 0, g: 0, b: 0 }),
{
    Color { a: 0, r: 0, g: 0, b: 0 }
}

/// How a visual derives its size.
#[derive(Clone, Copy, Debug, PartialEq, Eq, Structural)]
pub enum SizePolicy {
    /// The visual always matches its parent's (or target's) size; no
    /// explicit resize call is needed for it.
    FillParent,
    /// The visual takes only bounds pushed to it explicitly; it does not
    /// participate in implicit resize propagation.
    Explicit,
}

/// What a visual node carries.
#[derive(Clone, Copy, Debug, PartialEq, Eq, Structural)]
pub enum NodeKind {
    /// The root container, bound to the host window's drawing target.
    Root,
    /// The content layer, bound to the negotiated content surface.
    Content { handle: ContentSurfaceHandle },
    /// The owner-drawn overlay layer, carrying a solid paint.
    Overlay { paint: Color },
}

/// One node of the composition tree.
#[derive(Clone, Copy, Debug, PartialEq, Eq, Structural)]
pub struct VisualNode {
    pub kind: NodeKind,
    /// Arena index of the parent; only the root has none.
    pub parent: Option<usize>,
    pub fill: SizePolicy,
    /// Offset from the parent's origin, in pixels.
    pub offset: Point,
}

/// The composition tree for one session: the arena of nodes, the arena
/// indices of the content and overlay children once attached, and the
/// pixel bounds last pushed to the content surface.
pub struct VisualTree {
    pub nodes: Vec<VisualNode>,
    /// Identity of the host window whose drawing target the root is bound to.
    pub target: u64,
    pub content: Option<usize>,
    pub overlay: Option<usize>,
    /// The client-area bounds last pushed to the content handle, if any.
    pub pushed_bounds: Option<Size>,
}

impl VisualTree {
    /// Every tree starts with the root at index 0; all later nodes are its
    /// children, attached above one another in arena order.
    pub open spec fn wf(self) -> bool {
        &&& self.nodes@.len() >= 1
        &&& self.nodes@[0].kind is Root
        &&& self.nodes@[0].parent is None
        &&& self.nodes@[0].fill is FillParent
        &&& self.nodes@[0].offset == (Point { x: 0, y: 0 })
        &&& forall|i: int|
            1 <= i < self.nodes@.len() ==> (#[trigger] self.nodes@[i]).parent == Some(0usize)
        &&& self.target != 0
        &&& self.content matches Some(c)
            ==> 1 <= c < self.nodes@.len() && self.nodes@[c as int].kind is Content
        &&& self.overlay matches Some(o)
            ==> 1 <= o < self.nodes@.len() && self.nodes@[o as int].kind is Overlay
        &&& self.overlay_above_content()
        &&& self.pushed_bounds is Some ==> self.content is Some
    }

    /// The z-order invariant: whenever the overlay exists, the content
    /// layer exists too and the overlay sits at a strictly higher sibling
    /// position.
    pub open spec fn overlay_above_content(self) -> bool {
        self.overlay matches Some(o)
            ==> (self.content matches Some(c) && c < o)
    }

    /// The handle of the attached content layer.
    pub open spec fn content_handle(self) -> ContentSurfaceHandle
        recommends
            self.wf(),
            self.content is Some,
    {
        self.nodes@[self.content->0 as int].kind->handle
    }

    /// Creates the tree's root node, bound to the host window's drawing
    /// target. The root always matches the target's size, so its own size
    /// needs no explicit resize handling. A window that was never created
    /// has no drawing target, hence the precondition.
    pub fn create_root(target: &HostWindow) -> (t: VisualTree)
        requires
            target.wf(),
        ensures
            t.wf(),
            t.nodes@.len() == 1,
            t.target == target.handle,
            t.content is None,
            t.overlay is None,
            t.pushed_bounds is None,
    {
        let root = VisualNode {
            kind: NodeKind::Root,
            parent: None,
            fill: SizePolicy::FillParent,
            offset: Point { x: 0, y: 0 },
        };
        let mut nodes: Vec<VisualNode> = Vec::new();
        nodes.push(root);
        VisualTree { nodes, target: target.handle, content: None, overlay: None, pushed_bounds: None }
    }

    /// Attaches the content layer: a child bound to the negotiated surface,
    /// inserted at the top of the root's child order. The embedded surface
    /// does not auto-fill, so the child's size policy is explicit bounds.
    pub fn attach_content(&mut self, handle: ContentSurfaceHandle) -> (child: usize)
        requires
            old(self).wf(),
            old(self).content is None,
            old(self).overlay is None,
        ensures
            final(self).wf(),
            child == old(self).nodes@.len(),
            final(self).content == Some(child),
            final(self).overlay is None,
            final(self).pushed_bounds is None,
            final(self).target == old(self).target,
            final(self).nodes@ == old(self).nodes@.push(
                VisualNode {
                    kind: NodeKind::Content { handle },
                    parent: Some(0usize),
                    fill: SizePolicy::Explicit,
                    offset: Point { x: 0, y: 0 },
                },
            ),
            final(self).content_handle() == handle,
    {
        let child = self.nodes.len();
        self.nodes.push(
            VisualNode {
                kind: NodeKind::Content { handle },
                parent: Some(0usize),
                fill: SizePolicy::Explicit,
                offset: Point { x: 0, y: 0 },
            },
        );
        self.content = Some(child);
        child
    }

    /// Attaches the overlay layer above the content: a child carrying
    /// solid, fully transparent paint, matching its parent's size, inserted
    /// at the top of the root's child order. Its initial state is visually
    /// inert, so it never occludes content until repurposed.
    pub fn attach_overlay(&mut self) -> (child: usize)
        requires
            old(self).wf(),
            old(self).content is Some,
            old(self).overlay is None,
        ensures
            final(self).wf(),
            child == old(self).nodes@.len(),
            final(self).overlay == Some(child),
            final(self).content == old(self).content,
            final(self).pushed_bounds == old(self).pushed_bounds,
            final(self).target == old(self).target,
            final(self).nodes@ == old(self).nodes@.push(
                VisualNode {
                    kind: NodeKind::Overlay { paint: Color { a: 0, r: 0, g: 0, b: 0 } },
                    parent: Some(0usize),
                    fill: SizePolicy::FillParent,
                    offset: Point { x: 0, y: 0 },
                },
            ),
            old(self).content->0 < child,
    {
        let child = self.nodes.len();
        let paint = transparent_color();
        self.nodes.push(
            VisualNode {
                kind: NodeKind::Overlay { paint },
                parent: Some(0usize),
                fill: SizePolicy::FillParent,
                offset: Point { x: 0, y: 0 },
            },
        );
        self.overlay = Some(child);
        child
    }

    /// Records the explicit bounds push owed to the content handle whenever
    /// the host window's client area changes. The content surface does not
    /// auto-fill, so omitting this after a resize leaves it stale-sized.
    /// Nothing else about the tree changes: in particular the z-order of
    /// the overlay and content layers is untouched.
    pub fn on_resize(&mut self, handle: &ContentSurfaceHandle, new_size: Size)
        requires
            old(self).wf(),
            old(self).content is Some,
            old(self).content_handle() == *handle,
        ensures
            final(self).wf(),
            final(self).nodes@ == old(self).nodes@,
            final(self).content == old(self).content,
            final(self).overlay == old(self).overlay,
            final(self).target == old(self).target,
            final(self).pushed_bounds == Some(new_size),
    {
        self.pushed_bounds = Some(new_size);
    }
}

/// The z-order law: in every well-formed tree in which both children are
/// attached — so in every tree from the moment the session becomes ready —
/// the overlay's sibling position is strictly above the content's, and the
/// operations that run during the session's lifetime (the resize push)
/// leave both positions untouched.
pub proof fn lemma_overlay_strictly_above_content(t: VisualTree)
    requires
        t.wf(),
        t.overlay is Some,
    ensures
        t.content is Some,
        t.content->0 < t.overlay->0,
{
}

} // verus!
