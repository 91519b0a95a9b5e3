use composition_session::Size;
use composition_session::host::HostWindow;
use composition_session::negotiation::ContentSurfaceHandle;
use composition_session::visuals::NodeKind;
use composition_session::visuals::SizePolicy;
use composition_session::visuals::VisualTree;

fn host() -> HostWindow {
    HostWindow { handle: 11, client_size: Size { width: 800, height: 600 }, cursor: None }
}

#[test]
fn root_fills_its_target() {
    let t = VisualTree::create_root(&host());
    assert_eq!(t.nodes.len(), 1);
    assert_eq!(t.target, 11);
    assert_eq!(t.nodes[0].kind, NodeKind::Root);
    assert_eq!(t.nodes[0].parent, None);
    assert_eq!(t.nodes[0].fill, SizePolicy::FillParent);
    assert!(t.content.is_none());
    assert!(t.overlay.is_none());
}

#[test]
fn overlay_sits_strictly_above_content() {
    let mut t = VisualTree::create_root(&host());
    let handle = ContentSurfaceHandle { id: 7 };
    let content = t.attach_content(handle);
    let overlay = t.attach_overlay();
    assert!(content < overlay);
    assert_eq!(t.content, Some(content));
    assert_eq!(t.overlay, Some(overlay));
    // both are children of the root
    assert_eq!(t.nodes[content].parent, Some(0));
    assert_eq!(t.nodes[overlay].parent, Some(0));
    assert_eq!(t.nodes[content].kind, NodeKind::Content { handle });
}

#[test]
fn overlay_paint_is_fully_transparent() {
    let mut t = VisualTree::create_root(&host());
    t.attach_content(ContentSurfaceHandle { id: 7 });
    let overlay = t.attach_overlay();
    match t.nodes[overlay].kind {
        NodeKind::Overlay { paint } => assert_eq!(paint.a, 0),
        _ => panic!("overlay node carries no paint"),
    }
    assert_eq!(t.nodes[overlay].fill, SizePolicy::FillParent);
}

#[test]
fn content_takes_only_explicit_bounds() {
    let mut t = VisualTree::create_root(&host());
    let handle = ContentSurfaceHandle { id: 7 };
    let content = t.attach_content(handle);
    assert_eq!(t.nodes[content].fill, SizePolicy::Explicit);
    assert_eq!(t.pushed_bounds, None);
    t.on_resize(&handle, Size { width: 800, height: 600 });
    assert_eq!(t.pushed_bounds, Some(Size { width: 800, height: 600 }));
    t.on_resize(&handle, Size { width: 1024, height: 768 });
    assert_eq!(t.pushed_bounds, Some(Size { width: 1024, height: 768 }));
}

#[test]
fn resize_leaves_the_z_order_untouched() {
    let mut t = VisualTree::create_root(&host());
    let handle = ContentSurfaceHandle { id: 7 };
    let content = t.attach_content(handle);
    let overlay = t.attach_overlay();
    t.on_resize(&handle, Size { width: 1024, height: 768 });
    assert_eq!(t.content, Some(content));
    assert_eq!(t.overlay, Some(overlay));
    assert!(content < overlay);
    assert_eq!(t.nodes.len(), 3);
}
