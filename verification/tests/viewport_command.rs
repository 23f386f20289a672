use egui_viewport::ViewportCommand;

#[test]
fn resize_from_edge_equality_is_structural() {
    let a = ViewportCommand::ResizeFromEdge(true, false, false, true);
    let b = ViewportCommand::ResizeFromEdge(true, false, false, true);
    let c = ViewportCommand::ResizeFromEdge(true, false, false, false);
    assert_eq!(a, b);
    assert_ne!(a, c);
}

#[test]
fn resize_to_carries_width_and_height() {
    let cmd = ViewportCommand::ResizeTo(800, 600);
    assert!(matches!(cmd, ViewportCommand::ResizeTo(..)));
    match cmd {
        ViewportCommand::ResizeTo(w, h) => {
            assert_eq!(w, 800);
            assert_eq!(h, 600);
        }
        _ => panic!("expected the explicit-resize variant"),
    }
    assert_eq!(
        ViewportCommand::ResizeTo(800, 600),
        ViewportCommand::ResizeTo(800, 600)
    );
    assert_ne!(
        ViewportCommand::ResizeTo(800, 600),
        ViewportCommand::ResizeTo(600, 800)
    );
}

#[test]
fn different_variants_are_never_equal() {
    assert_eq!(ViewportCommand::Drag, ViewportCommand::Drag);
    assert_ne!(ViewportCommand::Drag, ViewportCommand::ResizeTo(0, 0));
    assert_ne!(
        ViewportCommand::Drag,
        ViewportCommand::ResizeFromEdge(false, false, false, false)
    );
}

#[test]
fn cloning_preserves_the_command() {
    let cmd = ViewportCommand::ResizeFromEdge(false, true, true, false);
    assert_eq!(cmd.clone(), cmd);
}
