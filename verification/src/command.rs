//! One-shot commands for a live window.

use vstd::prelude::*;

verus! {

/// A single imperative action for the windowing backend to apply to an
/// already-created window.
///
/// A command is a one-shot request, distinct from the steady-state
/// properties a [`crate::ViewportBuilder`] describes: each instance stands
/// for exactly one requested action and is consumed once by the backend.
/// Commands carry no validation — whether the backend can honor one is the
/// backend's outcome, not a property of this type. Equality is structural.
#[derive(Debug, Clone, PartialEq, Eq, Structural)]
pub enum ViewportCommand {
    /// Begin an interactive window-move gesture.
    Drag,
    /// Resize the window to an explicit width and height.
    ResizeTo(u32, u32),
    /// Begin an interactive resize gesture from the selected edges:
    /// top, bottom, right, left. Any subset is valid.
    ResizeFromEdge(bool, bool, bool, bool),
}

/// Two edge-resize commands are equal exactly when all four edge selections
/// agree; commands of different variants are never equal.
pub proof fn lemma_resize_from_edge_eq(
    t1: bool,
    b1: bool,
    r1: bool,
    l1: bool,
    t2: bool,
    b2: bool,
    r2: bool,
    l2: bool,
)
    ensures
        (ViewportCommand::ResizeFromEdge(t1, b1, r1, l1) == ViewportCommand::ResizeFromEdge(
            t2,
            b2,
            r2,
            l2,
        )) <==> (t1 == t2 && b1 == b2 && r1 == r2 && l1 == l2),
{
}

/// Two explicit resizes are equal exactly when both target sizes agree.
pub proof fn lemma_resize_to_eq(w1: u32, h1: u32, w2: u32, h2: u32)
    ensures
        (ViewportCommand::ResizeTo(w1, h1) == ViewportCommand::ResizeTo(w2, h2)) <==> (w1 == w2
            && h1 == h2),
{
}

} // verus!
