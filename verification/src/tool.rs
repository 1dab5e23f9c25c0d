use vstd::prelude::*;

verus! {

/// The annotation tool chosen in the editor's toolbar.
#[derive(Clone, Copy, Debug, PartialEq, Eq, Structural)]
pub enum Tool {
    Select,
    Pen,
    Eraser,
    Rect,
    Circle,
    Line,
    Arrow,
    Text,
    Blur,
}

} // verus!
