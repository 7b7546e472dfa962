use vstd::prelude::*;

verus! {

/// How a container places its children: one under the other or side by
/// side, with `spacing` pixels between neighbours and `padding` pixels
/// between its edge and the children.
#[derive(Debug, Clone, Copy, PartialEq, Eq, Structural)]
pub enum Layout {
    Vertical { spacing: u32, padding: u32 },
    Horizontal { spacing: u32, padding: u32 },
}

/// The sizing intent along one axis: fill the parent, fit the children, or a
/// fixed number of pixels.
#[derive(Debug, Clone, Copy, PartialEq, Eq, Structural)]
pub enum WidgetSize {
    Fill,
    Fit,
    Fixed(u32),
}

/// The sizing intent of a widget along both axes.
#[derive(Debug, Clone, Copy, PartialEq, Eq, Structural)]
pub struct IntrinsicSize {
    pub width: WidgetSize,
    pub height: WidgetSize,
}

impl Layout {
    /// The gap between neighbouring children.
    pub fn spacing(&self) -> (r: u32)
        ensures
            r == match *self {
                Layout::Vertical { spacing, .. } => spacing,
                Layout::Horizontal { spacing, .. } => spacing,
            },
    {
        match *self {
            Layout::Vertical { spacing, .. } => spacing,
            Layout::Horizontal { spacing, .. } => spacing,
        }
    }

    /// The gap between the container's edge and its children.
    pub fn padding(&self) -> (r: u32)
        ensures
            r == match *self {
                Layout::Vertical { padding, .. } => padding,
                Layout::Horizontal { padding, .. } => padding,
            },
    {
        match *self {
            Layout::Vertical { padding, .. } => padding,
            Layout::Horizontal { padding, .. } => padding,
        }
    }
}

} // verus!
